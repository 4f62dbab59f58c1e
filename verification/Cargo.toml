[package]
name = "screencast"
version = "0.1.0"
edition = "2021"
publish = false

[dependencies]
enumflags2 = "=0.7.12"
libwayshot = "=0.3.0"
libwaysip = "=0.2.7"
once_cell = "=1.21.4"
serde = { version = "=1.0.229", features = ["derive"] }
tokio = { version = "=1.54.1", features = ["full"] }
tracing = "=0.1.44"
zbus = { version = "=3.15.2", default-features = false, features = ["tokio"] }
zvariant = { version = "=3.15.2", default-features = false, features = ["enumflags2"] }
