//! Coordinator for screen-cast sessions of a desktop portal.
//!
//! A sandboxed client negotiates a capture in three calls: it creates a
//! session, selects what it wants to record, and starts the stream. This crate
//! holds the state behind that negotiation and the decisions that move a
//! session from one step to the next. Talking to the bus, asking the user for
//! a screen and running the capture itself are left to the caller, who hands
//! in what came of them.
//!
//! - [`session`] holds the sessions and [`cast`] the running casts, each in a
//!   registry that never files two entries under one handle ([`handles`]).
//! - [`output`] picks the output that the user selected.
//! - [`backend`] is the coordinator: one function for each call of the
//!   client, and four for `start`, which has to wait for the user in between.
//! - [`response`] holds the answers, and [`flags`] the enumerations and
//!   bit-sets of the protocol.
//! - [`lifecycle`] proves what holds whatever requests arrive, and in
//!   whatever order.

pub mod backend;
pub mod cast;
pub mod flags;
pub mod handles;
pub mod lifecycle;
pub mod output;
pub mod response;
pub mod session;

pub use backend::{CaptureRequest, CaptureTarget, ScreenCastBackend, StartReply, StartStep};
pub use cast::{
    append_cast_session, remove_cast_session, CastBinding, CastRegistry, CastSessionData,
};
pub use flags::{CursorMode, CursorModes, PersistMode, SessionType, SourceType, SourceTypes};
pub use output::{find_output, Output};
pub use response::{
    respond, Failure, PortalError, PortalResponse, SessionCreateResult, StartReturnValue, Stream,
    StreamProperties,
};
pub use session::{RegistryError, SelectSourcesOptions, Session, SessionRegistry};
