//! The enumerations of the screen-cast protocol and the bit-sets built from them.
//!
//! On the wire a set of source types or cursor modes travels as one unsigned
//! integer. The tables below fix which bit stands for which member:
//!
//! | member                  | bit |
//! |-------------------------|-----|
//! | `SourceType::Monitor`   | 1   |
//! | `SourceType::Window`    | 2   |
//! | `SourceType::Virtual`   | 4   |
//! | `CursorMode::Hidden`    | 1   |
//! | `CursorMode::Embedded`  | 2   |
//! | `CursorMode::Metadata`  | 4   |
//!
//! Inside the library a set is a record of one flag per member; integers appear
//! only in `bits` and `from_bits`.

use vstd::prelude::*;

verus! {

/// What a session was opened for.
#[derive(Clone, Copy, Debug, PartialEq, Eq, Structural)]
pub enum SessionType {
    ScreenCast,
    Remote,
}

/// How long a granted permission outlives the request that obtained it.
#[derive(Clone, Copy, Debug, PartialEq, Eq, Structural)]
pub enum PersistMode {
    DoNotPersist,
    PersistWhileRunning,
    PersistUntilRevoked,
}

impl PersistMode {
    /// The integer that stands for this mode on the wire.
    pub open spec fn spec_code(self) -> u32 {
        match self {
            PersistMode::DoNotPersist => 0,
            PersistMode::PersistWhileRunning => 1,
            PersistMode::PersistUntilRevoked => 2,
        }
    }

    #[verifier::when_used_as_spec(spec_code)]
    pub fn code(self) -> (code: u32)
        ensures
            code == self.spec_code(),
    {
        match self {
            PersistMode::DoNotPersist => 0,
            PersistMode::PersistWhileRunning => 1,
            PersistMode::PersistUntilRevoked => 2,
        }
    }

    /// The mode that `code` stands for.
    pub open spec fn spec_from_code(code: u32) -> Option<PersistMode> {
        if code == 0 {
            Some(PersistMode::DoNotPersist)
        } else if code == 1 {
            Some(PersistMode::PersistWhileRunning)
        } else if code == 2 {
            Some(PersistMode::PersistUntilRevoked)
        } else {
            None
        }
    }

    /// The mode that `code` stands for; `None` exactly when no mode has that code.
    #[verifier::when_used_as_spec(spec_from_code)]
    pub fn from_code(code: u32) -> (mode: Option<PersistMode>)
        ensures
            mode == Self::spec_from_code(code),
            match mode {
                Some(m) => m.spec_code() == code,
                None => forall|m: PersistMode| #[trigger] m.spec_code() != code,
            },
    {
        if code == 0 {
            Some(PersistMode::DoNotPersist)
        } else if code == 1 {
            Some(PersistMode::PersistWhileRunning)
        } else if code == 2 {
            Some(PersistMode::PersistUntilRevoked)
        } else {
            None
        }
    }
}

/// One kind of content that can be captured.
#[derive(Clone, Copy, Debug, PartialEq, Eq, Structural)]
pub enum SourceType {
    Monitor,
    Window,
    Virtual,
}

impl SourceType {
    /// The bit that stands for this source type on the wire.
    pub open spec fn spec_bit(self) -> u32 {
        match self {
            SourceType::Monitor => 1,
            SourceType::Window => 2,
            SourceType::Virtual => 4,
        }
    }

    #[verifier::when_used_as_spec(spec_bit)]
    pub fn bit(self) -> (bit: u32)
        ensures
            bit == self.spec_bit(),
    {
        match self {
            SourceType::Monitor => 1,
            SourceType::Window => 2,
            SourceType::Virtual => 4,
        }
    }
}

/// A set of source types.
#[derive(Clone, Copy, Debug, PartialEq, Eq, Structural)]
pub struct SourceTypes {
    pub monitor: bool,
    pub window: bool,
    pub virtual_source: bool,
}

impl SourceTypes {
    /// Whether `member` is in the set.
    pub open spec fn spec_contains(self, member: SourceType) -> bool {
        match member {
            SourceType::Monitor => self.monitor,
            SourceType::Window => self.window,
            SourceType::Virtual => self.virtual_source,
        }
    }

    /// The wire integer of the set: the sum of its members' bits.
    pub open spec fn spec_bits(self) -> u32 {
        ((if self.monitor { 1int } else { 0 })
            + (if self.window { 2int } else { 0 })
            + (if self.virtual_source { 4int } else { 0 })) as u32
    }

    /// The set without members.
    pub open spec fn spec_empty() -> SourceTypes {
        SourceTypes { monitor: false, window: false, virtual_source: false }
    }

    /// This set with `member` added.
    pub open spec fn spec_with(self, member: SourceType) -> SourceTypes {
        SourceTypes {
            monitor: self.monitor || member == SourceType::Monitor,
            window: self.window || member == SourceType::Window,
            virtual_source: self.virtual_source || member == SourceType::Virtual,
        }
    }

    /// The set whose wire integer is `bits`, if there is one: each of the
    /// three lowest binary digits of `bits` says whether its member belongs to
    /// the set, and no higher digit may be set.
    pub open spec fn spec_from_bits(bits: u32) -> Option<SourceTypes> {
        if bits < 8 {
            Some(
                SourceTypes {
                    monitor: bits % 2 == 1,
                    window: (bits / 2) % 2 == 1,
                    virtual_source: (bits / 4) % 2 == 1,
                },
            )
        } else {
            None
        }
    }

    #[verifier::when_used_as_spec(spec_empty)]
    pub fn empty() -> (set: SourceTypes)
        ensures
            set == Self::spec_empty(),
            forall|member: SourceType| !set.spec_contains(member),
    {
        SourceTypes { monitor: false, window: false, virtual_source: false }
    }

    /// The set that holds `member` and nothing else.
    pub fn from_flag(member: SourceType) -> (set: SourceTypes)
        ensures
            set == Self::spec_empty().spec_with(member),
            forall|other: SourceType| set.spec_contains(other) == (other == member),
            set.spec_bits() == member.spec_bit(),
    {
        SourceTypes::empty().with(member)
    }

    /// This set with `member` added.
    #[verifier::when_used_as_spec(spec_with)]
    pub fn with(self, member: SourceType) -> (set: SourceTypes)
        ensures
            set == self.spec_with(member),
            forall|other: SourceType|
                set.spec_contains(other) == (other == member || self.spec_contains(other)),
    {
        match member {
            SourceType::Monitor => SourceTypes { monitor: true, ..self },
            SourceType::Window => SourceTypes { window: true, ..self },
            SourceType::Virtual => SourceTypes { virtual_source: true, ..self },
        }
    }

    #[verifier::when_used_as_spec(spec_contains)]
    pub fn contains(self, member: SourceType) -> (present: bool)
        ensures
            present == self.spec_contains(member),
    {
        match member {
            SourceType::Monitor => self.monitor,
            SourceType::Window => self.window,
            SourceType::Virtual => self.virtual_source,
        }
    }

    #[verifier::when_used_as_spec(spec_bits)]
    pub fn bits(self) -> (bits: u32)
        ensures
            bits == self.spec_bits(),
    {
        let mut bits: u32 = 0;
        if self.monitor {
            bits = bits + 1;
        }
        if self.window {
            bits = bits + 2;
        }
        if self.virtual_source {
            bits = bits + 4;
        }
        bits
    }

    /// The set whose wire integer is `bits`; `None` exactly when `bits` has a
    /// bit that stands for no source type, so that no set encodes to it.
    #[verifier::when_used_as_spec(spec_from_bits)]
    pub fn from_bits(bits: u32) -> (set: Option<SourceTypes>)
        ensures
            set == Self::spec_from_bits(bits),
            match set {
                Some(s) => s.spec_bits() == bits,
                None => forall|s: SourceTypes| #[trigger] s.spec_bits() != bits,
            },
    {
        if bits & !7u32 != 0 {
            assert(bits > 7) by (bit_vector)
                requires
                    bits & !7u32 != 0,
            ;
            return None;
        }
        assert(bits < 8 && (bits & 1 != 0) == (bits % 2 == 1) && (bits & 2 != 0) == ((bits / 2) % 2
            == 1) && (bits & 4 != 0) == ((bits / 4) % 2 == 1)) by (bit_vector)
            requires
                bits & !7u32 == 0,
        ;
        Some(
            SourceTypes {
                monitor: bits & 1 != 0,
                window: bits & 2 != 0,
                virtual_source: bits & 4 != 0,
            },
        )
    }
}

/// No two sets of source types share a wire integer: what `from_bits` yields
/// for an integer is the only set that `bits` turns into it.
pub proof fn lemma_source_types_bits_are_unique(a: SourceTypes, b: SourceTypes)
    requires
        a.spec_bits() == b.spec_bits(),
    ensures
        a == b,
{
}

/// One way of treating the pointer in a captured stream.
#[derive(Clone, Copy, Debug, PartialEq, Eq, Structural)]
pub enum CursorMode {
    /// The pointer is not part of the stream.
    Hidden,
    /// The pointer is drawn into the frames.
    Embedded,
    /// The pointer travels beside the frames as metadata.
    Metadata,
}

impl CursorMode {
    /// The bit that stands for this cursor mode on the wire.
    pub open spec fn spec_bit(self) -> u32 {
        match self {
            CursorMode::Hidden => 1,
            CursorMode::Embedded => 2,
            CursorMode::Metadata => 4,
        }
    }

    #[verifier::when_used_as_spec(spec_bit)]
    pub fn bit(self) -> (bit: u32)
        ensures
            bit == self.spec_bit(),
    {
        match self {
            CursorMode::Hidden => 1,
            CursorMode::Embedded => 2,
            CursorMode::Metadata => 4,
        }
    }
}

/// A set of cursor modes.
#[derive(Clone, Copy, Debug, PartialEq, Eq, Structural)]
pub struct CursorModes {
    pub hidden: bool,
    pub embedded: bool,
    pub metadata: bool,
}

impl CursorModes {
    /// Whether `member` is in the set.
    pub open spec fn spec_contains(self, member: CursorMode) -> bool {
        match member {
            CursorMode::Hidden => self.hidden,
            CursorMode::Embedded => self.embedded,
            CursorMode::Metadata => self.metadata,
        }
    }

    /// The wire integer of the set: the sum of its members' bits.
    pub open spec fn spec_bits(self) -> u32 {
        ((if self.hidden { 1int } else { 0 })
            + (if self.embedded { 2int } else { 0 })
            + (if self.metadata { 4int } else { 0 })) as u32
    }

    /// Whether a capture worker serving this set draws the pointer: it does as
    /// soon as the set asks for anything but a hidden pointer.
    pub open spec fn spec_show_cursor(self) -> bool {
        self.embedded || self.metadata
    }

    /// The set without members.
    pub open spec fn spec_empty() -> CursorModes {
        CursorModes { hidden: false, embedded: false, metadata: false }
    }

    /// This set with `member` added.
    pub open spec fn spec_with(self, member: CursorMode) -> CursorModes {
        CursorModes {
            hidden: self.hidden || member == CursorMode::Hidden,
            embedded: self.embedded || member == CursorMode::Embedded,
            metadata: self.metadata || member == CursorMode::Metadata,
        }
    }

    /// The set whose wire integer is `bits`, if there is one: each of the
    /// three lowest binary digits of `bits` says whether its member belongs to
    /// the set, and no higher digit may be set.
    pub open spec fn spec_from_bits(bits: u32) -> Option<CursorModes> {
        if bits < 8 {
            Some(
                CursorModes {
                    hidden: bits % 2 == 1,
                    embedded: (bits / 2) % 2 == 1,
                    metadata: (bits / 4) % 2 == 1,
                },
            )
        } else {
            None
        }
    }

    #[verifier::when_used_as_spec(spec_empty)]
    pub fn empty() -> (set: CursorModes)
        ensures
            set == Self::spec_empty(),
            forall|member: CursorMode| !set.spec_contains(member),
    {
        CursorModes { hidden: false, embedded: false, metadata: false }
    }

    /// The set that holds `member` and nothing else.
    pub fn from_flag(member: CursorMode) -> (set: CursorModes)
        ensures
            set == Self::spec_empty().spec_with(member),
            forall|other: CursorMode| set.spec_contains(other) == (other == member),
            set.spec_bits() == member.spec_bit(),
    {
        CursorModes::empty().with(member)
    }

    /// This set with `member` added.
    #[verifier::when_used_as_spec(spec_with)]
    pub fn with(self, member: CursorMode) -> (set: CursorModes)
        ensures
            set == self.spec_with(member),
            forall|other: CursorMode|
                set.spec_contains(other) == (other == member || self.spec_contains(other)),
    {
        match member {
            CursorMode::Hidden => CursorModes { hidden: true, ..self },
            CursorMode::Embedded => CursorModes { embedded: true, ..self },
            CursorMode::Metadata => CursorModes { metadata: true, ..self },
        }
    }

    #[verifier::when_used_as_spec(spec_contains)]
    pub fn contains(self, member: CursorMode) -> (present: bool)
        ensures
            present == self.spec_contains(member),
    {
        match member {
            CursorMode::Hidden => self.hidden,
            CursorMode::Embedded => self.embedded,
            CursorMode::Metadata => self.metadata,
        }
    }

    #[verifier::when_used_as_spec(spec_bits)]
    pub fn bits(self) -> (bits: u32)
        ensures
            bits == self.spec_bits(),
    {
        let mut bits: u32 = 0;
        if self.hidden {
            bits = bits + 1;
        }
        if self.embedded {
            bits = bits + 2;
        }
        if self.metadata {
            bits = bits + 4;
        }
        bits
    }

    /// The set whose wire integer is `bits`; `None` exactly when `bits` has a
    /// bit that stands for no cursor mode, so that no set encodes to it.
    #[verifier::when_used_as_spec(spec_from_bits)]
    pub fn from_bits(bits: u32) -> (set: Option<CursorModes>)
        ensures
            set == Self::spec_from_bits(bits),
            match set {
                Some(s) => s.spec_bits() == bits,
                None => forall|s: CursorModes| #[trigger] s.spec_bits() != bits,
            },
    {
        if bits & !7u32 != 0 {
            assert(bits > 7) by (bit_vector)
                requires
                    bits & !7u32 != 0,
            ;
            return None;
        }
        assert(bits < 8 && (bits & 1 != 0) == (bits % 2 == 1) && (bits & 2 != 0) == ((bits / 2) % 2
            == 1) && (bits & 4 != 0) == ((bits / 4) % 2 == 1)) by (bit_vector)
            requires
                bits & !7u32 == 0,
        ;
        Some(
            CursorModes {
                hidden: bits & 1 != 0,
                embedded: bits & 2 != 0,
                metadata: bits & 4 != 0,
            },
        )
    }

    #[verifier::when_used_as_spec(spec_show_cursor)]
    pub fn show_cursor(self) -> (show: bool)
        ensures
            show == self.spec_show_cursor(),
    {
        self.embedded || self.metadata
    }
}

/// No two sets of cursor modes share a wire integer: what `from_bits` yields
/// for an integer is the only set that `bits` turns into it.
pub proof fn lemma_cursor_modes_bits_are_unique(a: CursorModes, b: CursorModes)
    requires
        a.spec_bits() == b.spec_bits(),
    ensures
        a == b,
{
}

} // verus!
