//! What the portal answers: the three protocol outcomes, the payloads of a
//! successful call, and the ways a call can go wrong.

use crate::flags::SourceType;
use vstd::prelude::*;

verus! {

/// How a portal call ended, as the protocol tells it to the client.
#[derive(Clone, Debug, PartialEq, Eq)]
pub enum PortalResponse<T> {
    /// The call did what was asked; the payload holds its results.
    Success(T),
    /// The user turned the request down.
    Cancelled,
    /// The call ended in another way: there was nothing to act on.
    Other,
}

impl<T> PortalResponse<T> {
    /// The integer that stands for the outcome on the wire.
    pub open spec fn spec_code(&self) -> u32 {
        match self {
            PortalResponse::Success(_) => 0,
            PortalResponse::Cancelled => 1,
            PortalResponse::Other => 2,
        }
    }

    #[verifier::when_used_as_spec(spec_code)]
    pub fn code(&self) -> (code: u32)
        ensures
            code == self.spec_code(),
    {
        match self {
            PortalResponse::Success(_) => 0,
            PortalResponse::Cancelled => 1,
            PortalResponse::Other => 2,
        }
    }
}

/// The payload of a successful session creation.
#[derive(Clone, Debug, PartialEq, Eq)]
pub struct SessionCreateResult {
    /// The handle under which the new session is addressed.
    pub handle_token: String,
}

impl Default for SessionCreateResult {
    fn default() -> (result: SessionCreateResult)
        ensures
            result.handle_token@ == Seq::<char>::empty(),
    {
        SessionCreateResult { handle_token: String::new() }
    }
}

/// What is known about a stream besides its node. Every part is optional.
#[derive(Clone, Debug, PartialEq, Eq)]
pub struct StreamProperties {
    pub id: Option<String>,
    pub position: Option<(i32, i32)>,
    pub size: Option<(i32, i32)>,
    pub source_type: Option<SourceType>,
}

impl StreamProperties {
    /// Whether no property is given at all.
    pub open spec fn spec_is_unset(&self) -> bool {
        &&& self.id is None
        &&& self.position is None
        &&& self.size is None
        &&& self.source_type is None
    }

    #[verifier::when_used_as_spec(spec_is_unset)]
    pub fn is_unset(&self) -> (unset: bool)
        ensures
            unset == self.spec_is_unset(),
    {
        self.id.is_none() && self.position.is_none() && self.size.is_none()
            && self.source_type.is_none()
    }
}

impl Default for StreamProperties {
    fn default() -> (properties: StreamProperties)
        ensures
            properties.spec_is_unset(),
    {
        StreamProperties { id: None, position: None, size: None, source_type: None }
    }
}

/// A live capture stream: the node that carries it, and its properties.
#[derive(Clone, Debug, PartialEq, Eq)]
pub struct Stream(pub u32, pub StreamProperties);

impl Stream {
    /// The stream of node `node_id`, with no property given.
    pub fn new(node_id: u32) -> (stream: Stream)
        ensures
            stream.0 == node_id,
            stream.1.spec_is_unset(),
    {
        Stream(node_id, StreamProperties::default())
    }

    /// The identifier of the node that carries the stream.
    pub fn node_id(&self) -> (node_id: u32)
        ensures
            node_id == self.0,
    {
        self.0
    }

    pub fn properties(&self) -> (properties: &StreamProperties)
        ensures
            properties == &self.1,
    {
        &self.1
    }
}

impl Default for Stream {
    /// The stream of node 0, with no property given.
    fn default() -> (stream: Stream)
        ensures
            stream.0 == 0,
            stream.1.spec_is_unset(),
    {
        Stream::new(0)
    }
}

/// The payload of a successful start.
#[derive(Clone, Debug, PartialEq, Eq)]
pub struct StartReturnValue {
    pub streams: Vec<Stream>,
    pub persist_mode: u32,
    pub restore_token: Option<String>,
}

impl StartReturnValue {
    /// Whether this payload announces exactly the stream of node `node_id`,
    /// without properties, and grants nothing that outlives the request.
    pub open spec fn announces(&self, node_id: u32) -> bool {
        &&& self.streams@.len() == 1
        &&& self.streams@[0].0 == node_id
        &&& self.streams@[0].1.spec_is_unset()
        &&& self.persist_mode == 0
        &&& self.restore_token is None
    }

    /// The payload that announces the stream of node `node_id`.
    pub fn for_node(node_id: u32) -> (payload: StartReturnValue)
        ensures
            payload.announces(node_id),
    {
        let mut streams = Vec::new();
        streams.push(Stream::new(node_id));
        StartReturnValue { streams, persist_mode: 0, restore_token: None }
    }
}

impl Default for StartReturnValue {
    /// The payload that announces no stream at all.
    fn default() -> (payload: StartReturnValue)
        ensures
            payload.streams@.len() == 0,
            payload.persist_mode == 0,
            payload.restore_token is None,
    {
        StartReturnValue { streams: Vec::new(), persist_mode: 0, restore_token: None }
    }
}

/// Why a portal call did not do what was asked.
#[derive(Clone, Debug, PartialEq, Eq)]
pub enum PortalError {
    /// The user closed the selection without choosing anything.
    UserCancelled,
    /// No fitting session goes by the handle; it may have been closed in the
    /// meantime.
    SessionNotFound,
    /// The selected place is the corner of no output.
    OutputNotMatched,
    /// Something outside the portal failed. The text says what.
    BackendFailure(String),
    /// The operation would have put two sessions under one handle.
    InvariantViolation,
}

/// A failure that is reported to the client as an error of the call itself,
/// not as one of the outcomes of the protocol.
#[derive(Clone, Debug, PartialEq, Eq)]
pub struct Failure {
    pub message: String,
}

/// The text of the failure that reports a broken session invariant.
pub open spec fn invariant_violation_message() -> Seq<char> {
    "a session with this handle exists already"@
}

/// The text of the failure that reports that the selection could not run.
pub open spec fn selector_failure_message(cause: Seq<char>) -> Seq<char> {
    "wayland error, "@ + cause
}

/// The text of the failure that reports that no worker could be started.
pub open spec fn worker_failure_message(cause: Seq<char>) -> Seq<char> {
    "cannot start pipewire stream, error: "@ + cause
}

/// Turns the result of a call into what the client is told. A cancelled
/// selection and a missing session or output are ordinary outcomes of the
/// protocol; only a backend failure and a broken invariant fail the call.
pub fn respond<T>(result: Result<T, PortalError>) -> (reply: Result<PortalResponse<T>, Failure>)
    ensures
        match result {
            Ok(payload) => reply == Ok::<PortalResponse<T>, Failure>(
                PortalResponse::Success(payload),
            ),
            Err(PortalError::UserCancelled) => reply == Ok::<PortalResponse<T>, Failure>(
                PortalResponse::Cancelled,
            ),
            Err(PortalError::SessionNotFound) | Err(PortalError::OutputNotMatched) => reply == Ok::<
                PortalResponse<T>,
                Failure,
            >(PortalResponse::Other),
            Err(PortalError::BackendFailure(text)) => reply matches Err(failure)
                && failure.message@ == text@,
            Err(PortalError::InvariantViolation) => reply matches Err(failure) && failure.message@
                == invariant_violation_message(),
        },
{
    match result {
        Ok(payload) => Ok(PortalResponse::Success(payload)),
        Err(PortalError::UserCancelled) => Ok(PortalResponse::Cancelled),
        Err(PortalError::SessionNotFound) => Ok(PortalResponse::Other),
        Err(PortalError::OutputNotMatched) => Ok(PortalResponse::Other),
        Err(PortalError::BackendFailure(text)) => Err(Failure { message: text }),
        Err(PortalError::InvariantViolation) => Err(
            Failure { message: String::from_str("a session with this handle exists already") },
        ),
    }
}

} // verus!
