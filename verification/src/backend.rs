//! The coordinator: what the portal decides when a client creates a session,
//! selects its sources and starts the stream.
//!
//! A start request cannot be decided in one go. Between its decisions the
//! caller has to ask the user for a screen and to start a capture worker, and
//! both may take as long as they like. So `start` is cut into four steps. Each
//! step is handed at most one registry, and the two steps in the middle of
//! which the user is asked are handed none: whoever guards the registries with
//! locks holds one lock at a time and none while waiting.
//!
//! | step             | reads or changes  | then the caller                         |
//! |------------------|-------------------|-----------------------------------------|
//! | `start`          | cast registry     | goes on, or answers with the stream     |
//! | `capture_request`| session registry  | lists the outputs and asks the user     |
//! | `capture_target` | nothing           | starts a worker for the chosen output   |
//! | `finish_start`   | cast registry     | answers, and stops a worker not needed  |
//!
//! Tearing a session down takes no decision. The caller ends the cast with
//! `remove_cast_session`, stops the worker that this hands out, and then takes
//! the session out of its registry with `SessionRegistry::remove`.

use crate::cast::{CastBinding, CastBindingView, CastRegistry};
use crate::flags::{CursorMode, CursorModes, SessionType, SourceType, SourceTypes};
use crate::handles::filed_by_handle;
use crate::output::{find_output, is_first_output_at, no_output_at, Output};
use crate::response::{
    invariant_violation_message, respond, selector_failure_message, worker_failure_message,
    Failure, PortalError, PortalResponse, SessionCreateResult, StartReturnValue,
};
use crate::session::{selected, SelectSourcesOptions, Session, SessionRegistry, SessionView};
use vstd::prelude::*;

verus! {

/// What the client is told when a start request is over.
pub type StartReply = Result<PortalResponse<StartReturnValue>, Failure>;

/// Where a start request stands after one of its steps.
#[derive(Debug, PartialEq, Eq)]
pub enum StartStep<T> {
    /// The request goes on; the value is what the next step needs.
    Continue(T),
    /// The request is over; the value is the answer.
    Reply(StartReply),
}

/// What a start request takes from its session before the user is asked.
#[derive(Clone, Copy, Debug, PartialEq, Eq, Structural)]
pub struct CaptureRequest {
    /// Whether the capture worker draws the pointer.
    pub show_cursor: bool,
}

/// The capture that a start request has settled on.
#[derive(Clone, Copy, Debug, PartialEq, Eq, Structural)]
pub struct CaptureTarget {
    /// The place of the chosen output in the list that was handed in.
    pub output: usize,
    /// The size of the chosen output in pixels.
    pub width: u32,
    pub height: u32,
    /// Whether the capture worker draws the pointer.
    pub show_cursor: bool,
}

/// The sessions after a create request for `handle`: one more session, fresh
/// and for screen casts, unless the handle is taken.
pub open spec fn created(
    sessions: Map<Seq<char>, SessionView>,
    handle: Seq<char>,
) -> Map<Seq<char>, SessionView> {
    if sessions.contains_key(handle) {
        sessions
    } else {
        sessions.insert(handle, SessionView::fresh(handle, SessionType::ScreenCast))
    }
}

/// The node of the stream that already serves the session `handle`.
pub open spec fn running_node<W>(
    casts: Map<Seq<char>, CastBindingView<W>>,
    handle: Seq<char>,
) -> Option<u32> {
    if casts.contains_key(handle) {
        Some(casts[handle].node_id)
    } else {
        None
    }
}

/// What a start request for `handle` takes from the sessions: something only
/// if a session goes by the handle and is one for screen casts.
pub open spec fn capture_request_for(
    sessions: Map<Seq<char>, SessionView>,
    handle: Seq<char>,
) -> Option<CaptureRequest> {
    if sessions.contains_key(handle) && sessions[handle].session_type == SessionType::ScreenCast {
        Some(CaptureRequest { show_cursor: sessions[handle].cursor_mode.spec_show_cursor() })
    } else {
        None
    }
}

/// Whether `target` is the capture that a selection at `(x, y)` leads to: it
/// names the first output whose corner lies there, has the pixel size of that
/// output, and treats the pointer as `request` says.
pub open spec fn is_capture_target(
    target: CaptureTarget,
    request: CaptureRequest,
    outputs: Seq<Output>,
    x: i32,
    y: i32,
) -> bool {
    &&& is_first_output_at(outputs, x, y, target.output as int)
    &&& target.width == outputs[target.output as int].width as u32
    &&& target.height == outputs[target.output as int].height as u32
    &&& target.show_cursor == request.show_cursor
}

/// The casts after a worker for the session `handle` has come up: one more
/// binding, unless the session is served already.
pub open spec fn bound<W>(
    casts: Map<Seq<char>, CastBindingView<W>>,
    handle: Seq<char>,
    node_id: u32,
    worker: W,
) -> Map<Seq<char>, CastBindingView<W>> {
    if casts.contains_key(handle) {
        casts
    } else {
        casts.insert(handle, CastBindingView { session_handle: handle, node_id, worker })
    }
}

/// The node that serves the session `handle` once a worker with the node
/// `node_id` has come up for it: the node that served it before, if one did,
/// and the new one otherwise.
pub open spec fn served_node<W>(
    casts: Map<Seq<char>, CastBindingView<W>>,
    handle: Seq<char>,
    node_id: u32,
) -> u32 {
    match running_node(casts, handle) {
        Some(node) => node,
        None => node_id,
    }
}

/// The screen-cast side of the portal. It keeps no state of its own: the
/// registries it works on are handed to each call.
#[derive(Clone, Copy, Debug, Default)]
pub struct ScreenCastBackend;

impl ScreenCastBackend {
    /// The revision of the protocol that is implemented.
    pub fn version(&self) -> (version: u32)
        ensures
            version == 4,
    {
        4
    }

    /// The cursor modes on offer, as a wire integer: hidden and embedded.
    pub fn available_cursor_modes(&self) -> (bits: u32)
        ensures
            bits == CursorModes::spec_empty().spec_with(CursorMode::Hidden).spec_with(
                CursorMode::Embedded,
            ).spec_bits(),
    {
        CursorModes::from_flag(CursorMode::Hidden).with(CursorMode::Embedded).bits()
    }

    /// The source types on offer, as a wire integer: monitors only.
    pub fn available_source_types(&self) -> (bits: u32)
        ensures
            bits == SourceTypes::spec_empty().spec_with(SourceType::Monitor).spec_bits(),
    {
        SourceTypes::from_flag(SourceType::Monitor).bits()
    }

    /// Opens a screen-cast session under `session_handle`, with the default
    /// preferences, and answers with the handle. A handle that is taken is
    /// not given out again: the call fails and the sessions stay as they are.
    pub fn create_session(&self, sessions: &mut SessionRegistry, session_handle: &str) -> (reply:
        Result<PortalResponse<SessionCreateResult>, Failure>)
        ensures
            filed_by_handle(final(sessions)@),
            final(sessions)@ == created(old(sessions)@, session_handle@),
            if old(sessions)@.contains_key(session_handle@) {
                reply matches Err(failure) && failure.message@ == invariant_violation_message()
            } else {
                reply matches Ok(PortalResponse::Success(result)) && result.handle_token@
                    == session_handle@
            },
    {
        let session = Session::new(session_handle.to_owned(), SessionType::ScreenCast);
        match sessions.insert(session) {
            Ok(()) => respond(Ok(SessionCreateResult { handle_token: session_handle.to_owned() })),
            Err(_) => respond(Err(PortalError::InvariantViolation)),
        }
    }

    /// Takes over what the client selected for the session `session_handle`.
    /// If no session goes by the handle (it may have been closed a moment
    /// ago) nothing changes and the answer is `Other`.
    pub fn select_sources(
        &self,
        sessions: &mut SessionRegistry,
        session_handle: &str,
        options: SelectSourcesOptions,
    ) -> (reply: Result<PortalResponse<()>, Failure>)
        ensures
            filed_by_handle(final(sessions)@),
            final(sessions)@ == selected(old(sessions)@, session_handle@, options@),
            reply == Ok::<PortalResponse<()>, Failure>(
                if old(sessions)@.contains_key(session_handle@) {
                    PortalResponse::Success(())
                } else {
                    PortalResponse::Other
                },
            ),
            !old(sessions)@.contains_key(session_handle@) ==> final(sessions)@ == old(sessions)@,
    {
        match sessions.update(session_handle, options) {
            Ok(()) => respond(Ok(())),
            Err(_) => respond(Err(PortalError::SessionNotFound)),
        }
    }

    /// First step of a start request. If a cast already serves the session,
    /// the request is over: the answer announces the stream that runs, and no
    /// second worker is asked for. Otherwise the request goes on.
    pub fn start<W>(&self, casts: &CastRegistry<W>, session_handle: &str) -> (step: StartStep<()>)
        ensures
            match running_node(casts@, session_handle@) {
                Some(node_id) => step matches StartStep::Reply(Ok(PortalResponse::Success(payload)))
                    && payload.announces(node_id),
                None => step == StartStep::Continue(()),
            },
    {
        match casts.find_by_handle(session_handle) {
            Some(binding) => StartStep::Reply(
                respond(Ok(StartReturnValue::for_node(binding.node_id))),
            ),
            None => StartStep::Continue(()),
        }
    }

    /// Second step of a start request. Only a session for screen casts can be
    /// started: if none goes by the handle, or one of another type, the
    /// request is over and the answer is `Other`. Otherwise the request goes
    /// on with what the session says about the pointer. The session itself is
    /// only read.
    pub fn capture_request(&self, sessions: &SessionRegistry, session_handle: &str) -> (step:
        StartStep<CaptureRequest>)
        ensures
            match capture_request_for(sessions@, session_handle@) {
                Some(request) => step == StartStep::Continue(request),
                None => step == StartStep::<CaptureRequest>::Reply(Ok(PortalResponse::Other)),
            },
    {
        match sessions.find(session_handle) {
            Some(session) if session.session_type == SessionType::ScreenCast => StartStep::Continue(
                CaptureRequest { show_cursor: session.cursor_mode.show_cursor() },
            ),
            _ => StartStep::Reply(respond(Err(PortalError::SessionNotFound))),
        }
    }

    /// Third step of a start request, taken when the user has been asked for a
    /// screen. `selection` is what came of that: the top-left corner of the
    /// chosen region, `None` if the user chose nothing, or the reason why the
    /// selection could not run. `outputs` are the outputs as enumerated.
    ///
    /// A cancelled selection ends the request with `Cancelled`, a failed one
    /// fails it, and a corner that belongs to no output ends it with `Other`.
    /// Otherwise a worker is to be started for the matched output.
    pub fn capture_target(
        &self,
        request: CaptureRequest,
        outputs: &[Output],
        selection: Result<Option<(i32, i32)>, String>,
    ) -> (step: StartStep<CaptureTarget>)
        ensures
            match selection {
                Ok(Some((x, y))) => match step {
                    StartStep::Continue(target) => is_capture_target(
                        target,
                        request,
                        outputs@,
                        x,
                        y,
                    ),
                    StartStep::Reply(reply) => reply == Ok::<
                        PortalResponse<StartReturnValue>,
                        Failure,
                    >(PortalResponse::Other) && no_output_at(outputs@, x, y),
                },
                Ok(None) => step == StartStep::<CaptureTarget>::Reply(
                    Ok(PortalResponse::Cancelled),
                ),
                Err(cause) => step matches StartStep::Reply(Err(failure)) && failure.message@
                    == selector_failure_message(cause@),
            },
    {
        let chosen = match selection {
            Ok(Some((x, y))) => match find_output(outputs, x, y) {
                Some(i) => Ok(
                    CaptureTarget {
                        output: i,
                        width: outputs[i].width as u32,
                        height: outputs[i].height as u32,
                        show_cursor: request.show_cursor,
                    },
                ),
                None => Err(PortalError::OutputNotMatched),
            },
            Ok(None) => Err(PortalError::UserCancelled),
            Err(cause) => Err(
                PortalError::BackendFailure(
                    String::from_str("wayland error, ").concat(cause.as_str()),
                ),
            ),
        };
        match chosen {
            Ok(target) => StartStep::Continue(target),
            Err(error) => StartStep::Reply(respond(Err(error))),
        }
    }

    /// Last step of a start request, taken when the capture worker has been
    /// asked to start. `started` is what came of that: the node of the new
    /// stream with the handle of the worker, or the reason why none came up.
    ///
    /// A worker that came up is bound to the session and its stream announced.
    /// If the session got a cast while the user was choosing, that cast stays
    /// the only one: its stream is announced, and the new worker comes back
    /// as the second part of the result, for the caller to stop. A worker that
    /// did not come up fails the request.
    pub fn finish_start<W>(
        &self,
        casts: &mut CastRegistry<W>,
        session_handle: &str,
        started: Result<(u32, W), String>,
    ) -> (finished: (StartReply, Option<W>))
        ensures
            filed_by_handle(final(casts)@),
            match started {
                Ok((node_id, worker)) => {
                    &&& final(casts)@ == bound(old(casts)@, session_handle@, node_id, worker)
                    &&& finished.0 matches Ok(PortalResponse::Success(payload))
                        && payload.announces(served_node(old(casts)@, session_handle@, node_id))
                    &&& running_node(final(casts)@, session_handle@) == Some(
                        served_node(old(casts)@, session_handle@, node_id),
                    )
                    &&& finished.1 == if old(casts)@.contains_key(session_handle@) {
                        Some(worker)
                    } else {
                        None
                    }
                },
                Err(cause) => {
                    &&& final(casts)@ == old(casts)@
                    &&& finished.0 matches Err(failure) && failure.message@
                        == worker_failure_message(cause@)
                    &&& finished.1 is None
                },
            },
    {
        proof {
            use_type_invariant(&*casts);
            casts.lemma_one_binding_per_session();
        }
        match started {
            Ok((node_id, worker)) => {
                let existing = match casts.find_by_handle(session_handle) {
                    Some(binding) => Some(binding.node_id),
                    None => None,
                };
                match existing {
                    Some(node) => (respond(Ok(StartReturnValue::for_node(node))), Some(worker)),
                    None => {
                        casts.insert(CastBinding::new(session_handle.to_owned(), node_id, worker));
                        (respond(Ok(StartReturnValue::for_node(node_id))), None)
                    },
                }
            },
            Err(cause) => {
                let text = String::from_str("cannot start pipewire stream, error: ").concat(
                    cause.as_str(),
                );
                (respond(Err(PortalError::BackendFailure(text))), None)
            },
        }
    }
}

} // verus!
