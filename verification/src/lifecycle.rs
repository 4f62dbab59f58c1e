//! What holds over the life of sessions and casts, whatever requests arrive
//! and in whatever order.
//!
//! Every request changes a registry in one piece: it sees the registry as the
//! request before it left it. However the requests of different clients
//! interleave, each registry therefore goes through a sequence of changes, and
//! a statement about every sequence is a statement about every interleaving.

use crate::backend::{bound, capture_request_for, created, running_node, served_node};
use crate::cast::CastBindingView;
use crate::flags::SessionType;
use crate::handles::{filed_by_handle, lemma_filed_entries_share_no_handle, no_shared_handle};
use crate::session::{selected, SelectSourcesOptionsView, SessionView};
use vstd::prelude::*;

verus! {

/// The sessions after create requests for `handles`, one after the other.
pub open spec fn after_creates(
    sessions: Map<Seq<char>, SessionView>,
    handles: Seq<Seq<char>>,
) -> Map<Seq<char>, SessionView>
    decreases handles.len(),
{
    if handles.len() == 0 {
        sessions
    } else {
        created(after_creates(sessions, handles.drop_last()), handles.last())
    }
}

/// However many sessions are created, and under whatever handles, no two live
/// sessions share a handle. The handles in use afterwards are those that were
/// in use before and those that were asked for, and a session that was live
/// before is what it was: asking for its handle again did not replace it.
pub proof fn lemma_creates_keep_handles_distinct(
    sessions: Map<Seq<char>, SessionView>,
    handles: Seq<Seq<char>>,
)
    requires
        filed_by_handle(sessions),
    ensures
        filed_by_handle(after_creates(sessions, handles)),
        no_shared_handle(after_creates(sessions, handles)),
        forall|handle: Seq<char>| #[trigger]
            after_creates(sessions, handles).contains_key(handle) <==> sessions.contains_key(handle)
                || handles.contains(handle),
        forall|handle: Seq<char>| #[trigger]
            sessions.contains_key(handle) ==> after_creates(sessions, handles)[handle]
                == sessions[handle],
    decreases handles.len(),
{
    let after = after_creates(sessions, handles);
    if handles.len() > 0 {
        let earlier = handles.drop_last();
        lemma_creates_keep_handles_distinct(sessions, earlier);
        assert forall|handle: Seq<char>| #[trigger]
            after.contains_key(handle) <==> sessions.contains_key(handle) || handles.contains(
                handle,
            ) by {
            // A handle that was asked for is the last one or one of the earlier ones.
            if handles.contains(handle) && handle != handles.last() {
                let i = choose|i: int| 0 <= i < handles.len() && handles[i] == handle;
                assert(earlier[i] == handle);
            }
        }
    }
    lemma_filed_entries_share_no_handle(after);
}

/// A source selection leaves every session the one it was: no session comes
/// or goes, and each keeps its handle and its type. Only the session that the
/// selection names can change at all, and if there is none, nothing changes.
pub proof fn lemma_selection_keeps_sessions(
    sessions: Map<Seq<char>, SessionView>,
    handle: Seq<char>,
    options: SelectSourcesOptionsView,
)
    requires
        filed_by_handle(sessions),
    ensures
        filed_by_handle(selected(sessions, handle, options)),
        selected(sessions, handle, options).dom() == sessions.dom(),
        forall|other: Seq<char>| #[trigger]
            sessions.contains_key(other) ==> {
                let after = selected(sessions, handle, options)[other];
                &&& after.handle_path == sessions[other].handle_path
                &&& after.session_type == sessions[other].session_type
                &&& other != handle ==> after == sessions[other]
            },
        !sessions.contains_key(handle) ==> selected(sessions, handle, options) == sessions,
{
}

/// One change of the cast registry.
pub enum CastStep<W> {
    /// A worker came up for the session `handle`.
    Bound { handle: Seq<char>, node_id: u32, worker: W },
    /// The cast of the session `handle` was ended.
    Ended { handle: Seq<char> },
}

/// The casts after one change.
pub open spec fn after_cast_step<W>(
    casts: Map<Seq<char>, CastBindingView<W>>,
    step: CastStep<W>,
) -> Map<Seq<char>, CastBindingView<W>> {
    match step {
        CastStep::Bound { handle, node_id, worker } => bound(casts, handle, node_id, worker),
        CastStep::Ended { handle } => casts.remove(handle),
    }
}

/// The casts after `steps`, one after the other.
pub open spec fn after_cast_steps<W>(
    casts: Map<Seq<char>, CastBindingView<W>>,
    steps: Seq<CastStep<W>>,
) -> Map<Seq<char>, CastBindingView<W>>
    decreases steps.len(),
{
    if steps.len() == 0 {
        casts
    } else {
        after_cast_step(after_cast_steps(casts, steps.drop_last()), steps.last())
    }
}

/// However workers come up and casts are ended, for whatever sessions and in
/// whatever order, no session ever has more than one cast: every binding is
/// filed under the handle of its session, and no two bindings serve the same
/// session.
pub proof fn lemma_one_cast_per_session<W>(
    casts: Map<Seq<char>, CastBindingView<W>>,
    steps: Seq<CastStep<W>>,
)
    requires
        filed_by_handle(casts),
    ensures
        filed_by_handle(after_cast_steps(casts, steps)),
        no_shared_handle(after_cast_steps(casts, steps)),
    decreases steps.len(),
{
    if steps.len() > 0 {
        lemma_one_cast_per_session(casts, steps.drop_last());
    }
    lemma_filed_entries_share_no_handle(after_cast_steps(casts, steps));
}

/// Where a session stands in its life, as far as the registries tell.
#[derive(PartialEq, Eq, Structural)]
pub enum SessionState {
    /// No session goes by the handle: none was created, or it was closed.
    Closed,
    /// The session is live and no cast serves it. Whether it has selected its
    /// sources is not recorded: a selection changes what the session prefers,
    /// not what may happen to it next.
    Created,
    /// The session is live and a cast serves it.
    Started,
}

/// The state of the session `handle`.
pub open spec fn state_of<W>(
    sessions: Map<Seq<char>, SessionView>,
    casts: Map<Seq<char>, CastBindingView<W>>,
    handle: Seq<char>,
) -> SessionState {
    if !sessions.contains_key(handle) {
        SessionState::Closed
    } else if casts.contains_key(handle) {
        SessionState::Started
    } else {
        SessionState::Created
    }
}

/// The life of a session, step by step. Creation takes a closed session to
/// `Created` and leaves a live one where it is; a selection never changes the
/// state; a worker that comes up takes a live session to `Started`, where
/// further workers leave it; ending the cast takes it back to `Created`; and
/// teardown, which ends the cast and then removes the session, takes every
/// session to `Closed`.
pub proof fn lemma_session_life<W>(
    sessions: Map<Seq<char>, SessionView>,
    casts: Map<Seq<char>, CastBindingView<W>>,
    handle: Seq<char>,
    options: SelectSourcesOptionsView,
    node_id: u32,
    worker: W,
)
    ensures
        sessions.contains_key(handle) ==> state_of(created(sessions, handle), casts, handle)
            == state_of(sessions, casts, handle),
        !sessions.contains_key(handle) && !casts.contains_key(handle) ==> state_of(
            created(sessions, handle),
            casts,
            handle,
        ) == SessionState::Created,
        state_of(selected(sessions, handle, options), casts, handle) == state_of(
            sessions,
            casts,
            handle,
        ),
        sessions.contains_key(handle) ==> state_of(
            sessions,
            bound(casts, handle, node_id, worker),
            handle,
        ) == SessionState::Started,
        sessions.contains_key(handle) ==> state_of(sessions, casts.remove(handle), handle)
            == SessionState::Created,
        state_of(sessions.remove(handle), casts.remove(handle), handle) == SessionState::Closed,
{
}

/// Starting a session that is served changes nothing: whatever worker might
/// have come up, the casts are the ones they were, and the stream that is
/// announced is the one that ran before.
pub proof fn lemma_start_of_served_session<W>(
    casts: Map<Seq<char>, CastBindingView<W>>,
    handle: Seq<char>,
    node_id: u32,
    worker: W,
)
    requires
        casts.contains_key(handle),
    ensures
        running_node(casts, handle) == Some(casts[handle].node_id),
        bound(casts, handle, node_id, worker) == casts,
        served_node(casts, handle, node_id) == casts[handle].node_id,
{
}

/// The first worker that comes up for a session decides its stream: every
/// start after that announces the node of that worker, and a worker that
/// comes up later is not bound.
pub proof fn lemma_first_worker_decides_stream<W>(
    casts: Map<Seq<char>, CastBindingView<W>>,
    handle: Seq<char>,
    node_id: u32,
    worker: W,
    later_node_id: u32,
    later_worker: W,
)
    requires
        !casts.contains_key(handle),
    ensures
        served_node(casts, handle, node_id) == node_id,
        running_node(bound(casts, handle, node_id, worker), handle) == Some(node_id),
        served_node(bound(casts, handle, node_id, worker), handle, later_node_id) == node_id,
        bound(bound(casts, handle, node_id, worker), handle, later_node_id, later_worker) == bound(
            casts,
            handle,
            node_id,
            worker,
        ),
{
}

/// A start never ends a cast: whatever worker comes up, and for whatever
/// session, every cast that ran before runs on, with the worker it had.
pub proof fn lemma_start_ends_no_cast<W>(
    casts: Map<Seq<char>, CastBindingView<W>>,
    handle: Seq<char>,
    node_id: u32,
    worker: W,
    served: Seq<char>,
)
    requires
        casts.contains_key(served),
    ensures
        bound(casts, handle, node_id, worker).contains_key(served),
        bound(casts, handle, node_id, worker)[served] == casts[served],
{
}

/// A session that no cast serves yet is started only if it is one for screen
/// casts: for a session of another type the first step of the start goes on
/// to the second, and the second ends the request with nothing to announce.
pub proof fn lemma_start_needs_screen_cast_session<W>(
    casts: Map<Seq<char>, CastBindingView<W>>,
    sessions: Map<Seq<char>, SessionView>,
    handle: Seq<char>,
)
    requires
        !casts.contains_key(handle),
        sessions.contains_key(handle),
        sessions[handle].session_type != SessionType::ScreenCast,
    ensures
        running_node(casts, handle) is None,
        capture_request_for(sessions, handle) is None,
{
}

/// Ending the cast of a session leaves the session without a cast, and the
/// casts of all other sessions as they were. There is then nothing left to
/// end: doing it again hands out no worker and changes nothing.
pub proof fn lemma_ended_cast_is_gone<W>(
    casts: Map<Seq<char>, CastBindingView<W>>,
    handle: Seq<char>,
)
    requires
        filed_by_handle(casts),
    ensures
        filed_by_handle(casts.remove(handle)),
        !casts.remove(handle).contains_key(handle),
        running_node(casts.remove(handle), handle) is None,
        casts.remove(handle).remove(handle) == casts.remove(handle),
        forall|other: Seq<char>|
            other != handle ==> #[trigger] running_node(casts.remove(handle), other)
                == running_node(casts, other),
{
}

} // verus!
