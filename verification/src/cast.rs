//! Running casts and the registry that binds each of them to its session.
//!
//! The registry owns the handle of every capture worker that runs. The only
//! way to get a worker out of it is to remove its binding, and whoever removes
//! a binding is handed the worker so that it can be stopped: a worker that is
//! still bound is alive, and one that was stopped is bound no more.

use crate::handles::{
    distinct_handles, entry_map, filed_by_handle, lemma_entry_map_is_filed,
    lemma_entry_map_push, lemma_entry_map_remove, lemma_handle_names_place, Handled,
};
use vstd::prelude::*;

verus! {

/// A session together with the capture worker that serves it. `W` is the
/// caller's handle of a running worker; this crate never looks inside it.
#[derive(Debug, PartialEq, Eq)]
pub struct CastBinding<W> {
    /// The handle of the session that is served. The session itself lives in
    /// the session registry.
    pub session_handle: String,
    /// The identifier of the stream that the worker feeds.
    pub node_id: u32,
    pub worker: W,
}

/// What is recorded of a cast that was started.
pub type CastSessionData<W> = CastBinding<W>;

/// The mathematical value of a `CastBinding`.
pub struct CastBindingView<W> {
    pub session_handle: Seq<char>,
    pub node_id: u32,
    pub worker: W,
}

impl<W> View for CastBinding<W> {
    type V = CastBindingView<W>;

    open spec fn view(&self) -> CastBindingView<W> {
        CastBindingView {
            session_handle: self.session_handle@,
            node_id: self.node_id,
            worker: self.worker,
        }
    }
}

impl<W> Handled for CastBindingView<W> {
    open spec fn handle(&self) -> Seq<char> {
        self.session_handle
    }
}

impl<W> CastBinding<W> {
    /// The binding of `worker`, which feeds the stream `node_id`, to the
    /// session that goes by `session_handle`.
    pub fn new(session_handle: String, node_id: u32, worker: W) -> (binding: CastBinding<W>)
        ensures
            binding@ == (CastBindingView { session_handle: session_handle@, node_id, worker }),
    {
        CastBinding { session_handle, node_id, worker }
    }
}

/// The values of the stored bindings, one for one.
pub open spec fn binding_views<W>(bindings: Seq<CastBinding<W>>) -> Seq<CastBindingView<W>> {
    Seq::new(bindings.len(), |i: int| bindings[i]@)
}

/// The running casts. No session ever has more than one: the registry is a
/// map from the handles of the sessions that are served to their bindings.
pub struct CastRegistry<W> {
    /// The bindings in the order in which they were made.
    bindings: Vec<CastBinding<W>>,
}

impl<W> View for CastRegistry<W> {
    type V = Map<Seq<char>, CastBindingView<W>>;

    closed spec fn view(&self) -> Map<Seq<char>, CastBindingView<W>> {
        entry_map(binding_views(self.bindings@))
    }
}

impl<W> CastRegistry<W> {
    /// What every registry fulfils at every moment: no two of the stored
    /// bindings serve the same session.
    #[verifier::type_invariant]
    pub closed spec fn one_binding_per_session(&self) -> bool {
        distinct_handles(binding_views(self.bindings@))
    }

    /// What that means for the map: it is finite, and every binding is filed
    /// under the handle of the session that it serves.
    pub proof fn lemma_one_binding_per_session(&self)
        requires
            self.one_binding_per_session(),
        ensures
            filed_by_handle(self@),
    {
        lemma_entry_map_is_filed(binding_views(self.bindings@));
    }

    /// A registry without casts.
    pub fn new() -> (registry: CastRegistry<W>)
        ensures
            registry@ == Map::<Seq<char>, CastBindingView<W>>::empty(),
    {
        CastRegistry { bindings: Vec::new() }
    }

    /// How many casts run. There are as many as there are sessions that are
    /// served, and each binding is filed under the handle of its session.
    pub fn len(&self) -> (n: usize)
        ensures
            n == self@.len(),
            filed_by_handle(self@),
    {
        proof {
            use_type_invariant(self);
            lemma_entry_map_is_filed(binding_views(self.bindings@));
        }
        self.bindings.len()
    }

    /// Hands out the stored bindings and leaves the registry empty, so that
    /// they can be changed while the registry itself stays valid.
    fn take_bindings(&mut self) -> (bindings: Vec<CastBinding<W>>)
        ensures
            bindings == old(self).bindings,
            final(self).bindings@.len() == 0,
    {
        let mut bindings = Vec::new();
        std::mem::swap(&mut bindings, &mut self.bindings);
        bindings
    }

    /// The place of the binding of the session that goes by `handle`.
    fn position(&self, handle: &str) -> (at: Option<usize>)
        ensures
            distinct_handles(binding_views(self.bindings@)),
            filed_by_handle(self@),
            match at {
                Some(i) => i < self.bindings.len() && self.bindings[i as int]@.session_handle
                    == handle@ && self@.contains_key(handle@) && self@[handle@]
                    == self.bindings[i as int]@,
                None => !self@.contains_key(handle@),
            },
    {
        proof {
            use_type_invariant(self);
            lemma_entry_map_is_filed(binding_views(self.bindings@));
        }
        // Equality is specified for owned strings, not for slices.
        let owned = handle.to_owned();
        let ghost views = binding_views(self.bindings@);
        let mut i: usize = 0;
        while i < self.bindings.len()
            invariant
                owned@ == handle@,
                i <= self.bindings.len(),
                views == binding_views(self.bindings@),
                distinct_handles(views),
                filed_by_handle(entry_map(views)),
                forall|j: int| 0 <= j < i ==> (#[trigger] views[j]).session_handle != handle@,
            decreases self.bindings.len() - i,
        {
            if self.bindings[i].session_handle == owned {
                proof {
                    lemma_handle_names_place(views, handle@, i as int);
                }
                return Some(i);
            }
            i += 1;
        }
        None
    }

    /// The binding of the session that goes by `handle`.
    pub fn find_by_handle(&self, handle: &str) -> (found: Option<&CastBinding<W>>)
        ensures
            match found {
                Some(binding) => self@.contains_key(handle@) && binding@ == self@[handle@]
                    && binding@.session_handle == handle@,
                None => !self@.contains_key(handle@),
            },
    {
        match self.position(handle) {
            Some(i) => Some(&self.bindings[i]),
            None => None,
        }
    }

    /// Binds a worker to a session that has none. The caller has looked the
    /// handle up with `find_by_handle` and found nothing, and has not let go of
    /// the registry since.
    pub fn insert(&mut self, binding: CastBinding<W>)
        requires
            !old(self)@.contains_key(binding@.session_handle),
        ensures
            filed_by_handle(final(self)@),
            final(self)@ == old(self)@.insert(binding@.session_handle, binding@),
    {
        proof {
            use_type_invariant(&*self);
        }
        let ghost before = binding_views(self.bindings@);
        let mut bindings = self.take_bindings();
        bindings.push(binding);
        proof {
            assert(binding_views(bindings@) == before.push(binding@));
            lemma_entry_map_push(before, binding@);
            lemma_entry_map_is_filed(binding_views(bindings@));
        }
        self.bindings = bindings;
    }

    /// Takes the binding of the session that goes by `handle` out of the
    /// registry and hands it over. From then on nobody finds the worker here;
    /// it is the caller's to stop.
    pub fn remove(&mut self, handle: &str) -> (removed: Option<CastBinding<W>>)
        ensures
            filed_by_handle(final(self)@),
            final(self)@ == old(self)@.remove(handle@),
            match removed {
                Some(binding) => old(self)@.contains_key(handle@) && binding@
                    == old(self)@[handle@],
                None => !old(self)@.contains_key(handle@),
            },
    {
        match self.position(handle) {
            Some(i) => {
                let ghost before = binding_views(self.bindings@);
                let mut bindings = self.take_bindings();
                let binding = bindings.remove(i);
                proof {
                    assert(binding_views(bindings@) == before.remove(i as int));
                    lemma_entry_map_remove(before, i as int);
                    lemma_entry_map_is_filed(binding_views(bindings@));
                }
                self.bindings = bindings;
                Some(binding)
            },
            None => None,
        }
    }
}

/// Records a cast that was just started. A session has one cast at most: if
/// the session of `session` is served already, nothing is recorded and
/// `session` comes back, so that its worker can be stopped.
pub fn append_cast_session<W>(casts: &mut CastRegistry<W>, session: CastBinding<W>) -> (refused:
    Option<CastBinding<W>>)
    ensures
        filed_by_handle(final(casts)@),
        old(casts)@.contains_key(session@.session_handle) ==> refused == Some(session)
            && final(casts)@ == old(casts)@,
        !old(casts)@.contains_key(session@.session_handle) ==> refused is None && final(casts)@
            == old(casts)@.insert(session@.session_handle, session@),
{
    if casts.position(session.session_handle.as_str()).is_some() {
        Some(session)
    } else {
        casts.insert(session);
        None
    }
}

/// Ends the cast of the session that goes by `path`, if it has one. The
/// binding leaves the registry first and is then handed to the caller, who
/// stops its worker before going on; a session without a cast yields nothing
/// to stop.
pub fn remove_cast_session<W>(casts: &mut CastRegistry<W>, path: &str) -> (ended: Option<
    CastBinding<W>,
>)
    ensures
        filed_by_handle(final(casts)@),
        final(casts)@ == old(casts)@.remove(path@),
        match ended {
            Some(binding) => old(casts)@.contains_key(path@) && binding@ == old(casts)@[path@],
            None => !old(casts)@.contains_key(path@),
        },
{
    casts.remove(path)
}

} // verus!
