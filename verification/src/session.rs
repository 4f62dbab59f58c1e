//! Sessions and the registry that holds the live ones.

use crate::flags::{CursorMode, CursorModes, PersistMode, SessionType, SourceType, SourceTypes};
use crate::handles::{
    distinct_handles, entry_map, filed_by_handle, lemma_entry_map_is_filed,
    lemma_entry_map_push, lemma_entry_map_remove, lemma_entry_map_update,
    lemma_handle_names_place, Handled,
};
use vstd::prelude::*;

verus! {

/// What a client may ask for when it selects its sources. A field that is
/// `None` leaves the session's current choice as it is.
#[derive(Debug, PartialEq, Eq)]
pub struct SelectSourcesOptions {
    /// What kinds of content to record.
    pub types: Option<SourceTypes>,
    /// Whether more than one source may be selected.
    pub multiple: Option<bool>,
    /// How the pointer is treated in the stream.
    pub cursor_mode: Option<CursorModes>,
    pub restore_token: Option<String>,
    pub persist_mode: Option<PersistMode>,
}

/// The mathematical value of a `SelectSourcesOptions`.
pub struct SelectSourcesOptionsView {
    pub types: Option<SourceTypes>,
    pub multiple: Option<bool>,
    pub cursor_mode: Option<CursorModes>,
    pub restore_token: Option<Seq<char>>,
    pub persist_mode: Option<PersistMode>,
}

impl View for SelectSourcesOptions {
    type V = SelectSourcesOptionsView;

    open spec fn view(&self) -> SelectSourcesOptionsView {
        SelectSourcesOptionsView {
            types: self.types,
            multiple: self.multiple,
            cursor_mode: self.cursor_mode,
            restore_token: self.restore_token.deep_view(),
            persist_mode: self.persist_mode,
        }
    }
}

impl Default for SelectSourcesOptions {
    /// Options that change nothing.
    fn default() -> (options: SelectSourcesOptions)
        ensures
            options@ == (SelectSourcesOptionsView {
                types: None,
                multiple: None,
                cursor_mode: None,
                restore_token: None,
                persist_mode: None,
            }),
    {
        SelectSourcesOptions {
            types: None,
            multiple: None,
            cursor_mode: None,
            restore_token: None,
            persist_mode: None,
        }
    }
}

/// One negotiation between a client and the portal.
#[derive(Debug, PartialEq, Eq)]
pub struct Session {
    /// The path-like identifier that addresses the session for as long as it lives.
    pub handle_path: String,
    pub session_type: SessionType,
    pub source_type: SourceTypes,
    pub multiple: bool,
    pub cursor_mode: CursorModes,
    pub persist_mode: PersistMode,
    pub restore_token: Option<String>,
}

/// The mathematical value of a `Session`.
pub struct SessionView {
    pub handle_path: Seq<char>,
    pub session_type: SessionType,
    pub source_type: SourceTypes,
    pub multiple: bool,
    pub cursor_mode: CursorModes,
    pub persist_mode: PersistMode,
    pub restore_token: Option<Seq<char>>,
}

impl SessionView {
    /// A session as it is right after creation: it records monitors, one
    /// source at a time, with the pointer hidden, and nothing is persisted.
    pub open spec fn fresh(handle_path: Seq<char>, session_type: SessionType) -> SessionView {
        SessionView {
            handle_path,
            session_type,
            source_type: SourceTypes { monitor: true, window: false, virtual_source: false },
            multiple: false,
            cursor_mode: CursorModes { hidden: true, embedded: false, metadata: false },
            persist_mode: PersistMode::DoNotPersist,
            restore_token: None,
        }
    }

    /// This session after a source selection: every choice the options make
    /// replaces the session's own, the others stay. Handle and session type
    /// are never touched.
    pub open spec fn select(self, options: SelectSourcesOptionsView) -> SessionView {
        SessionView {
            handle_path: self.handle_path,
            session_type: self.session_type,
            source_type: match options.types {
                Some(types) => types,
                None => self.source_type,
            },
            multiple: match options.multiple {
                Some(multiple) => multiple,
                None => self.multiple,
            },
            cursor_mode: match options.cursor_mode {
                Some(cursor_mode) => cursor_mode,
                None => self.cursor_mode,
            },
            persist_mode: match options.persist_mode {
                Some(persist_mode) => persist_mode,
                None => self.persist_mode,
            },
            restore_token: match options.restore_token {
                Some(token) => Some(token),
                None => self.restore_token,
            },
        }
    }
}

impl View for Session {
    type V = SessionView;

    open spec fn view(&self) -> SessionView {
        SessionView {
            handle_path: self.handle_path@,
            session_type: self.session_type,
            source_type: self.source_type,
            multiple: self.multiple,
            cursor_mode: self.cursor_mode,
            persist_mode: self.persist_mode,
            restore_token: self.restore_token.deep_view(),
        }
    }
}

impl Clone for Session {
    fn clone(&self) -> (copy: Session)
        ensures
            copy@ == self@,
    {
        Session {
            handle_path: self.handle_path.clone(),
            session_type: self.session_type,
            source_type: self.source_type,
            multiple: self.multiple,
            cursor_mode: self.cursor_mode,
            persist_mode: self.persist_mode,
            restore_token: match &self.restore_token {
                Some(token) => Some(token.clone()),
                None => None,
            },
        }
    }
}

impl Session {
    /// A session with the given handle and type and the default preferences.
    pub fn new(handle_path: String, session_type: SessionType) -> (session: Session)
        ensures
            session@ == SessionView::fresh(handle_path@, session_type),
    {
        Session {
            handle_path,
            session_type,
            source_type: SourceTypes::from_flag(SourceType::Monitor),
            multiple: false,
            cursor_mode: CursorModes::from_flag(CursorMode::Hidden),
            persist_mode: PersistMode::DoNotPersist,
            restore_token: None,
        }
    }

    /// Takes over what the client selected. The session stays the one it
    /// was: handle and type are as before.
    pub fn set_screencast_options(&mut self, options: SelectSourcesOptions)
        ensures
            final(self)@ == old(self)@.select(options@),
            final(self)@.handle_path == old(self)@.handle_path,
            final(self)@.session_type == old(self)@.session_type,
    {
        let SelectSourcesOptions { types, multiple, cursor_mode, restore_token, persist_mode } =
            options;
        self.source_type = match types {
            Some(types) => types,
            None => self.source_type,
        };
        self.multiple = match multiple {
            Some(multiple) => multiple,
            None => self.multiple,
        };
        self.cursor_mode = match cursor_mode {
            Some(cursor_mode) => cursor_mode,
            None => self.cursor_mode,
        };
        self.persist_mode = match persist_mode {
            Some(persist_mode) => persist_mode,
            None => self.persist_mode,
        };
        if restore_token.is_some() {
            self.restore_token = restore_token;
        }
    }
}

impl Handled for SessionView {
    open spec fn handle(&self) -> Seq<char> {
        self.handle_path
    }
}

/// The sessions after a source selection for `handle`: the session that goes
/// by the handle has taken the options over, the others are as before.
pub open spec fn selected(
    sessions: Map<Seq<char>, SessionView>,
    handle: Seq<char>,
    options: SelectSourcesOptionsView,
) -> Map<Seq<char>, SessionView> {
    if sessions.contains_key(handle) {
        sessions.insert(handle, sessions[handle].select(options))
    } else {
        sessions
    }
}

/// Why the registry turned an operation down.
#[derive(Clone, Copy, Debug, PartialEq, Eq, Structural)]
pub enum RegistryError {
    /// A live session already goes by the handle.
    DuplicateHandle,
    /// No live session goes by the handle.
    UnknownHandle,
}

/// The live sessions. No two of them ever share a handle: the registry is a
/// map from the handles that are in use to the sessions that go by them.
pub struct SessionRegistry {
    /// The sessions in the order in which they were created.
    sessions: Vec<Session>,
}

/// The values of the stored sessions, one for one.
pub open spec fn session_views(sessions: Seq<Session>) -> Seq<SessionView> {
    Seq::new(sessions.len(), |i: int| sessions[i]@)
}

impl View for SessionRegistry {
    type V = Map<Seq<char>, SessionView>;

    closed spec fn view(&self) -> Map<Seq<char>, SessionView> {
        entry_map(session_views(self.sessions@))
    }
}

impl SessionRegistry {
    /// What every registry fulfils at every moment: no two of the stored
    /// sessions carry the same handle.
    #[verifier::type_invariant]
    pub closed spec fn handles_are_distinct(&self) -> bool {
        distinct_handles(session_views(self.sessions@))
    }

    /// What that means for the map: it is finite, and every session is filed
    /// under the handle that it carries.
    pub proof fn lemma_handles_are_distinct(&self)
        requires
            self.handles_are_distinct(),
        ensures
            filed_by_handle(self@),
    {
        lemma_entry_map_is_filed(session_views(self.sessions@));
    }

    /// A registry without sessions.
    pub fn new() -> (registry: SessionRegistry)
        ensures
            registry@ == Map::<Seq<char>, SessionView>::empty(),
    {
        SessionRegistry { sessions: Vec::new() }
    }

    /// How many sessions are live. There are as many as there are handles in
    /// use, and each session is filed under the handle that it carries.
    pub fn len(&self) -> (n: usize)
        ensures
            n == self@.len(),
            filed_by_handle(self@),
    {
        proof {
            use_type_invariant(self);
            lemma_entry_map_is_filed(session_views(self.sessions@));
        }
        self.sessions.len()
    }

    /// Hands out the stored sessions and leaves the registry empty, so that
    /// they can be changed while the registry itself stays valid.
    fn take_sessions(&mut self) -> (sessions: Vec<Session>)
        ensures
            sessions == old(self).sessions,
            final(self).sessions@.len() == 0,
    {
        let mut sessions = Vec::new();
        std::mem::swap(&mut sessions, &mut self.sessions);
        sessions
    }

    /// The place of the session that goes by `handle`.
    fn position(&self, handle: &str) -> (at: Option<usize>)
        ensures
            distinct_handles(session_views(self.sessions@)),
            filed_by_handle(self@),
            match at {
                Some(i) => i < self.sessions.len() && self.sessions[i as int]@.handle_path
                    == handle@ && self@.contains_key(handle@) && self@[handle@]
                    == self.sessions[i as int]@,
                None => !self@.contains_key(handle@),
            },
    {
        proof {
            use_type_invariant(self);
            lemma_entry_map_is_filed(session_views(self.sessions@));
        }
        // Equality is specified for owned strings, not for slices.
        let owned = handle.to_owned();
        let ghost views = session_views(self.sessions@);
        let mut i: usize = 0;
        while i < self.sessions.len()
            invariant
                owned@ == handle@,
                i <= self.sessions.len(),
                views == session_views(self.sessions@),
                distinct_handles(views),
                filed_by_handle(entry_map(views)),
                forall|j: int| 0 <= j < i ==> (#[trigger] views[j]).handle_path != handle@,
            decreases self.sessions.len() - i,
        {
            if self.sessions[i].handle_path == owned {
                proof {
                    lemma_handle_names_place(views, handle@, i as int);
                }
                return Some(i);
            }
            i += 1;
        }
        None
    }

    /// Whether a live session goes by `handle`.
    pub fn contains(&self, handle: &str) -> (present: bool)
        ensures
            present == self@.contains_key(handle@),
    {
        self.position(handle).is_some()
    }

    /// Files `session`, unless a live session already goes by its handle:
    /// then the registry stays as it is and the call fails.
    pub fn insert(&mut self, session: Session) -> (done: Result<(), RegistryError>)
        ensures
            filed_by_handle(final(self)@),
            old(self)@.contains_key(session@.handle_path) ==> done == Err::<(), RegistryError>(
                RegistryError::DuplicateHandle,
            ) && final(self)@ == old(self)@,
            !old(self)@.contains_key(session@.handle_path) ==> done == Ok::<(), RegistryError>(())
                && final(self)@ == old(self)@.insert(session@.handle_path, session@),
    {
        match self.position(session.handle_path.as_str()) {
            Some(_) => Err(RegistryError::DuplicateHandle),
            None => {
                let ghost before = session_views(self.sessions@);
                let mut sessions = self.take_sessions();
                sessions.push(session);
                proof {
                    assert(session_views(sessions@) == before.push(session@));
                    lemma_entry_map_push(before, session@);
                    lemma_entry_map_is_filed(session_views(sessions@));
                }
                self.sessions = sessions;
                Ok(())
            },
        }
    }

    /// A copy of the session that goes by `handle`. Changing the copy changes
    /// nothing in the registry: that is what `update` is for.
    pub fn find(&self, handle: &str) -> (found: Option<Session>)
        ensures
            match found {
                Some(session) => self@.contains_key(handle@) && session@ == self@[handle@]
                    && session@.handle_path == handle@,
                None => !self@.contains_key(handle@),
            },
    {
        match self.position(handle) {
            Some(i) => Some(self.sessions[i].clone()),
            None => None,
        }
    }

    /// Applies a source selection to the session that goes by `handle`. If
    /// there is no such session the registry stays as it is and the call
    /// fails.
    pub fn update(&mut self, handle: &str, options: SelectSourcesOptions) -> (done: Result<
        (),
        RegistryError,
    >)
        ensures
            filed_by_handle(final(self)@),
            final(self)@ == selected(old(self)@, handle@, options@),
            done == if old(self)@.contains_key(handle@) {
                Ok::<(), RegistryError>(())
            } else {
                Err::<(), RegistryError>(RegistryError::UnknownHandle)
            },
    {
        match self.position(handle) {
            Some(i) => {
                let ghost before = session_views(self.sessions@);
                let mut session = self.sessions[i].clone();
                session.set_screencast_options(options);
                let mut sessions = self.take_sessions();
                sessions.set(i, session);
                proof {
                    assert(session_views(sessions@) == before.update(i as int, session@));
                    lemma_entry_map_update(before, i as int, session@);
                    lemma_entry_map_is_filed(session_views(sessions@));
                }
                self.sessions = sessions;
                Ok(())
            },
            None => Err(RegistryError::UnknownHandle),
        }
    }

    /// Takes the session that goes by `handle` out of the registry and hands
    /// it over.
    pub fn remove(&mut self, handle: &str) -> (removed: Option<Session>)
        ensures
            filed_by_handle(final(self)@),
            final(self)@ == old(self)@.remove(handle@),
            match removed {
                Some(session) => old(self)@.contains_key(handle@) && session@
                    == old(self)@[handle@],
                None => !old(self)@.contains_key(handle@),
            },
    {
        match self.position(handle) {
            Some(i) => {
                let ghost before = session_views(self.sessions@);
                let mut sessions = self.take_sessions();
                let session = sessions.remove(i);
                proof {
                    assert(session_views(sessions@) == before.remove(i as int));
                    lemma_entry_map_remove(before, i as int);
                    lemma_entry_map_is_filed(session_views(sessions@));
                }
                self.sessions = sessions;
                Some(session)
            },
            None => None,
        }
    }
}

} // verus!
