//! The registry of live sessions, keyed by their ids.
use vstd::prelude::*;
use crate::pty::{
    dir_view, fresh_session, kind_of, shell_program, ErrorKind, SessionView, TerminalError,
    TerminalSession,
};

verus! {

/// Manages multiple terminal sessions. Membership here is what makes a
/// session alive.
pub struct TerminalManager {
    ids: Vec<String>,
    sessions: Vec<TerminalSession>,
}

/// The ids of `ids`, as character sequences.
pub open spec fn id_seq(ids: Seq<String>) -> Seq<Seq<char>> {
    ids.map_values(|s: String| s@)
}

impl TerminalManager {
    pub closed spec fn keys(&self) -> Seq<Seq<char>> {
        id_seq(self.ids@)
    }

    /// The ids are unique and each has its session.
    pub closed spec fn wf(&self) -> bool {
        &&& self.ids@.len() == self.sessions@.len()
        &&& self.keys().no_duplicates()
    }

    /// The live sessions, by id.
    pub closed spec fn view(&self) -> Map<Seq<char>, SessionView> {
        Map::new(
            |k: Seq<char>| self.keys().contains(k),
            |k: Seq<char>| self.sessions@[self.keys().index_of(k)]@,
        )
    }

    proof fn lemma_view_at(&self, i: int)
        requires
            self.wf(),
            0 <= i < self.ids@.len(),
        ensures
            self.view().contains_key(self.ids@[i]@),
            self.view()[self.ids@[i]@] == self.sessions@[i]@,
    {
        let k = self.ids@[i]@;
        assert(self.keys()[i] == k);
        assert(self.keys().contains(k));
        let j = self.keys().index_of(k);
        assert(self.keys()[j] == k);
        assert(i == j);
    }

    /// Create a new terminal manager
    pub fn new() -> (r: Self)
        ensures
            r.wf(),
            r.view() == Map::<Seq<char>, SessionView>::empty(),
    {
        let r = TerminalManager { ids: Vec::new(), sessions: Vec::new() };
        assert(r.view() =~= Map::<Seq<char>, SessionView>::empty());
        r
    }

    /// The position of `id`, if it is registered.
    fn find(&self, id: &String) -> (r: Option<usize>)
        requires
            self.wf(),
        ensures
            r matches Some(i) ==> i < self.ids@.len() && self.ids@[i as int]@ == id@,
            r is None ==> !self.view().contains_key(id@),
    {
        let mut i: usize = 0;
        while i < self.ids.len()
            invariant
                self.wf(),
                i <= self.ids@.len(),
                forall|j: int| 0 <= j < i ==> self.ids@[j]@ != id@,
            decreases self.ids@.len() - i,
        {
            if self.ids[i] == *id {
                return Some(i);
            }
            i = i + 1;
        }
        proof {
            if self.keys().contains(id@) {
                let j = choose|j: int| 0 <= j < self.keys().len() && self.keys()[j] == id@;
                assert(self.ids@[j]@ == id@);
            }
        }
        None
    }

    /// Whether a session with this id is registered.
    pub fn contains_session(&self, id: &String) -> (r: bool)
        requires
            self.wf(),
        ensures
            r == self.view().contains_key(id@),
    {
        match self.find(id) {
            Some(i) => {
                proof {
                    self.lemma_view_at(i as int);
                }
                true
            },
            None => false,
        }
    }

    /// Registers `session` under `id`, unless the id is taken.
    pub fn insert_session(&mut self, id: String, session: TerminalSession) -> (r: Result<
        (),
        TerminalError,
    >)
        requires
            old(self).wf(),
        ensures
            final(self).wf(),
            old(self).view().contains_key(id@) ==> (r matches Err(TerminalError::AlreadyExists(e))
                && e@ == id@),
            old(self).view().contains_key(id@) ==> final(self).view() == old(self).view(),
            !old(self).view().contains_key(id@) ==> r is Ok && final(self).view() == old(
                self,
            ).view().insert(id@, session@),
    {
        if self.contains_session(&id) {
            return Err(TerminalError::AlreadyExists(id));
        }
        let ghost old_self = *self;
        let ghost k = id@;
        let ghost v = session@;
        self.ids.push(id);
        self.sessions.push(session);
        proof {
            assert(self.keys() =~= old_self.keys().push(k));
            assert forall|a: int, b: int|
                0 <= a < self.keys().len() && 0 <= b < self.keys().len() && a != b implies self.keys()[a]
                != self.keys()[b] by {
                if a == old_self.keys().len() {
                    assert(old_self.keys()[b] == old_self.ids@[b]@);
                } else if b == old_self.keys().len() {
                    assert(old_self.keys()[a] == old_self.ids@[a]@);
                }
            }
            let n = old_self.ids@.len() as int;
            assert forall|key: Seq<char>|
                #![auto]
                self.view().contains_key(key) == old_self.view().insert(k, v).contains_key(key) by {
                if old_self.keys().contains(key) {
                    let j = choose|j: int| 0 <= j < old_self.keys().len() && old_self.keys()[j] == key;
                    assert(self.keys()[j] == key);
                }
                if key == k {
                    assert(self.keys()[n] == k);
                }
                if self.keys().contains(key) {
                    let j = choose|j: int| 0 <= j < self.keys().len() && self.keys()[j] == key;
                    if j < n {
                        assert(old_self.keys()[j] == key);
                    }
                }
            }
            assert forall|key: Seq<char>|
                self.view().contains_key(key) implies #[trigger] self.view()[key] == old_self.view().insert(
                k,
                v,
            )[key] by {
                let j = choose|j: int| 0 <= j < self.keys().len() && self.keys()[j] == key;
                self.lemma_view_at(j);
                if j < n {
                    old_self.lemma_view_at(j);
                } else {
                    assert(key == k);
                }
            }
            assert(self.view() =~= old_self.view().insert(k, v));
        }
        Ok(())
    }

    /// Create a new terminal session with the given ID
    pub fn create_session(
        &mut self,
        id: String,
        shell: Option<String>,
        cwd: Option<String>,
        default_shell: String,
    ) -> (r: Result<(), TerminalError>)
        requires
            old(self).wf(),
        ensures
            final(self).wf(),
            old(self).view().contains_key(id@) ==> (r matches Err(TerminalError::AlreadyExists(e))
                && e@ == id@),
            r is Ok ==> final(self).view() == old(self).view().insert(
                id@,
                fresh_session(shell_program(shell, default_shell@), dir_view(cwd)),
            ),
            r is Err ==> final(self).view() == old(self).view(),
            r is Err && !old(self).view().contains_key(id@) ==> kind_of(r->Err_0)
                == ErrorKind::Spawn,
    {
        if self.contains_session(&id) {
            return Err(TerminalError::AlreadyExists(id));
        }
        let session = TerminalSession::new(shell, cwd, default_shell)?;
        self.insert_session(id, session)
    }

    /// Get an immutable reference to a terminal session
    pub fn get_session(&self, id: &String) -> (r: Option<&TerminalSession>)
        requires
            self.wf(),
        ensures
            r matches Some(s) ==> self.view().contains_key(id@) && s@ == self.view()[id@],
            r is None ==> !self.view().contains_key(id@),
    {
        match self.find(id) {
            Some(i) => {
                proof {
                    self.lemma_view_at(i as int);
                }
                Some(&self.sessions[i])
            },
            None => None,
        }
    }

    /// Get a mutable reference to a terminal session
    pub fn get_session_mut(&mut self, id: &String) -> (r: Option<&mut TerminalSession>)
        requires
            old(self).wf(),
        ensures
            final(self).wf(),
            r is None ==> !old(self).view().contains_key(id@) && final(self).view() == old(
                self,
            ).view(),
            r matches Some(s) ==> old(self).view().contains_key(id@),
            r matches Some(s) ==> (*s)@ == old(self).view()[id@],
            r matches Some(s) ==> final(self).view() == old(self).view().insert(id@, (*final(s))@),
    {
        match self.find(id) {
            Some(i) => {
                proof {
                    self.lemma_view_at(i as int);
                    self.lemma_update_keeps(i as int);
                }
                Some(&mut self.sessions[i])
            },
            None => None,
        }
    }

    /// Remove and return a terminal session
    pub fn remove_session(&mut self, id: &String) -> (r: Option<TerminalSession>)
        requires
            old(self).wf(),
        ensures
            final(self).wf(),
            r is None ==> !old(self).view().contains_key(id@) && final(self).view() == old(
                self,
            ).view(),
            r matches Some(s) ==> old(self).view().contains_key(id@) && s@ == old(self).view()[id@]
                && final(self).view() == old(self).view().remove(id@),
    {
        match self.find(id) {
            Some(i) => {
                proof {
                    self.lemma_view_at(i as int);
                }
                let ghost old_self = *self;
                let ghost k = id@;
                let _ = self.ids.remove(i);
                let s = self.sessions.remove(i);
                proof {
                    assert(self.keys() =~= old_self.keys().remove(i as int));
                    old_self.lemma_remove_keeps(i as int, *self);
                }
                Some(s)
            },
            None => None,
        }
    }

    proof fn lemma_update_keeps(&self, i: int)
        requires
            self.wf(),
            0 <= i < self.ids@.len(),
        ensures
            forall|after: Self|
                #![trigger after.wf()]
                #![trigger after.view()]
                after.ids == self.ids && after.sessions@ == self.sessions@.update(
                    i,
                    after.sessions@[i],
                ) ==> after.wf() && after.view() == self.view().insert(
                    self.ids@[i]@,
                    after.sessions@[i]@,
                ),
    {
        assert forall|after: Self|
            after.ids == self.ids && after.sessions@ == self.sessions@.update(
                i,
                after.sessions@[i],
            ) implies after.wf() && after.view() == self.view().insert(
            self.ids@[i]@,
            after.sessions@[i]@,
        ) by {
            let k = self.ids@[i]@;
            assert(after.keys() == self.keys());
            assert(after.wf());
            assert forall|key: Seq<char>|
                after.view().contains_key(key) implies #[trigger] after.view()[key]
                == self.view().insert(k, after.sessions@[i]@)[key] by {
                let j = choose|j: int| 0 <= j < after.keys().len() && after.keys()[j] == key;
                after.lemma_view_at(j);
                self.lemma_view_at(j);
                self.lemma_view_at(i);
                if j != i {
                    assert(self.keys()[i] != self.keys()[j]);
                }
            }
            self.lemma_view_at(i);
            assert(after.view() =~= self.view().insert(k, after.sessions@[i]@));
        }
    }

    proof fn lemma_remove_keeps(&self, i: int, after: Self)
        requires
            self.wf(),
            0 <= i < self.ids@.len(),
            after.ids@ == self.ids@.remove(i),
            after.sessions@ == self.sessions@.remove(i),
        ensures
            after.wf(),
            after.view() == self.view().remove(self.ids@[i]@),
    {
        let k = self.ids@[i]@;
        let n = self.ids@.len() as int;
        assert(after.keys() =~= self.keys().remove(i));
        assert forall|a: int, b: int|
            0 <= a < after.keys().len() && 0 <= b < after.keys().len() && a != b implies after.keys()[a]
            != after.keys()[b] by {
            let a1 = if a < i { a } else { a + 1 };
            let b1 = if b < i { b } else { b + 1 };
            assert(after.keys()[a] == self.keys()[a1]);
            assert(after.keys()[b] == self.keys()[b1]);
        }
        assert forall|key: Seq<char>|
            #![auto]
            after.view().contains_key(key) == self.view().remove(k).contains_key(key) by {
            if after.keys().contains(key) {
                let j = choose|j: int| 0 <= j < after.keys().len() && after.keys()[j] == key;
                let j1 = if j < i { j } else { j + 1 };
                assert(self.keys()[j1] == key);
                assert(self.keys()[i] == k);
            }
            if self.keys().contains(key) && key != k {
                let j = choose|j: int| 0 <= j < self.keys().len() && self.keys()[j] == key;
                assert(j != i);
                let j1 = if j < i { j } else { j - 1 };
                assert(after.keys()[j1] == key);
            }
        }
        assert forall|key: Seq<char>|
            after.view().contains_key(key) implies #[trigger] after.view()[key] == self.view().remove(
            k,
        )[key] by {
            let j = choose|j: int| 0 <= j < after.keys().len() && after.keys()[j] == key;
            after.lemma_view_at(j);
            let j1 = if j < i { j } else { j + 1 };
            self.lemma_view_at(j1);
        }
        assert(after.view() =~= self.view().remove(k));
    }
}

} // verus!
