//! The session store: for each user the question that is open, if any, and
//! the running score.

use crate::puzzle::{Puzzle, PuzzleView};
use crate::stats::Stats;
use std::collections::HashMap;
use vstd::prelude::*;

verus! {

broadcast use vstd::std_specs::hash::group_hash_axioms;

/// What a session holds, as plain values.
pub struct SessionView {
    pub open_puzzle: Option<PuzzleView>,
    pub correct: nat,
    pub total: nat,
}

impl SessionView {
    /// The session of a user who has not been seen yet: no open question and
    /// a score of zero.
    pub open spec fn fresh() -> SessionView {
        SessionView { open_puzzle: None, correct: 0, total: 0 }
    }

    /// The score counts no more correct answers than answers, and an open
    /// question is a valid one.
    pub open spec fn wf(self) -> bool {
        &&& self.correct <= self.total
        &&& self.open_puzzle matches Some(puzzle) ==> puzzle.wf()
    }

    /// The session with `puzzle` as its open question, in place of any other.
    pub open spec fn opened(self, puzzle: PuzzleView) -> SessionView {
        SessionView { open_puzzle: Some(puzzle), ..self }
    }

    /// The session without an open question.
    pub open spec fn closed(self) -> SessionView {
        SessionView { open_puzzle: None, ..self }
    }

    /// The session with one more answer counted, as a correct one if
    /// `correct`.
    pub open spec fn answered(self, correct: bool) -> SessionView {
        SessionView {
            correct: if correct {
                self.correct + 1
            } else {
                self.correct
            },
            total: self.total + 1,
            ..self
        }
    }

    /// The session with a score of zero; its open question stays.
    pub open spec fn zeroed(self) -> SessionView {
        SessionView { correct: 0, total: 0, ..self }
    }
}

/// The state of the conversation with one user.
#[derive(Debug, Clone)]
pub struct Session {
    pub open_puzzle: Option<Puzzle>,
    pub score: Stats,
}

impl View for Session {
    type V = SessionView;

    open spec fn view(&self) -> SessionView {
        SessionView {
            open_puzzle: match self.open_puzzle {
                Some(puzzle) => Some(puzzle@),
                None => None,
            },
            correct: self.score.correct(),
            total: self.score.total(),
        }
    }
}

impl Session {
    /// The session of a user who has not been seen yet.
    pub fn new() -> (session: Session)
        ensures
            session@ == SessionView::fresh(),
    {
        Session { open_puzzle: None, score: Stats::new() }
    }

    /// A copy of the session.
    pub fn duplicate(&self) -> (copy: Session)
        ensures
            copy@ == self@,
    {
        let open_puzzle = match &self.open_puzzle {
            Some(puzzle) => Some(puzzle.duplicate()),
            None => None,
        };
        Session { open_puzzle, score: self.score }
    }
}

/// The sessions of all users seen so far, by user id.
pub struct SessionStore {
    sessions: HashMap<i64, Session>,
}

impl View for SessionStore {
    type V = Map<i64, SessionView>;

    closed spec fn view(&self) -> Map<i64, SessionView> {
        Map::new(
            |user: i64| self.sessions@.contains_key(user),
            |user: i64| self.sessions@[user]@,
        )
    }
}

impl SessionStore {
    /// Every session in the store is well formed.
    pub open spec fn wf(&self) -> bool {
        forall|user: i64| self@.contains_key(user) ==> (#[trigger] self@[user]).wf()
    }

    /// The session of `user`: the stored one, or a fresh one for a user who
    /// has not been seen yet.
    pub open spec fn session(&self, user: i64) -> SessionView {
        if self@.contains_key(user) {
            self@[user]
        } else {
            SessionView::fresh()
        }
    }

    /// A store without sessions.
    pub fn new() -> (store: SessionStore)
        ensures
            store@ == Map::<i64, SessionView>::empty(),
            store.wf(),
    {
        let store = SessionStore { sessions: HashMap::new() };
        store
    }

    /// Whether `user` has a session in the store.
    pub fn contains(&self, user: i64) -> (known: bool)
        ensures
            known == self@.contains_key(user),
    {
        self.sessions.contains_key(&user)
    }

    /// Takes the session of `user` out of the store, a fresh one if there is
    /// none.
    fn take(&mut self, user: i64) -> (session: Session)
        ensures
            session@ == old(self).session(user),
            final(self)@ == old(self)@.remove(user),
    {
        let found = self.sessions.remove(&user);
        match found {
            Some(session) => session,
            None => Session::new(),
        }
    }

    /// Puts `session` into the store as the session of `user`.
    fn put(&mut self, user: i64, session: Session)
        ensures
            final(self)@ == old(self)@.insert(user, session@),
    {
        self.sessions.insert(user, session);
    }

    /// The session of `user`, which is created if the user has none yet.
    pub fn get_or_create(&mut self, user: i64) -> (session: Session)
        requires
            old(self).wf(),
        ensures
            session@ == old(self).session(user),
            final(self)@ == old(self)@.insert(user, old(self).session(user)),
            final(self).wf(),
    {
        let session = self.take(user);
        let copy = session.duplicate();
        self.put(user, session);
        copy
    }

    /// Makes `puzzle` the open question of `user`, in place of any other.
    pub fn set_open_puzzle(&mut self, user: i64, puzzle: Puzzle)
        requires
            old(self).wf(),
            puzzle@.wf(),
        ensures
            final(self)@ == old(self)@.insert(user, old(self).session(user).opened(puzzle@)),
            final(self).wf(),
    {
        let mut session = self.take(user);
        session.open_puzzle = Some(puzzle);
        self.put(user, session);
    }

    /// Leaves `user` without an open question.
    pub fn clear_open_puzzle(&mut self, user: i64)
        requires
            old(self).wf(),
        ensures
            final(self)@ == old(self)@.insert(user, old(self).session(user).closed()),
            final(self).wf(),
    {
        let mut session = self.take(user);
        session.open_puzzle = None;
        self.put(user, session);
    }

    /// Counts one more answer of `user`, as a correct one if `correct`.
    pub fn record_answer(&mut self, user: i64, correct: bool)
        requires
            old(self).wf(),
            old(self).session(user).total < u32::MAX,
        ensures
            final(self)@ == old(self)@.insert(user, old(self).session(user).answered(correct)),
            final(self).wf(),
    {
        let mut session = self.take(user);
        if correct {
            session.score.add_correct();
        } else {
            session.score.add_wrong();
        }
        self.put(user, session);
    }

    /// Sets the score of `user` back to zero; an open question stays.
    pub fn reset_score(&mut self, user: i64)
        requires
            old(self).wf(),
        ensures
            final(self)@ == old(self)@.insert(user, old(self).session(user).zeroed()),
            final(self).wf(),
    {
        let mut session = self.take(user);
        session.score.reset();
        self.put(user, session);
    }

    /// The score of `user`.
    pub fn stats(&self, user: i64) -> (score: Stats)
        requires
            self.wf(),
        ensures
            score.correct() == self.session(user).correct,
            score.total() == self.session(user).total,
            score.wf(),
    {
        match self.sessions.get(&user) {
            Some(session) => {
                session.score
            },
            None => Stats::new(),
        }
    }

    /// The open question of `user`, if there is one.
    pub fn open_puzzle(&self, user: i64) -> (open: Option<&Puzzle>)
        ensures
            match open {
                Some(puzzle) => self.session(user).open_puzzle == Some(puzzle@),
                None => self.session(user).open_puzzle is None,
            },
    {
        match self.sessions.get(&user) {
            Some(session) => {
                match &session.open_puzzle {
                    Some(puzzle) => Some(puzzle),
                    None => None,
                }
            },
            None => None,
        }
    }
}

} // verus!
