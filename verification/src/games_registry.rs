//! The games registry: which match actors are alive, and the orderly
//! shutdown that drains them.

use vstd::prelude::*;
use crate::roster::Roster;

verus! {

/// Mailbox of the games registry.
pub enum GamesMessage {
    GetChannel { id: String },
    InsertGame { id: String },
    RemoveGame { id: String },
    GetGame(String),
    SaveState,
}

/// Answer to a match actor going away.
pub struct RemoveOutcome {
    /// Live matches left after the removal.
    pub remaining: usize,
    /// Set on the last removal after a shutdown began: the process may
    /// exit.
    pub exit: bool,
}

pub struct GamesRegistry {
    /// Ids of the live matches.
    pub ids: Roster,
    /// Whether an orderly shutdown began: no new match is registered.
    pub shutdown: bool,
}

impl GamesRegistry {
    pub open spec fn wf(self) -> bool {
        self.ids.wf()
    }

    pub fn new() -> (r: GamesRegistry)
        ensures
            r.wf(),
            r.ids.spec_len() == 0,
            !r.shutdown,
    {
        GamesRegistry { ids: Roster::new(), shutdown: false }
    }

    /// Register a spawned match; refused once a shutdown began.
    /// A registration is answered by a `NewGame` note to the lobby.
    pub fn insert_game(&mut self, id: String) -> (registered: bool)
        requires
            old(self).wf(),
        ensures
            final(self).wf(),
            registered == !old(self).shutdown,
            old(self).shutdown ==> *final(self) == *old(self),
            !old(self).shutdown ==> final(self).ids.spec_contains(id@),
            final(self).shutdown == old(self).shutdown,
    {
        if self.shutdown {
            return false;
        }
        let _ = self.ids.insert(id);
        true
    }

    /// Drop a closed match. After a shutdown, the last removal lets the
    /// process exit.
    pub fn remove_game(&mut self, id: &String) -> (r: RemoveOutcome)
        requires
            old(self).wf(),
        ensures
            final(self).wf(),
            !final(self).ids.spec_contains(id@),
            r.remaining == final(self).ids.spec_len(),
            r.exit == (final(self).shutdown && final(self).ids.spec_len() == 0),
            final(self).shutdown == old(self).shutdown,
    {
        let _ = self.ids.remove(id);
        let remaining = self.ids.len();
        RemoveOutcome { remaining, exit: self.shutdown && remaining == 0 }
    }

    /// Whether a mailbox lookup for `id` can be served.
    pub fn contains_game(&self, id: &String) -> (r: bool)
        ensures
            r == self.ids.spec_contains(id@),
    {
        self.ids.contains(id)
    }

    /// Begin the orderly shutdown: every live match is told to save
    /// its state; the returned ids are theirs.
    pub fn save_state(&mut self) -> (ids: Vec<String>)
        requires
            old(self).wf(),
        ensures
            final(self).wf(),
            final(self).shutdown,
            ids@ == final(self).ids.names@,
            final(self).ids == old(self).ids,
    {
        self.shutdown = true;
        self.ids.all()
    }
}

} // verus!
