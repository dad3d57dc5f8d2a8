//! The players registry: who is connected, and targeted redirects.

use vstd::prelude::*;
use crate::messages::{MessageType, PlayersCount, RedirectPlayer};
use crate::roster::Roster;
use crate::watchers::Watchers;

verus! {

/// Mailbox of the players registry. Sinks are the runtime's handles.
pub enum PlayersMessage {
    Join { player: String, sink: u64 },
    Leave { player: String, disconnected: bool },
    Redirect { game: String, player: String },
}

pub struct PlayersState {
    pub watchers: Watchers,
    /// Names of the connected players.
    pub names: Roster,
}

impl PlayersState {
    pub open spec fn wf(self) -> bool {
        &&& self.watchers.wf()
        &&& self.names.wf()
    }

    pub fn new() -> (p: PlayersState)
        ensures
            p.wf(),
            p.names.spec_len() == 0,
            p.watchers.spec_player_count() == 0,
    {
        PlayersState { watchers: Watchers::new(), names: Roster::new() }
    }

    /// A connection joined: record the player once and broadcast the
    /// player count to everyone.
    pub fn handle_join(&mut self, player: String, sink: u64) -> (msg: PlayersCount)
        requires
            old(self).wf(),
        ensures
            final(self).wf(),
            final(self).names.spec_contains(player@),
            final(self).watchers.spec_contains(player@),
            msg.t == MessageType::PlayerCount,
            msg.count == final(self).names.spec_len(),
    {
        let _ = self.watchers.add_watcher(player.clone(), sink);
        let _ = self.names.insert(player);
        PlayersCount { count: self.names.len() as u64, t: MessageType::PlayerCount }
    }

    /// A connection left its room; a closed socket also removes the
    /// player and re-broadcasts the count.
    pub fn handle_leave(&mut self, player: &String, disconnected: bool) -> (msg: Option<
        PlayersCount,
    >)
        requires
            old(self).wf(),
        ensures
            final(self).wf(),
            !final(self).watchers.spec_contains(player@),
            disconnected ==> !final(self).names.spec_contains(player@),
            !disconnected ==> final(self).names == old(self).names,
            msg is Some <==> disconnected,
            msg matches Some(m) ==> m.t == MessageType::PlayerCount && m.count == final(self).names.spec_len(),
    {
        let _ = self.watchers.remove_watcher(player);
        if disconnected {
            let _ = self.names.remove(player);
            Some(PlayersCount { count: self.names.len() as u64, t: MessageType::PlayerCount })
        } else {
            None
        }
    }

    /// Tell one player their match is up: a targeted redirect hint.
    pub fn handle_redirect(&self, game: String, player: &String) -> (r: (RedirectPlayer, String))
        ensures
            r.0.t == MessageType::RedirectToGame,
            r.0.game == game,
            r.1@ == player@,
    {
        (RedirectPlayer { t: MessageType::RedirectToGame, game }, player.clone())
    }
}

} // verus!
