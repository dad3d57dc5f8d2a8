//! The lobby: open challenges, the playing set, and the live-game
//! count broadcast to the home room.

use vstd::prelude::*;
use crate::messages::{GamesCount, MessageType};
use crate::requests::GameRequest;
use crate::roster::Roster;
use crate::watchers::Watchers;

verus! {

/// Mailbox of the lobby. Sinks are the runtime's handles.
pub enum GameRequestMessage {
    AddGameRequest { caller: String, request: GameRequest },
    Join(String, u64),
    Leave(String),
    RedirectToGame,
    RemovePlayers([String; 2]),
    AddActivePlayer(String),
    NewGame,
}

/// One engine slot handed back when the seat was the engine's.
pub open spec fn spec_ai_release(count: u64, seat: Seq<char>) -> u64 {
    if seat == "AI"@ && count > 0 {
        (count - 1) as u64
    } else {
        count
    }
}

/// Answer to a challenge.
pub enum AddRequestOutcome {
    /// Dropped: the caller or the opponent is busy, a cap is hit, or
    /// the caller challenged themself.
    Rejected,
    /// Spawn a match actor; `friend` is the expected opponent's seat
    /// name, "AI" for an engine game.
    Spawn { friend: String },
}

pub struct Lobby {
    /// Home-room subscribers.
    pub watchers: Watchers,
    /// Players currently bound to any game; capacity 60.
    pub playing: Roster,
    /// Live games, as broadcast to the home room.
    pub games_count: u64,
    /// Outstanding engine games; capacity 10.
    pub ai_games_count: u64,
}

impl Lobby {
    pub open spec fn wf(self) -> bool {
        &&& self.watchers.wf()
        &&& self.playing.wf()
        &&& self.ai_games_count <= 10
    }

    pub fn new() -> (l: Lobby)
        ensures
            l.wf(),
            l.playing.spec_len() == 0,
            l.games_count == 0,
            l.ai_games_count == 0,
            l.watchers.spec_player_count() == 0,
    {
        Lobby {
            watchers: Watchers::new(),
            playing: Roster::new(),
            games_count: 0,
            ai_games_count: 0,
        }
    }

    /// A challenge. It is dropped exactly when the caller is playing,
    /// 60 players already are, the resolved opponent is the caller or
    /// is playing, or an eleventh engine game is asked for; any other
    /// challenge seats the caller in the playing set and spawns one
    /// match against the resolved opponent.
    pub fn handle_add_request(&mut self, caller: String, request: &GameRequest) -> (r:
        AddRequestOutcome)
        requires
            old(self).wf(),
        ensures
            final(self).wf(),
            ({
                let pre = *old(self);
                let post = *final(self);
                let opponent = crate::requests::spec_opponent_name(request.game_type);
                let admissible = !pre.playing.spec_contains(caller@) && pre.playing.spec_len()
                    < 60 && opponent != caller@ && !pre.playing.spec_contains(opponent) && (
                opponent == "AI"@ ==> pre.ai_games_count < 10);
                &&& (!admissible ==> r is Rejected && post == pre)
                &&& (admissible ==> {
                    &&& (r matches AddRequestOutcome::Spawn { friend } && friend@ == opponent)
                    &&& post.playing.spec_contains(caller@)
                    &&& post.playing.spec_len() == pre.playing.spec_len() + 1
                    &&& (forall|q: Seq<char>|
                        q != caller@ ==> post.playing.spec_contains(q)
                            == pre.playing.spec_contains(q))
                    &&& post.ai_games_count == if opponent == "AI"@ {
                        pre.ai_games_count + 1
                    } else {
                        pre.ai_games_count as int
                    }
                    &&& post.games_count == pre.games_count
                    &&& post.watchers == pre.watchers
                })
            }),
    {
        if self.playing.contains(&caller) {
            return AddRequestOutcome::Rejected;
        }
        if self.playing.len() >= 60 {
            return AddRequestOutcome::Rejected;
        }
        let friend = request.game_type.player_name();
        if friend == caller {
            return AddRequestOutcome::Rejected;
        }
        if self.playing.contains(&friend) {
            return AddRequestOutcome::Rejected;
        }
        let ai = String::from_str("AI");
        proof {
            reveal_strlit("AI");
        }
        if friend == ai {
            if self.ai_games_count == 10 {
                return AddRequestOutcome::Rejected;
            }
            self.ai_games_count = self.ai_games_count + 1;
        }
        let _ = self.playing.insert(caller);
        AddRequestOutcome::Spawn { friend }
    }

    /// A home-room join: subscribe and answer with the game count.
    pub fn handle_join(&mut self, player: String, sink: u64) -> (msg: GamesCount)
        requires
            old(self).wf(),
        ensures
            final(self).wf(),
            final(self).watchers.spec_contains(player@),
            msg.t == MessageType::GameCount,
            msg.count == final(self).games_count,
            final(self).games_count == old(self).games_count,
            final(self).playing == old(self).playing,
    {
        let _ = self.watchers.add_watcher(player, sink);
        GamesCount { t: MessageType::GameCount, count: self.games_count }
    }

    /// A home-room leave.
    pub fn handle_leave(&mut self, player: &String)
        requires
            old(self).wf(),
        ensures
            final(self).wf(),
            !final(self).watchers.spec_contains(player@),
            final(self).playing == old(self).playing,
            final(self).games_count == old(self).games_count,
    {
        let _ = self.watchers.remove_watcher(player);
    }

    /// A match closed: release exactly these two seats, give back an
    /// engine slot per seat the engine held, drop the game count, and
    /// announce it. Every other player stays in the playing set.
    pub fn handle_remove_players(&mut self, players: &[String; 2]) -> (msg: GamesCount)
        requires
            old(self).wf(),
        ensures
            final(self).wf(),
            ({
                let pre = *old(self);
                let post = *final(self);
                &&& !post.playing.spec_contains(players[0]@)
                &&& !post.playing.spec_contains(players[1]@)
                &&& (forall|q: Seq<char>|
                    q != players[0]@ && q != players[1]@ ==> post.playing.spec_contains(q)
                        == pre.playing.spec_contains(q))
                &&& post.ai_games_count == spec_ai_release(
                    spec_ai_release(pre.ai_games_count, players[0]@),
                    players[1]@,
                )
                &&& post.games_count == if pre.games_count > 0 {
                    (pre.games_count - 1) as u64
                } else {
                    0
                }
                &&& post.watchers == pre.watchers
                &&& msg.t == MessageType::GameCount
                &&& msg.count == post.games_count
            }),
    {
        let ai = String::from_str("AI");
        proof {
            reveal_strlit("AI");
        }
        let _ = self.playing.remove(&players[0]);
        if players[0] == ai && self.ai_games_count > 0 {
            self.ai_games_count = self.ai_games_count - 1;
        }
        let _ = self.playing.remove(&players[1]);
        if players[1] == ai && self.ai_games_count > 0 {
            self.ai_games_count = self.ai_games_count - 1;
        }
        if self.games_count > 0 {
            self.games_count = self.games_count - 1;
        }
        GamesCount { t: MessageType::GameCount, count: self.games_count }
    }

    /// A match was registered: count it and announce it.
    pub fn handle_new_game(&mut self) -> (msg: GamesCount)
        requires
            old(self).wf(),
            old(self).games_count < u64::MAX,
        ensures
            final(self).wf(),
            final(self).games_count == old(self).games_count + 1,
            msg.t == MessageType::GameCount,
            msg.count == final(self).games_count,
            final(self).playing == old(self).playing,
    {
        self.games_count = self.games_count + 1;
        GamesCount { t: MessageType::GameCount, count: self.games_count }
    }

    /// The second seat of a match was taken: the player is busy now.
    /// The engine is never tracked in the playing set.
    pub fn handle_add_active_player(&mut self, player: String)
        requires
            old(self).wf(),
        ensures
            final(self).wf(),
            player@ != "AI"@ ==> final(self).playing.spec_contains(player@),
            player@ == "AI"@ ==> *final(self) == *old(self),
            final(self).games_count == old(self).games_count,
    {
        let ai = String::from_str("AI");
        proof {
            reveal_strlit("AI");
        }
        if !(player == ai) {
            let _ = self.playing.insert(player);
        }
    }
}

} // verus!
