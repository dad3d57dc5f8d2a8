//! The per-match actor: one live game's state machine.
//!
//! The actor owns the match, its clock and its watcher set, and decides
//! every transition. The runtime drives it: it delivers the mailbox
//! messages, asks the rules oracle about moves, and performs the
//! effects each handler returns — broadcasts, persistence, ticker and
//! registry calls. The close protocol, in order: stop the ticker,
//! broadcast the terminal notice if one is owed, release both seats at
//! the lobby, drop the match from the games registry, remove it from
//! TV, exit.

use vstd::prelude::*;
use crate::game::{Outcome, ShuuroGame, spec_result_of, spec_status_of};
use crate::messages::{
    ConfirmSelection, GameDraw, GameEnd, MessageType, MovePiece, PlacePiece, PlayerSelection,
    RedirectToPlacement, StartClock,
};
use crate::ticker;
use crate::time_control::TimeControl;
use crate::tv::TvMessage;
use crate::watchers::Watchers;

verus! {

/// Mailbox of a match actor. Sinks are the runtime's outbound handles.
pub enum GameMessage {
    Join(String, u64),
    Leave(String),
    GetGame,
    GetHand(String),
    GameMove { player: String, game_move: String },
    Draw(String),
    Resign(String),
    Abort,
    CheckClock,
    SaveState,
}

/// What a closing match owes the rest of the system.
pub struct CloseEffects {
    /// Terminal broadcast to every watcher; `None` on orderly shutdown.
    pub notify: Option<GameEnd>,
    /// Both seats, for the lobby to release.
    pub players: [String; 2],
    /// The match id, for the games registry and TV to drop.
    pub id: String,
}

/// Answer to a `Join`.
pub enum JoinOutcome {
    /// The watcher cap is reached; the join is silently ignored.
    Full,
    /// Subscribed as a watcher only.
    Watching,
    /// The joining player took the empty seat: the match starts.
    Started { start: StartClock, opponent: String },
}

/// Answer to a `Draw`.
pub enum DrawOutcome {
    /// Not started, or the sender plays no seat: dropped.
    Ignored,
    /// An offer: tell the opponent, nobody else.
    Offered { to: String, msg: GameDraw },
    /// Both sides agreed: persist, then close.
    Agreed { close: CloseEffects },
}

/// Answer to the clock gate of a placement or fight move.
pub enum ClickGate {
    /// Wrong stage, wrong turn or no seat: dropped, nothing changed.
    Rejected,
    /// The mover's budget is spent: dropped, the ticker will flag it.
    Expired,
    /// Time was consumed, but the piece is not the mover's: dropped.
    WrongPiece { clocks: [u64; 2] },
    /// Time was consumed; the move goes to the rules oracle.
    Ready { index: usize, clocks: [u64; 2] },
}

/// Answer to a confirm at the selection stage.
pub enum ConfirmOutcome {
    /// The oracle does not hold this side confirmed: nothing happens.
    NotConfirmed,
    /// Confirmed and announced; the opponent is still selecting.
    Confirmed { msg: ConfirmSelection },
    /// Both sides confirmed: the placement stage must now be seeded.
    BothConfirmed { msg: ConfirmSelection },
}

/// Answer to a placement move that the oracle accepted.
pub struct PlaceOutcome {
    /// Broadcast to everyone.
    pub msg: PlacePiece,
    /// Update for the TV aggregator.
    pub tv: TvMessage,
    /// Set when the placed position loses on the spot: persist, close.
    pub close: Option<CloseEffects>,
}

/// Answer to a fight move that the oracle accepted.
pub struct FightOutcome {
    /// Broadcast to everyone.
    pub msg: MovePiece,
    /// Update for the TV aggregator.
    pub tv: TvMessage,
    /// Set when the move ended the match: persist, then close.
    pub close: Option<CloseEffects>,
}

/// Answer to a ticker wake-up.
pub enum ClockTickOutcome {
    /// Still waiting for an opponent.
    Waiting,
    /// The fourth wake-up without an opponent: self-send `Abort`.
    AbortNow,
    /// A side flagged (or both did, during selection): persist, close.
    Flagged { close: CloseEffects },
    /// The match goes on; retune the ticker when an interval is given.
    Tick { interval: Option<u64> },
}

/// First seat whose name is `u`, as the rules index colors: 0 white, 1
/// black.
pub open spec fn spec_player_index(p: [String; 2], u: Seq<char>) -> Option<usize> {
    if p[0]@ == u {
        Some(0usize)
    } else if p[1]@ == u {
        Some(1usize)
    } else {
        None
    }
}

/// Index of the seat `u` plays, if any.
pub fn player_index(p: &[String; 2], u: &String) -> (r: Option<usize>)
    ensures
        r == spec_player_index(*p, u@),
{
    if p[0] == *u {
        Some(0)
    } else if p[1] == *u {
        Some(1)
    } else {
        None
    }
}

pub struct GameActor {
    pub game: ShuuroGame,
    pub watchers: Watchers,
    /// Whether both seats are taken.
    pub started: bool,
    /// The player who asked for the match.
    pub caller: String,
    /// The expected opponent: a friend's name, "AI", or empty for the
    /// first comer.
    pub other_player: String,
    /// Ticker wake-ups seen while waiting for an opponent.
    pub abort_counter: u8,
    /// The ticker's current interval, milliseconds.
    pub current_interval: u64,
}

impl GameActor {
    pub open spec fn wf(self) -> bool {
        &&& self.game.wf()
        &&& self.watchers.wf()
        &&& self.watchers.spec_player_count() <= 10
        &&& self.abort_counter <= 4
    }

    /// A fresh actor around a match. A revived match starts as started.
    pub fn new(game: ShuuroGame, caller: String, other_player: String, started: bool) -> (a:
        GameActor)
        requires
            game.wf(),
        ensures
            a.wf(),
            a.game == game,
            a.caller == caller,
            a.other_player == other_player,
            a.started == started,
            a.abort_counter == 0,
            a.current_interval == 15000,
            a.watchers.spec_player_count() == 0,
    {
        GameActor {
            game,
            watchers: Watchers::new(),
            started,
            caller,
            other_player,
            abort_counter: 0,
            current_interval: 15000,
        }
    }

    /// The close ticket: what the runtime owes the system when this
    /// match goes away.
    pub fn close_effects(&self, result: u8, status: i32, notify: bool) -> (c: CloseEffects)
        ensures
            notify ==> c.notify == Some(
                GameEnd { t: MessageType::GameEnd, result, status },
            ),
            !notify ==> c.notify is None,
            c.players == self.game.players,
            c.id == self.game._id,
    {
        let players = [self.game.players[0].clone(), self.game.players[1].clone()];
        proof {
            broadcast use vstd::array::axiom_array_ext_equal;

            assert(players@ =~= self.game.players@);
        }
        CloseEffects {
            notify: if notify {
                Some(GameEnd { t: MessageType::GameEnd, result, status })
            } else {
                None
            },
            players,
            id: self.game._id.clone(),
        }
    }

    /// A join: at most 10 distinct subscribers; when the match has not
    /// started and the comer fits the empty or declared seat, they are
    /// seated, the clock starts and the lobby learns of them.
    pub fn handle_join(&mut self, player: String, sink: u64, now: u64) -> (r: JoinOutcome)
        requires
            old(self).wf(),
        ensures
            final(self).wf(),
            ({
                let pre = *old(self);
                let post = *final(self);
                let binds = !pre.started && player@ != pre.caller@ && (pre.other_player@
                    == Seq::<char>::empty() || pre.other_player@ == player@);
                &&& (pre.watchers.spec_player_count() == 10 ==> r is Full && post == pre)
                &&& (pre.watchers.spec_player_count() == 10 && !pre.watchers.spec_contains(
                    player@,
                ) ==> !post.watchers.spec_contains(player@))
                &&& (pre.watchers.spec_player_count() < 10 ==> {
                    &&& post.watchers.spec_contains(player@)
                    &&& (binds <==> r is Started)
                    &&& (!binds ==> r is Watching && post == (GameActor {
                        watchers: post.watchers,
                        ..pre
                    }))
                    &&& (binds ==> {
                        &&& post.started
                        &&& post.other_player@ == player@
                        &&& post.game.tc.stage == pre.game.current_stage
                        &&& post.game.tc.last_click == now
                        &&& post.game.tc.clocks == pre.game.tc.clocks
                        &&& post.game.tc.incr == pre.game.tc.incr
                        &&& post.game == (ShuuroGame {
                            players: post.game.players,
                            tc: post.game.tc,
                            ..pre.game
                        })
                        &&& post == (GameActor {
                            game: post.game,
                            watchers: post.watchers,
                            started: true,
                            other_player: post.other_player,
                            ..pre
                        })
                        &&& (pre.game.players[0]@ == pre.caller@ ==> post.game.players[1]@
                            == player@ && post.game.players[0]@ == pre.game.players[0]@)
                        &&& (pre.game.players[0]@ != pre.caller@ ==> post.game.players[0]@
                            == player@ && post.game.players[1]@ == pre.game.players[1]@)
                        &&& (r matches JoinOutcome::Started { start, opponent } ==> start.t
                            == MessageType::StartClock && start.players == post.game.players
                            && start.click == now && opponent@ == player@)
                    })
                })
            }),
    {
        if self.watchers.player_count() == 10 {
            return JoinOutcome::Full;
        }
        let nobody = String::new();
        let binds = !self.started && !(player == self.caller) && (self.other_player == nobody
            || self.other_player == player);
        self.watchers.add_watcher(player.clone(), sink);
        if binds {
            self.other_player = player.clone();
            if self.game.players[0] == self.caller {
                self.game.players = [self.game.players[0].clone(), player.clone()];
            } else {
                self.game.players = [player.clone(), self.game.players[1].clone()];
            }
            let stage = self.game.current_stage;
            self.game.tc.update_stage(stage, now);
            self.started = true;
            let start = StartClock {
                t: MessageType::StartClock,
                players: [self.game.players[0].clone(), self.game.players[1].clone()],
                click: now,
            };
            proof {
                broadcast use vstd::array::axiom_array_ext_equal;

                assert(start.players@ =~= self.game.players@);
            }
            JoinOutcome::Started { start, opponent: player }
        } else {
            JoinOutcome::Watching
        }
    }

    /// A leave: the player's sinks are dropped.
    pub fn handle_leave(&mut self, player: &String)
        requires
            old(self).wf(),
        ensures
            final(self).wf(),
            !final(self).watchers.spec_contains(player@),
            final(self).game == old(self).game,
            final(self).started == old(self).started,
    {
        let _ = self.watchers.remove_watcher(player);
    }

    /// A copy of the match for a watcher, hands blanked: they are
    /// private while selection runs.
    pub fn handle_get_game(&self) -> (g: ShuuroGame)
        ensures
            g.hands[0]@ == Seq::<char>::empty(),
            g.hands[1]@ == Seq::<char>::empty(),
            g == (ShuuroGame { hands: g.hands, history: g.history, ..self.game }),
            g.history.0@ == self.game.history.0@,
            g.history.1@ == self.game.history.1@,
            g.history.2@ == self.game.history.2@,
    {
        self.game.public_copy()
    }

    /// A participant's own hand, owed only during selection and only to
    /// that player.
    pub fn handle_get_hand(&self, player: &String) -> (r: Option<PlayerSelection>)
        ensures
            r is Some <==> self.started && self.game.current_stage == 0 && spec_player_index(
                self.game.players,
                player@,
            ) is Some,
            r matches Some(h) ==> h.t == MessageType::GetHand && h.hand@ == self.game.hands[
                spec_player_index(self.game.players, player@)->0 as int
            ]@,
    {
        if !self.started {
            return None;
        }
        if self.game.current_stage != 0 {
            return None;
        }
        let Some(index) = player_index(&self.game.players, player) else { return None };
        Some(PlayerSelection { t: MessageType::GetHand, hand: self.game.hands[index].clone() })
    }

    /// Screening applied to every move before anything else: the match
    /// must have started and the sender must hold a seat.
    pub fn move_gate(&self, player: &String) -> (r: Option<usize>)
        ensures
            r is Some <==> self.started && spec_player_index(self.game.players, player@) is Some,
            r is Some ==> r == spec_player_index(self.game.players, player@),
    {
        if !self.started {
            return None;
        }
        player_index(&self.game.players, player)
    }

    /// A selection the oracle accepted: both draw offers fall, the
    /// mover's hand is refreshed.
    pub fn apply_select(&mut self, index: usize, new_hand: String)
        requires
            old(self).wf(),
            index < 2,
            old(self).game.current_stage == 0,
        ensures
            final(self).wf(),
            final(self).game.draws == [false, false],
            final(self).game.hands[index as int] == new_hand,
            final(self).game.hands[1 - index as int] == old(self).game.hands[1 - index as int],
            final(self).game == (ShuuroGame {
                draws: final(self).game.draws,
                hands: final(self).game.hands,
                ..old(self).game
            }),
            final(self).watchers == old(self).watchers,
            final(self).started == old(self).started,
    {
        self.game.draws = [false, false];
        if index == 0 {
            self.game.hands = [new_hand, self.game.hands[1].clone()];
        } else {
            self.game.hands = [self.game.hands[0].clone(), new_hand];
        }
    }

    /// A confirm at selection: if the oracle holds this side confirmed,
    /// announce it and settle the confirmer's budget; when the other
    /// side is confirmed too, the placement stage must be seeded.
    pub fn apply_confirm(&mut self, index: usize, confirmed: [bool; 2], now: u64) -> (r:
        ConfirmOutcome)
        requires
            old(self).wf(),
            index < 2,
            old(self).game.current_stage == 0,
            old(self).game.tc.stage == 0,
        ensures
            final(self).wf(),
            !confirmed[index as int] ==> r is NotConfirmed && *final(self) == *old(self),
            confirmed[index as int] ==> {
                let pre = *old(self);
                let post = *final(self);
                let rem = pre.game.tc.spec_remaining(index as int, now);
                &&& (confirmed[1 - index as int] <==> r is BothConfirmed)
                &&& (!confirmed[1 - index as int] <==> r is Confirmed)
                &&& post.game.clocks[0] == post.game.tc.clocks[0]
                &&& post.game.clocks[1] == post.game.tc.clocks[1]
                &&& post.game.tc.clocks[1 - index as int] == pre.game.tc.clocks[1
                    - index as int]
                &&& (rem < 0 ==> post.game.tc.clocks[index as int] == pre.game.tc.clocks[index as int])
                &&& (rem >= 0 ==> post.game.tc.clocks[index as int] == if rem
                    + pre.game.tc.incr <= u64::MAX {
                    rem + pre.game.tc.incr
                } else {
                    0
                })
                &&& post.game.tc.last_click == pre.game.tc.last_click
                &&& post.game.tc.incr == pre.game.tc.incr
                &&& post.game.tc.stage == 0
                &&& post.game == (ShuuroGame {
                    clocks: post.game.clocks,
                    tc: post.game.tc,
                    ..pre.game
                })
                &&& post == (GameActor { game: post.game, ..pre })
                &&& (r matches ConfirmOutcome::Confirmed { msg } ==> msg.t
                    == MessageType::ConfirmSelection && msg.confirmed == confirmed)
                &&& (r matches ConfirmOutcome::BothConfirmed { msg } ==> msg.t
                    == MessageType::ConfirmSelection && msg.confirmed == confirmed)
            },
    {
        if !confirmed[index] {
            return ConfirmOutcome::NotConfirmed;
        }
        let msg = ConfirmSelection { t: MessageType::ConfirmSelection, confirmed };
        let clocks = self.game.tc.select(index, now);
        self.game.clocks = clocks;
        if confirmed[1 - index] {
            ConfirmOutcome::BothConfirmed { msg }
        } else {
            ConfirmOutcome::Confirmed { msg }
        }
    }

    /// Store the hands both sides selected, white's then black's.
    pub fn set_hands(&mut self, w: String, b: String)
        requires
            old(self).wf(),
        ensures
            final(self).wf(),
            final(self).game.hands[0] == w,
            final(self).game.hands[1] == b,
            final(self).game == (ShuuroGame { hands: final(self).game.hands, ..old(self).game }),
            final(self).watchers == old(self).watchers,
    {
        self.game.hands = [w, b];
    }

    /// The position string the placement oracle is seeded with: the
    /// empty board, one space, both hands, and move number one.
    pub fn placement_seed(&self, empty_board: &String) -> (s: String)
        ensures
            s@ == empty_board@ + " "@ + self.game.hands[0]@ + self.game.hands[1]@ + " 1"@,
    {
        let mut s = empty_board.clone();
        s.append(" ");
        s.append(self.game.hands[0].as_str());
        s.append(self.game.hands[1].as_str());
        s.append(" 1");
        s
    }

    /// Enter the placement stage: white places first, the clock is
    /// restamped, and everyone is redirected.
    pub fn start_placement(&mut self, sfen: String, now: u64) -> (r: RedirectToPlacement)
        requires
            old(self).wf(),
        ensures
            final(self).wf(),
            final(self).game.current_stage == 1,
            final(self).game.tc == (TimeControl {
                stage: 1u8,
                last_click: now,
                ..old(self).game.tc
            }),
            final(self).game.last_clock == now,
            final(self).game.side_to_move == 0,
            final(self).game.sfen == sfen,
            final(self).game.placement_start@ == sfen@,
            final(self).game == (ShuuroGame {
                current_stage: 1u8,
                tc: final(self).game.tc,
                last_clock: now,
                side_to_move: 0u8,
                sfen: final(self).game.sfen,
                placement_start: final(self).game.placement_start,
                ..old(self).game
            }),
            *final(self) == (GameActor { game: final(self).game, ..*old(self) }),
            r.t == MessageType::RedirectToGame,
            r.id == final(self).game._id,
            r.last_clock == now,
            r.players == final(self).game.players,
            r.sfen@ == sfen@,
            r.variant == crate::requests::spec_variant_index(final(self).game.variant),
    {
        self.game.current_stage = 1;
        self.game.tc.update_stage(1, now);
        self.game.last_clock = now;
        self.game.side_to_move = 0;
        self.game.placement_start = sfen.clone();
        self.game.sfen = sfen;
        let players = [self.game.players[0].clone(), self.game.players[1].clone()];
        proof {
            broadcast use vstd::array::axiom_array_ext_equal;

            assert(players@ =~= self.game.players@);
        }
        RedirectToPlacement {
            t: MessageType::RedirectToGame,
            id: self.game._id.clone(),
            last_clock: now,
            players,
            sfen: self.game.sfen.clone(),
            variant: self.game.variant.index(),
        }
    }

    /// A draw message: the sender's offer is recorded; when both stand,
    /// the match ends drawn by agreement, else the opponent is told.
    pub fn handle_draw(&mut self, player: &String) -> (r: DrawOutcome)
        requires
            old(self).wf(),
        ensures
            final(self).wf(),
            ({
                let pre = *old(self);
                let post = *final(self);
                let seat = spec_player_index(pre.game.players, player@);
                &&& (!pre.started || seat is None ==> r is Ignored && post == pre)
                &&& (pre.started && seat is Some ==> {
                    let index = seat->0 as int;
                    &&& post.game.draws[index]
                    &&& (pre.game.draws[1 - index] <==> r is Agreed)
                    &&& post == (GameActor { game: post.game, ..pre })
                    &&& (r matches DrawOutcome::Agreed { close } ==> post.game.draws == [
                        true,
                        true,
                    ] && post.game.status == 5 && post.game.result == 2 && post.game == (
                    ShuuroGame {
                        draws: post.game.draws,
                        status: 5i32,
                        result: 2u8,
                        ..pre.game
                    }) && close.notify == Some(
                        (GameEnd { t: MessageType::GameEnd, result: 2, status: 5 }),
                    ) && close.players == post.game.players && close.id == post.game._id)
                    &&& (r matches DrawOutcome::Offered { to, msg } ==> to@ == pre.game.players[1
                        - index]@ && msg.t == MessageType::Draw && msg.draw_offer && msg.end == -2
                        && post.game == (ShuuroGame { draws: post.game.draws, ..pre.game }))
                })
            }),
    {
        if !self.started {
            return DrawOutcome::Ignored;
        }
        let Some(index) = player_index(&self.game.players, player) else {
            return DrawOutcome::Ignored;
        };
        self.game.draws = if index == 0 {
            [true, self.game.draws[1]]
        } else {
            [self.game.draws[0], true]
        };
        if self.game.draws[0] && self.game.draws[1] {
            self.game.status = 5;
            self.game.result = 2;
            let close = self.close_effects(2, 5, true);
            DrawOutcome::Agreed { close }
        } else {
            let to = self.game.players[1 - index].clone();
            let msg = GameDraw { t: MessageType::Draw, draw_offer: true, end: -2 };
            DrawOutcome::Offered { to, msg }
        }
    }

    /// A resignation by a participant ends the match: status 7, the
    /// resigner recorded, their clock settled, then persist and close.
    pub fn handle_resign(&mut self, player: &String, now: u64) -> (r: Option<CloseEffects>)
        requires
            old(self).wf(),
        ensures
            final(self).wf(),
            ({
                let pre = *old(self);
                let post = *final(self);
                let seat = spec_player_index(pre.game.players, player@);
                &&& (seat is None ==> r is None && post == pre)
                &&& (seat is Some ==> {
                    let index = seat->0 as int;
                    &&& post.game.status == 7
                    &&& post.game.result == seat->0 as u8
                    &&& post.game.last_clock == now
                    &&& post.game.tc.clocks[1 - index] == pre.game.tc.clocks[1 - index]
                    &&& post.game.tc.incr == pre.game.tc.incr
                    &&& post.game == (ShuuroGame {
                        status: 7i32,
                        result: post.game.result,
                        last_clock: now,
                        tc: post.game.tc,
                        ..pre.game
                    })
                    &&& post == (GameActor { game: post.game, ..pre })
                    &&& (r matches Some(close) ==> close.notify == Some(
                        (GameEnd {
                            t: MessageType::GameEnd,
                            result: seat->0 as u8,
                            status: 7,
                        }),
                    ) && close.players == post.game.players && close.id == post.game._id)
                    &&& r is Some
                })
            }),
    {
        let Some(index) = player_index(&self.game.players, player) else { return None };
        self.game.status = 7;
        self.game.result = index as u8;
        let _ = self.game.tc.play(index, now);
        self.game.last_clock = now;
        Some(self.close_effects(index as u8, 7, true))
    }

    /// An abort: the match disappears. The runtime deletes it from the
    /// store, then closes with status 10 and no winner.
    pub fn handle_abort(&self) -> (close: CloseEffects)
        ensures
            close.notify == Some((GameEnd { t: MessageType::GameEnd, result: 2, status: 10 })),
            close.players == self.game.players,
            close.id == self.game._id,
    {
        self.close_effects(2, 10, true)
    }

    /// Orderly shutdown: the match is parked as unfinished, persisted,
    /// and closed without a terminal broadcast.
    pub fn handle_save_state(&mut self) -> (close: CloseEffects)
        requires
            old(self).wf(),
        ensures
            final(self).wf(),
            final(self).game.status == -2,
            final(self).game.result == 2,
            final(self).game == (ShuuroGame {
                status: -2i32,
                result: 2u8,
                ..old(self).game
            }),
            close.notify is None,
            close.players == final(self).game.players,
            close.id == final(self).game._id,
    {
        self.game.result = 2;
        self.game.status = -2;
        self.close_effects(2, -2, false)
    }

    /// A ticker wake-up. Unstarted: the fourth in a row aborts the
    /// match. In selection, the budget of the side that should be
    /// confirming is consulted — white's while neither has confirmed —
    /// and a spent budget loses on time, with no winner when neither
    /// side had confirmed. From placement on, the side to move is
    /// consulted. Otherwise the ticker interval is retuned to the
    /// remaining time.
    pub fn handle_check_clock(&mut self, confirmed: [bool; 2], now: u64) -> (r: ClockTickOutcome)
        requires
            old(self).wf(),
        ensures
            final(self).wf(),
            ({
                let pre = *old(self);
                let post = *final(self);
                &&& (!pre.started ==> {
                    &&& (r is AbortNow <==> pre.abort_counter == 3)
                    &&& (r is AbortNow || r is Waiting)
                    &&& (pre.abort_counter < 4 ==> post.abort_counter == pre.abort_counter + 1)
                    &&& post == (GameActor { abort_counter: post.abort_counter, ..pre })
                })
                &&& (pre.started ==> {
                    let both_unconfirmed = pre.game.current_stage == 0 && !confirmed[0]
                        && !confirmed[1];
                    let tick = if pre.game.current_stage == 0 {
                        if both_unconfirmed {
                            0int
                        } else if !confirmed[0] {
                            0int
                        } else if !confirmed[1] {
                            1int
                        } else {
                            pre.game.side_to_move as int
                        }
                    } else {
                        pre.game.side_to_move as int
                    };
                    let flagged = pre.game.tc.spec_remaining(tick, now) < 0;
                    &&& (flagged <==> r is Flagged)
                    &&& (flagged ==> {
                        &&& post.game.status == 8
                        &&& post.game == (ShuuroGame {
                            status: 8i32,
                            result: post.game.result,
                            tc: post.game.tc,
                            ..pre.game
                        })
                        &&& post == (GameActor { game: post.game, ..pre })
                        &&& (both_unconfirmed ==> post.game.result == 2
                            && post.game.tc.clocks[0] == 0 && post.game.tc.clocks[1] == 0)
                        &&& (!both_unconfirmed ==> post.game.result == tick
                            && post.game.tc.clocks[tick] == 0)
                        &&& (r matches ClockTickOutcome::Flagged { close } ==> close.notify
                            == Some(
                            (GameEnd {
                                t: MessageType::GameEnd,
                                result: post.game.result,
                                status: 8,
                            }),
                        ) && close.players == post.game.players && close.id == post.game._id)
                    })
                    &&& (!flagged ==> {
                        let pair = [
                            if tick == 0 {
                                pre.game.tc.spec_remaining(0, now) as u64
                            } else {
                                pre.game.tc.clocks[0]
                            },
                            if tick == 1 {
                                pre.game.tc.spec_remaining(1, now) as u64
                            } else {
                                pre.game.tc.clocks[1]
                            },
                        ];
                        let ival = ticker::spec_interval_for(
                            if pair[1] < pair[0] {
                                pair[1]
                            } else {
                                pair[0]
                            },
                        );
                        &&& post == (GameActor { current_interval: ival as u64, ..pre })
                        &&& post.current_interval == ival
                        &&& (r matches ClockTickOutcome::Tick { interval } ==> interval == (
                        if ival == pre.current_interval {
                            Option::<u64>::None
                        } else {
                            Option::<u64>::Some(ival)
                        }))
                        &&& r is Tick
                    })
                })
            }),
    {
        if !self.started {
            let fire = self.abort_counter == 3;
            if self.abort_counter < 4 {
                self.abort_counter = self.abort_counter + 1;
            }
            if fire {
                return ClockTickOutcome::AbortNow;
            }
            return ClockTickOutcome::Waiting;
        }
        let both_unconfirmed = self.game.current_stage == 0 && !confirmed[0] && !confirmed[1];
        let tick: usize = if self.game.current_stage == 0 {
            if both_unconfirmed {
                0
            } else if !confirmed[0] {
                0
            } else if !confirmed[1] {
                1
            } else {
                self.game.side_to_move as usize
            }
        } else {
            self.game.side_to_move as usize
        };
        let Some(remaining) = self.game.tc.current_duration(tick, now) else {
            self.game.status = 8;
            if both_unconfirmed {
                self.game.result = 2;
                self.game.tc.set_to_zero(0);
                self.game.tc.set_to_zero(1);
            } else {
                self.game.result = tick as u8;
                self.game.tc.set_to_zero(tick);
            }
            let result = self.game.result;
            let close = self.close_effects(result, 8, true);
            return ClockTickOutcome::Flagged { close };
        };
        let pair: [u64; 2] = if tick == 0 {
            [remaining, self.game.tc.clocks[1]]
        } else {
            [self.game.tc.clocks[0], remaining]
        };
        let ival = ticker::clocks(pair);
        if ival == self.current_interval {
            ClockTickOutcome::Tick { interval: None }
        } else {
            self.current_interval = ival;
            ClockTickOutcome::Tick { interval: Some(ival) }
        }
    }

    /// The clock gate of a move at stage `stage`: the sender must hold
    /// a seat in a started match at that stage, it must be their turn
    /// by the oracle's reckoning, and their budget must not be spent.
    /// Time is consumed before the piece is examined, so a move with
    /// the wrong piece still costs its thinking time.
    pub fn click_gate(&mut self, player: &String, stage: u8, oracle_stm: u8, piece_ok: bool, now:
        u64) -> (r: ClickGate)
        requires
            old(self).wf(),
        ensures
            final(self).wf(),
            ({
                let pre = *old(self);
                let post = *final(self);
                let seat = spec_player_index(pre.game.players, player@);
                let admissible = pre.started && seat is Some && pre.game.current_stage == stage
                    && oracle_stm == seat->0 as u8;
                &&& (!admissible ==> r is Rejected && post == pre)
                &&& (admissible ==> {
                    let index = seat->0 as int;
                    let rem = pre.game.tc.spec_remaining(index, now);
                    &&& (rem < 0 ==> r is Expired && post == pre)
                    &&& (rem >= 0 ==> {
                        &&& post.game.clocks[0] == post.game.tc.clocks[0]
                        &&& post.game.clocks[1] == post.game.tc.clocks[1]
                        &&& post.game.tc.clocks[1 - index] == pre.game.tc.clocks[1 - index]
                        &&& post.game.tc.clocks[index] <= pre.game.tc.clocks[index]
                            + pre.game.tc.incr
                        &&& post.game.last_clock == now
                        &&& post.game == (ShuuroGame {
                            clocks: post.game.clocks,
                            last_clock: now,
                            tc: post.game.tc,
                            ..pre.game
                        })
                        &&& post == (GameActor { game: post.game, ..pre })
                        &&& (piece_ok ==> (r matches ClickGate::Ready { index: i, clocks } && i
                            == seat->0 && clocks[0] == post.game.clocks[0] && clocks[1]
                            == post.game.clocks[1]))
                        &&& (!piece_ok ==> (r matches ClickGate::WrongPiece { clocks } && clocks[0]
                            == post.game.clocks[0] && clocks[1] == post.game.clocks[1]))
                    })
                })
            }),
    {
        if !self.started {
            return ClickGate::Rejected;
        }
        let Some(index) = player_index(&self.game.players, player) else {
            return ClickGate::Rejected;
        };
        if self.game.current_stage != stage {
            return ClickGate::Rejected;
        }
        if oracle_stm != index as u8 {
            return ClickGate::Rejected;
        }
        let Some(clocks) = self.game.tc.play(index, now) else { return ClickGate::Expired };
        self.game.clocks = clocks;
        self.game.last_clock = now;
        proof {
            let pre = *old(self);
            let i = index as int;
            if pre.game.tc.stage >= 1 {
                if pre.game.tc.spec_remaining(i, now) + pre.game.tc.incr <= u64::MAX {
                    assert(self.game.tc.clocks[i] <= pre.game.tc.clocks[i] + pre.game.tc.incr);
                } else {
                    assert(self.game.tc.clocks[i] == 0);
                }
            }
        }
        if piece_ok {
            ClickGate::Ready { index, clocks }
        } else {
            ClickGate::WrongPiece { clocks }
        }
    }

    /// A placement move the oracle accepted. Draw offers fall; the
    /// board, the hands and the history advance; when both hands are
    /// emptied the fight stage begins on `fight_seed`, and a seeded
    /// position that starts in check is a first-move error: status 9,
    /// the opposite color wins, and the match closes at once.
    pub fn apply_place(&mut self, index: usize, clocks: [u64; 2], mv_fen: String, placed_sfen:
        String, hand_w: String, hand_b: String, stm_after: u8, next_stage: bool, fight_seed:
        Option<String>, fight_outcome: Option<Outcome>, fight_stm: u8, fight_in_check: bool, now:
        u64) -> (r: PlaceOutcome)
        requires
            old(self).wf(),
            index < 2,
            stm_after <= 1,
            fight_stm <= 1,
            fight_outcome matches Some(o) ==> o.wf(),
            old(self).game.current_stage == 1,
        ensures
            final(self).wf(),
            ({
                let pre = *old(self);
                let post = *final(self);
                let fme = next_stage && fight_in_check;
                &&& post == (GameActor { game: post.game, ..pre })
                &&& post.game == (ShuuroGame {
                    draws: post.game.draws,
                    side_to_move: post.game.side_to_move,
                    sfen: post.game.sfen,
                    hands: post.game.hands,
                    history: post.game.history,
                    current_stage: post.game.current_stage,
                    tc: post.game.tc,
                    last_clock: post.game.last_clock,
                    game_start: post.game.game_start,
                    status: post.game.status,
                    result: post.game.result,
                    ..pre.game
                })
                &&& post.game.draws == [false, false]
                &&& post.game.side_to_move == stm_after
                &&& post.game.sfen == placed_sfen
                &&& post.game.hands[0] == hand_w && post.game.hands[1] == hand_b
                &&& post.game.history.1@ == pre.game.history.1@.push(mv_fen)
                &&& post.game.history.0@ == pre.game.history.0@ && post.game.history.2@
                    == pre.game.history.2@
                &&& (next_stage ==> post.game.current_stage == 2 && post.game.tc.stage == 2
                    && post.game.tc.last_click == now && post.game.last_clock == now)
                &&& (next_stage && fight_seed is Some ==> post.game.game_start == fight_seed->0)
                &&& (!next_stage ==> post.game.current_stage == 1 && post.game.game_start
                    == pre.game.game_start)
                &&& (fme ==> post.game.status == 9 && post.game.result == 1 - fight_stm)
                &&& (!fme && next_stage ==> (fight_outcome matches Some(o) ==> post.game.status
                    == spec_status_of(o) && post.game.result == spec_result_of(
                    o,
                    pre.game.result,
                )))
                &&& (!next_stage ==> post.game.status == pre.game.status && post.game.result
                    == pre.game.result)
                &&& r.msg == (PlacePiece {
                    t: MessageType::PlacePiece,
                    clocks,
                    first_move_error: fme,
                    next_stage,
                    sfen: r.msg.sfen,
                }) && r.msg.sfen@ == mv_fen@
                &&& (r.tv matches TvMessage::Move { id, sfen, first_move_error } ==> id@
                    == post.game._id@ && sfen@ == post.game.sfen@ && first_move_error == fme)
                &&& r.tv is Move
                &&& (fme <==> r.close is Some)
                &&& (r.close matches Some(close) ==> close.notify == Some(
                    (GameEnd {
                        t: MessageType::GameEnd,
                        result: post.game.result,
                        status: 9,
                    }),
                ) && close.players == post.game.players && close.id == post.game._id)
            }),
    {
        self.game.draws = [false, false];
        let mut fme = false;
        if next_stage {
            self.game.current_stage = 2;
            self.game.tc.update_stage(2, now);
            self.game.last_clock = now;
            if let Some(outcome) = &fight_outcome {
                self.game.update_status(outcome);
            }
            if let Some(seed) = fight_seed {
                self.game.game_start = seed;
            }
            fme = fight_in_check;
        }
        self.game.side_to_move = stm_after;
        self.game.hands = [hand_w, hand_b];
        let msg_sfen = mv_fen.clone();
        self.game.history.1.push(mv_fen);
        self.game.sfen = placed_sfen;
        if fme {
            self.game.status = 9;
            self.game.result = 1 - fight_stm;
        }
        let msg = PlacePiece {
            t: MessageType::PlacePiece,
            clocks,
            first_move_error: fme,
            next_stage,
            sfen: msg_sfen,
        };
        let tv = TvMessage::Move {
            id: self.game._id.clone(),
            sfen: self.game.sfen.clone(),
            first_move_error: fme,
        };
        let close = if fme {
            let result = self.game.result;
            Some(self.close_effects(result, 9, true))
        } else {
            None
        };
        PlaceOutcome { msg, tv, close }
    }

    /// A fight move the oracle accepted: the verdict is mapped onto
    /// status and result, the turn flips to the other side, the board
    /// and history advance, and a positive status ends the match.
    pub fn apply_fight(&mut self, index: usize, clocks: [u64; 2], game_move: String, outcome:
        Outcome, sfen_after: String, now: u64) -> (r: FightOutcome)
        requires
            old(self).wf(),
            index < 2,
            outcome.wf(),
            old(self).game.current_stage == 2,
        ensures
            final(self).wf(),
            ({
                let pre = *old(self);
                let post = *final(self);
                &&& post == (GameActor { game: post.game, ..pre })
                &&& post.game == (ShuuroGame {
                    status: post.game.status,
                    result: post.game.result,
                    side_to_move: post.game.side_to_move,
                    sfen: post.game.sfen,
                    history: post.game.history,
                    ..pre.game
                })
                &&& post.game.status == spec_status_of(outcome)
                &&& post.game.result == spec_result_of(outcome, pre.game.result)
                &&& post.game.side_to_move == 1 - index
                &&& post.game.sfen == sfen_after
                &&& post.game.history.2@ == pre.game.history.2@.push(game_move)
                &&& post.game.history.0@ == pre.game.history.0@ && post.game.history.1@
                    == pre.game.history.1@
                &&& r.msg == (MovePiece {
                    t: MessageType::MovePiece,
                    clocks,
                    status: post.game.status,
                    result: post.game.result,
                    game_move: r.msg.game_move,
                }) && r.msg.game_move@ == game_move@
                &&& (r.tv matches TvMessage::Move { id, sfen, first_move_error } ==> id@
                    == post.game._id@ && sfen@ == post.game.sfen@ && !first_move_error)
                &&& r.tv is Move
                &&& (post.game.status > 0 <==> r.close is Some)
                &&& (r.close matches Some(close) ==> close.notify == Some(
                    (GameEnd {
                        t: MessageType::GameEnd,
                        result: post.game.result,
                        status: post.game.status,
                    }),
                ) && close.players == post.game.players && close.id == post.game._id)
            }),
    {
        self.game.update_status(&outcome);
        self.game.side_to_move = 1 - index as u8;
        self.game.sfen = sfen_after;
        let msg_move = game_move.clone();
        self.game.history.2.push(game_move);
        let msg = MovePiece {
            t: MessageType::MovePiece,
            clocks,
            status: self.game.status,
            result: self.game.result,
            game_move: msg_move,
        };
        let tv = TvMessage::Move {
            id: self.game._id.clone(),
            sfen: self.game.sfen.clone(),
            first_move_error: false,
        };
        let close = if self.game.status > 0 {
            let result = self.game.result;
            let status = self.game.status;
            Some(self.close_effects(result, status, true))
        } else {
            None
        };
        FightOutcome { msg, tv, close }
    }

    /// Seed a match whose sub-variant starts past selection: the stage
    /// and the starting position are preloaded.
    pub fn apply_preloaded(&mut self, stage: u8, seed: String, generated: String, now: u64)
        requires
            old(self).wf(),
            stage == 1 || stage == 2,
        ensures
            final(self).wf(),
            final(self).game.current_stage == stage,
            final(self).game.tc.stage == stage,
            final(self).game.tc.last_click == now,
            final(self).game.sfen == generated,
            stage == 2 ==> final(self).game.game_start@ == generated@,
            stage == 1 ==> final(self).game.placement_start == seed,
    {
        self.game.current_stage = stage;
        if stage == 2 {
            self.game.game_start = generated.clone();
            self.game.sfen = generated;
            self.game.tc.update_stage(2, now);
        } else {
            self.game.placement_start = seed;
            self.game.sfen = generated;
            self.game.tc.update_stage(1, now);
        }
    }
}

} // verus!
