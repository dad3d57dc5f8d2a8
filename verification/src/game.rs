//! The persisted match and the verdict mapping of the rules oracle.
//!
//! A match's status is a signed code: -2 not started or paused, -1 live,
//! 1 checkmate, 3 stalemate, 4 draw by repetition, 5 draw by agreement,
//! 6 draw by material, 7 resignation, 8 loss on time, 9 first-move
//! error, 10 aborted. The result is 0, 1 or 2: white, black, or draw and
//! no-winner.

use vstd::prelude::*;
use crate::requests::{GameRequest, TypeOfGame, Variant, spec_duration_allowed};
use crate::time_control::TimeControl;

verus! {

/// Moves of the three stages: selection, placement, fight.
pub type History = (Vec<String>, Vec<String>, Vec<String>);

/// The rules oracle's verdict on a position or a move. A carried color
/// is 0 for white and 1 for black.
#[derive(Clone, Copy, Debug, PartialEq, Eq, Structural)]
pub enum Outcome {
    Check { color: u8 },
    Stalemate,
    DrawByAgreement,
    DrawByRepetition,
    DrawByMaterial,
    Checkmate { color: u8 },
    MoveOk,
    MoveNotOk,
    Resign { color: u8 },
    LostOnTime { color: u8 },
    FirstMoveError { color: u8 },
}

impl Outcome {
    /// Any carried color names a real side.
    pub open spec fn wf(self) -> bool {
        match self {
            Outcome::Check { color } => color <= 1,
            Outcome::Checkmate { color } => color <= 1,
            Outcome::Resign { color } => color <= 1,
            Outcome::LostOnTime { color } => color <= 1,
            Outcome::FirstMoveError { color } => color <= 1,
            _ => true,
        }
    }
}

/// The status code an outcome maps to.
pub open spec fn spec_status_of(o: Outcome) -> int {
    match o {
        Outcome::Check { .. } => -1,
        Outcome::MoveOk => -1,
        Outcome::MoveNotOk => -2,
        Outcome::Stalemate => 3,
        Outcome::DrawByRepetition => 4,
        Outcome::DrawByAgreement => 5,
        Outcome::DrawByMaterial => 6,
        Outcome::Checkmate { .. } => 1,
        Outcome::Resign { .. } => 7,
        Outcome::LostOnTime { .. } => 8,
        Outcome::FirstMoveError { .. } => 9,
    }
}

/// The result an outcome maps to; `prev` stays when the game goes on.
pub open spec fn spec_result_of(o: Outcome, prev: u8) -> u8 {
    match o {
        Outcome::Check { .. } => prev,
        Outcome::MoveOk => prev,
        Outcome::MoveNotOk => prev,
        Outcome::Stalemate => 2,
        Outcome::DrawByRepetition => 2,
        Outcome::DrawByAgreement => 2,
        Outcome::DrawByMaterial => 2,
        Outcome::Checkmate { color } => color,
        Outcome::Resign { color } => color,
        Outcome::LostOnTime { color } => color,
        Outcome::FirstMoveError { color } => color,
    }
}

/// Codes under which the match is over with a winner or a named loser.
pub open spec fn spec_decisive(status: int) -> bool {
    status == 1 || status == 7 || status == 9
}

/// Codes under which the match is drawn.
pub open spec fn spec_drawn(status: int) -> bool {
    status == 3 || status == 4 || status == 5 || status == 6
}

/// A live match as persisted.
pub struct ShuuroGame {
    pub _id: String,
    /// Main time, milliseconds.
    pub min: u64,
    /// Increment per move, milliseconds.
    pub incr: u64,
    /// Seats by color: index 0 white, index 1 black.
    pub players: [String; 2],
    pub side_to_move: u8,
    /// Remaining time of each side, milliseconds.
    pub clocks: [u64; 2],
    /// Timestamp of the last clock event, milliseconds.
    pub last_clock: u64,
    /// 0 selection, 1 placement, 2 fight.
    pub current_stage: u8,
    pub result: u8,
    pub status: i32,
    pub variant: Variant,
    /// Selection credit of each side.
    pub credits: [u16; 2],
    /// Hand of each side, encoded as piece letters.
    pub hands: [String; 2],
    pub sfen: String,
    pub history: History,
    /// Position the fight stage started from.
    pub game_start: String,
    /// Position the placement stage started from.
    pub placement_start: String,
    pub tc: TimeControl,
    /// Pending draw offer of each side.
    pub draws: [bool; 2],
    pub sub_variant: Option<u8>,
}

impl ShuuroGame {
    /// Codes in range, and a decisive status names a winner while a
    /// drawn status names none. A loss on time may carry result 2: a
    /// selection timeout can fell both sides at once.
    pub open spec fn wf(self) -> bool {
        &&& self.current_stage <= 2
        &&& self.side_to_move <= 1
        &&& self.result <= 2
        &&& -2 <= self.status <= 10
        &&& spec_decisive(self.status as int) ==> self.result <= 1
        &&& spec_drawn(self.status as int) ==> self.result == 2
        &&& self.status == 8 ==> self.result <= 2
    }

    /// Executable twin of [`ShuuroGame::wf`]: what a stored match must
    /// pass before it is revived.
    pub fn is_well_formed(&self) -> (r: bool)
        ensures
            r == self.wf(),
    {
        self.current_stage <= 2 && self.side_to_move <= 1 && self.result <= 2 && -2 <= self.status
            && self.status <= 10 && (if self.status == 1 || self.status == 7 || self.status == 9 {
            self.result <= 1
        } else {
            true
        }) && (if self.status == 3 || self.status == 4 || self.status == 5 || self.status == 6 {
            self.result == 2
        } else {
            true
        })
    }

    /// A fresh match for a challenge: both seats as dealt, stage 0,
    /// status -2 until an opponent arrives, both clocks full.
    pub fn from_request(req: &GameRequest, players: [String; 2], id: String, now: u64) -> (g:
        ShuuroGame)
        requires
            spec_duration_allowed(req.minutes as int),
            spec_duration_allowed(req.incr as int) || req.incr == 0,
        ensures
            g.wf(),
            g._id == id,
            g.min == req.minutes * 60000,
            g.incr == req.incr * 1000,
            g.players == players,
            g.side_to_move == 0,
            g.clocks[0] == (req.minutes * 60 + req.incr) * 1000,
            g.clocks[1] == (req.minutes * 60 + req.incr) * 1000,
            g.last_clock == now,
            g.current_stage == 0,
            g.result == 2,
            g.status == -2,
            g.variant == req.variant,
            g.credits[0] == 800 && g.credits[1] == 800,
            g.hands[0]@ == Seq::<char>::empty() && g.hands[1]@ == Seq::<char>::empty(),
            g.sfen@ == Seq::<char>::empty(),
            g.history.0@.len() == 0 && g.history.1@.len() == 0 && g.history.2@.len() == 0,
            g.game_start@ == Seq::<char>::empty(),
            g.placement_start@ == Seq::<char>::empty(),
            g.tc.clocks[0] == (req.minutes * 60 + req.incr) * 1000,
            g.tc.clocks[1] == (req.minutes * 60 + req.incr) * 1000,
            g.tc.stage == 0,
            g.tc.incr == req.incr * 1000,
            g.tc.last_click == now,
            g.draws[0] == false && g.draws[1] == false,
            g.sub_variant == req.sub_variant,
    {
        let minutes: u64 = req.minutes as u64;
        let incr_s: u64 = req.incr as u64;
        let clock_ms: u64 = (minutes * 60 + incr_s) * 1000;
        ShuuroGame {
            _id: id,
            min: minutes * 60000,
            incr: incr_s * 1000,
            players,
            side_to_move: 0,
            clocks: [clock_ms, clock_ms],
            last_clock: now,
            current_stage: 0,
            result: 2,
            status: -2,
            variant: req.variant,
            credits: [800, 800],
            hands: [String::new(), String::new()],
            sfen: String::new(),
            history: (Vec::new(), Vec::new(), Vec::new()),
            game_start: String::new(),
            placement_start: String::new(),
            tc: TimeControl::new(minutes, incr_s, now),
            draws: [false, false],
            sub_variant: req.sub_variant,
        }
    }

    /// A field-for-field copy: equal except that the history lists are
    /// rebuilt, equal element for element.
    pub fn duplicate(&self) -> (g: ShuuroGame)
        ensures
            g.history.0@ == self.history.0@,
            g.history.1@ == self.history.1@,
            g.history.2@ == self.history.2@,
            g == (ShuuroGame { history: g.history, ..*self }),
    {
        let g = ShuuroGame {
            _id: self._id.clone(),
            min: self.min,
            incr: self.incr,
            players: [self.players[0].clone(), self.players[1].clone()],
            side_to_move: self.side_to_move,
            clocks: self.clocks,
            last_clock: self.last_clock,
            current_stage: self.current_stage,
            result: self.result,
            status: self.status,
            variant: self.variant,
            credits: self.credits,
            hands: [self.hands[0].clone(), self.hands[1].clone()],
            sfen: self.sfen.clone(),
            history: (
                clone_strings(&self.history.0),
                clone_strings(&self.history.1),
                clone_strings(&self.history.2),
            ),
            game_start: self.game_start.clone(),
            placement_start: self.placement_start.clone(),
            tc: TimeControl {
                last_click: self.tc.last_click,
                clocks: self.tc.clocks,
                stage: self.tc.stage,
                incr: self.tc.incr,
            },
            draws: self.draws,
            sub_variant: self.sub_variant,
        };
        proof {
            broadcast use vstd::array::axiom_array_ext_equal;

            assert(g.players@ =~= self.players@);
            assert(g.hands@ =~= self.hands@);
            assert(g.players == self.players);
            assert(g.hands == self.hands);
        }
        g
    }

    /// The copy handed to a watcher who asks for the game: the private
    /// hands are blanked.
    pub fn public_copy(&self) -> (g: ShuuroGame)
        ensures
            g.hands[0]@ == Seq::<char>::empty(),
            g.hands[1]@ == Seq::<char>::empty(),
            g.history.0@ == self.history.0@,
            g.history.1@ == self.history.1@,
            g.history.2@ == self.history.2@,
            g == (ShuuroGame { hands: g.hands, history: g.history, ..*self }),
    {
        let mut g = self.duplicate();
        g.hands = [String::new(), String::new()];
        g
    }

    /// Map the oracle's verdict onto status and result, exactly as the
    /// status-code table prescribes.
    pub fn update_status(&mut self, outcome: &Outcome)
        requires
            outcome.wf(),
            old(self).wf(),
        ensures
            final(self).wf(),
            final(self).status == spec_status_of(*outcome),
            final(self).result == spec_result_of(*outcome, old(self).result),
            *final(self) == (ShuuroGame {
                status: final(self).status,
                result: final(self).result,
                ..*old(self)
            }),
    {
        match outcome {
            Outcome::Check { .. } => {
                self.status = -1;
            },
            Outcome::MoveOk => {
                self.status = -1;
            },
            Outcome::MoveNotOk => {
                self.status = -2;
            },
            Outcome::Stalemate => {
                self.status = 3;
                self.result = 2;
            },
            Outcome::DrawByRepetition => {
                self.status = 4;
                self.result = 2;
            },
            Outcome::DrawByAgreement => {
                self.status = 5;
                self.result = 2;
            },
            Outcome::DrawByMaterial => {
                self.status = 6;
                self.result = 2;
            },
            Outcome::Checkmate { color } => {
                self.status = 1;
                self.result = *color;
            },
            Outcome::Resign { color } => {
                self.status = 7;
                self.result = *color;
            },
            Outcome::LostOnTime { color } => {
                self.status = 8;
                self.result = *color;
            },
            Outcome::FirstMoveError { color } => {
                self.status = 9;
                self.result = *color;
            },
        }
    }

    /// Whether a stored match is revived at startup: it is unfinished
    /// and both seats are filled. One with an empty seat is deleted.
    pub fn recovery_keep(&self) -> (r: bool)
        ensures
            r == (self.status < 0 && self.players[0]@ != Seq::<char>::empty() && self.players[1]@
                != Seq::<char>::empty()),
    {
        let empty = String::new();
        self.status < 0 && !(self.players[0] == empty) && !(self.players[1] == empty)
    }
}

/// The history shape an archived game is listed with: only the number
/// of fight moves travels, as one decimal entry.
pub fn archived_history(moves_count: u64) -> (h: History)
    ensures
        h.0@.len() == 1,
        h.0@[0]@ == crate::strutil::spec_decimal(moves_count as int),
        h.1@.len() == 0,
        h.2@.len() == 0,
{
    let mut first: Vec<String> = Vec::new();
    first.push(crate::strutil::u64_to_string(moves_count));
    (first, Vec::new(), Vec::new())
}

/// Element-for-element copy of a list of strings.
pub fn clone_strings(v: &Vec<String>) -> (r: Vec<String>)
    ensures
        r@ == v@,
{
    let mut r: Vec<String> = Vec::new();
    let mut i: usize = 0;
    while i < v.len()
        invariant
            i <= v@.len(),
            r@ == v@.take(i as int),
        decreases v@.len() - i,
    {
        r.push(v[i].clone());
        proof {
            assert(v@.take(i + 1) == v@.take(i as int).push(v@[i as int]));
        }
        i += 1;
    }
    proof {
        assert(v@.take(v@.len() as int) == v@);
        assert(r@ =~= v@);
    }
    r
}

/// Decisive codes carry a winner; drawn codes carry none. A loss on
/// time names the flagged side, except that a selection-stage timeout
/// with neither side confirmed fells both and is recorded as 2.
pub proof fn lemma_at_most_one_winner(g: ShuuroGame)
    requires
        g.wf(),
    ensures
        spec_decisive(g.status as int) ==> g.result == 0 || g.result == 1,
        spec_drawn(g.status as int) ==> g.result == 2,
{
}

} // verus!
