//! Typed wire messages.
//!
//! Every frame on the wire is `{t, d}` where `t` is a `MessageType`
//! encoded as its position number; the order below is fixed for wire
//! compatibility and must not change. The payload structs are the plain
//! shapes of the outbound messages; the runtime serialises them.

use vstd::prelude::*;

verus! {

/// Fixed-order tag of every wire message. The integer on the wire is the
/// variant's position in this list.
#[derive(Clone, Copy, Debug, PartialEq, Eq, Structural)]
pub enum MessageType {
    ChangeRoom,
    AddGameRequest,
    RedirectToGame,
    PlayerCount,
    GameCount,
    StartClock,
    GetGame,
    GetConfirmed,
    GetHistory,
    GetHand,
    SelectMove,
    PlacePiece,
    MovePiece,
    Draw,
    Resign,
    GameEnd,
    GetTv,
    AddTvGame,
    NewTvMove,
    RemoveTVGame,
    SaveState,
    ReloadJinja,
    ConfirmSelection,
    NewPlayer,
}

/// The wire number of each tag: its position in the declaration order.
pub open spec fn spec_message_number(t: MessageType) -> usize {
    match t {
        MessageType::ChangeRoom => 0,
        MessageType::AddGameRequest => 1,
        MessageType::RedirectToGame => 2,
        MessageType::PlayerCount => 3,
        MessageType::GameCount => 4,
        MessageType::StartClock => 5,
        MessageType::GetGame => 6,
        MessageType::GetConfirmed => 7,
        MessageType::GetHistory => 8,
        MessageType::GetHand => 9,
        MessageType::SelectMove => 10,
        MessageType::PlacePiece => 11,
        MessageType::MovePiece => 12,
        MessageType::Draw => 13,
        MessageType::Resign => 14,
        MessageType::GameEnd => 15,
        MessageType::GetTv => 16,
        MessageType::AddTvGame => 17,
        MessageType::NewTvMove => 18,
        MessageType::RemoveTVGame => 19,
        MessageType::SaveState => 20,
        MessageType::ReloadJinja => 21,
        MessageType::ConfirmSelection => 22,
        MessageType::NewPlayer => 23,
    }
}

impl MessageType {
    /// The integer this tag is encoded as on the wire.
    pub fn into_number(&self) -> (n: usize)
        ensures
            n == spec_message_number(*self),
    {
        match self {
            MessageType::ChangeRoom => 0,
            MessageType::AddGameRequest => 1,
            MessageType::RedirectToGame => 2,
            MessageType::PlayerCount => 3,
            MessageType::GameCount => 4,
            MessageType::StartClock => 5,
            MessageType::GetGame => 6,
            MessageType::GetConfirmed => 7,
            MessageType::GetHistory => 8,
            MessageType::GetHand => 9,
            MessageType::SelectMove => 10,
            MessageType::PlacePiece => 11,
            MessageType::MovePiece => 12,
            MessageType::Draw => 13,
            MessageType::Resign => 14,
            MessageType::GameEnd => 15,
            MessageType::GetTv => 16,
            MessageType::AddTvGame => 17,
            MessageType::NewTvMove => 18,
            MessageType::RemoveTVGame => 19,
            MessageType::SaveState => 20,
            MessageType::ReloadJinja => 21,
            MessageType::ConfirmSelection => 22,
            MessageType::NewPlayer => 23,
        }
    }
}

/// A text frame bound for one connection's socket.
pub enum WsMessage {
    Message(String),
}

/// How a move is classified by stage.
pub enum MoveType {
    Selection,
    Placement,
    MovePiece,
}

/// A client's request touching one game: the tag, the game and the move.
pub struct GameGet {
    pub t: String,
    pub game_id: String,
    pub game_move: String,
}

/// A verdict of the live-game logic on one client move.
pub enum LiveGameMove {
    BuyMove([bool; 2]),
    LostOnTime(usize),
    FirstMoveError(usize),
    PlaceMove(String, [u64; 2], bool, bool, [String; 2]),
    FightMove(String, [u64; 2], i32, String, [String; 2], String),
}

/// Terminal broadcast of a match.
pub struct GameEnd {
    pub t: MessageType,
    pub result: u8,
    pub status: i32,
}

/// A player's own selection hand, sent only to that player.
pub struct PlayerSelection {
    pub t: MessageType,
    pub hand: String,
}

/// A draw offer, or the end of a game by agreement.
pub struct GameDraw {
    pub t: MessageType,
    pub draw_offer: bool,
    pub end: i8,
}

/// Which sides have confirmed their selection.
pub struct ConfirmSelection {
    pub t: MessageType,
    pub confirmed: [bool; 2],
}

/// Redirect of a match's watchers to the placement stage.
pub struct RedirectToPlacement {
    pub t: MessageType,
    pub id: String,
    pub last_clock: u64,
    pub players: [String; 2],
    pub sfen: String,
    pub variant: u8,
}

impl RedirectToPlacement {
    /// A field-for-field copy.
    pub fn duplicate(&self) -> (r: RedirectToPlacement)
        ensures
            r == *self,
    {
        let r = RedirectToPlacement {
            t: self.t,
            id: self.id.clone(),
            last_clock: self.last_clock,
            players: [self.players[0].clone(), self.players[1].clone()],
            sfen: self.sfen.clone(),
            variant: self.variant,
        };
        proof {
            broadcast use vstd::array::axiom_array_ext_equal;

            assert(r.players@ =~= self.players@);
            assert(r.players == self.players);
        }
        r
    }
}

/// A placement-stage move as broadcast to the match's watchers.
pub struct PlacePiece {
    pub t: MessageType,
    pub clocks: [u64; 2],
    pub first_move_error: bool,
    pub next_stage: bool,
    pub sfen: String,
}

/// A fight-stage move as broadcast to the match's watchers.
pub struct MovePiece {
    pub t: MessageType,
    pub clocks: [u64; 2],
    pub status: i32,
    pub result: u8,
    pub game_move: String,
}

/// Announcement that both seats are taken and the clock runs.
pub struct StartClock {
    pub t: MessageType,
    pub players: [String; 2],
    pub click: u64,
}

/// Count of connected players.
pub struct PlayersCount {
    pub count: u64,
    pub t: MessageType,
}

/// A hint to one player that their match was spawned.
pub struct RedirectPlayer {
    pub t: MessageType,
    pub game: String,
}

/// Count of live games, broadcast to the home room.
pub struct GamesCount {
    pub t: MessageType,
    pub count: u64,
}

/// One game's card on the TV surface.
pub struct TvGame {
    pub t: String,
    pub game_id: String,
    pub w: String,
    pub b: String,
    pub sfen: String,
}

impl TvGame {
    pub fn new(t: &str, game_id: &str, w: &str, b: &str, fen: &str) -> (r: TvGame)
        ensures
            r.t@ == t@,
            r.game_id@ == game_id@,
            r.w@ == w@,
            r.b@ == b@,
            r.sfen@ == fen@,
    {
        TvGame {
            t: String::from_str(t),
            game_id: String::from_str(game_id),
            w: String::from_str(w),
            b: String::from_str(b),
            sfen: String::from_str(fen),
        }
    }
}

/// A new game appearing on TV.
pub struct NewTvGame {
    pub t: MessageType,
    pub game: RedirectToPlacement,
}

/// A game leaving TV.
pub struct RemoveTvGame {
    pub t: MessageType,
    pub game: String,
}

/// A move on a TV game.
pub struct NewTvMove {
    pub t: MessageType,
    pub game: String,
    pub game_move: String,
}

/// The full TV set, sent to one observer.
pub struct AllGames {
    pub t: MessageType,
    pub games: Vec<RedirectToPlacement>,
}

} // verus!
