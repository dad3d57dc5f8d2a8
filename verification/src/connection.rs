//! The per-connection room router: which room a client is in, and
//! which frames are forwarded where.

use vstd::prelude::*;
use crate::messages::MessageType;

verus! {

/// The room a connection is bound to.
#[derive(Debug)]
pub enum CurrentRoom {
    NoRoom,
    Home,
    Tv,
    Game(String),
}

/// Room equality: same kind, and for games the same id.
pub open spec fn spec_room_eq(a: CurrentRoom, b: CurrentRoom) -> bool {
    match (a, b) {
        (CurrentRoom::NoRoom, CurrentRoom::NoRoom) => true,
        (CurrentRoom::Home, CurrentRoom::Home) => true,
        (CurrentRoom::Tv, CurrentRoom::Tv) => true,
        (CurrentRoom::Game(x), CurrentRoom::Game(y)) => x@ == y@,
        _ => false,
    }
}

impl CurrentRoom {
    /// Whether `other` is the same room.
    pub fn same_room(&self, other: &CurrentRoom) -> (r: bool)
        ensures
            r == spec_room_eq(*self, *other),
    {
        match (self, other) {
            (CurrentRoom::NoRoom, CurrentRoom::NoRoom) => true,
            (CurrentRoom::Home, CurrentRoom::Home) => true,
            (CurrentRoom::Tv, CurrentRoom::Tv) => true,
            (CurrentRoom::Game(x), CurrentRoom::Game(y)) => *x == *y,
            _ => false,
        }
    }

    /// A field-for-field copy.
    pub fn duplicate(&self) -> (r: CurrentRoom)
        ensures
            spec_room_eq(r, *self),
    {
        match self {
            CurrentRoom::NoRoom => CurrentRoom::NoRoom,
            CurrentRoom::Home => CurrentRoom::Home,
            CurrentRoom::Tv => CurrentRoom::Tv,
            CurrentRoom::Game(id) => CurrentRoom::Game(id.clone()),
        }
    }
}

/// The room a route string names: `home`, `tv`, or `/game/<id>`;
/// anything else is no room.
pub fn room_from_route(value: &String) -> (r: CurrentRoom)
    ensures
        value@ == "home"@ ==> r is Home,
        value@ == "tv"@ ==> r is Tv,
        value@ != "home"@ && value@ != "tv"@ ==> {
            if value@.len() >= 6 && value@.subrange(0, 6) == "/game/"@ {
                r matches CurrentRoom::Game(id) && id@ == value@.subrange(6, value@.len() as int)
            } else {
                r is NoRoom
            }
        },
{
    proof {
        reveal_strlit("home");
        reveal_strlit("tv");
        reveal_strlit("/game/");
    }
    let home = String::from_str("home");
    proof {
        assert("home"@.len() == 4);
        assert("tv"@.len() == 2);
    }
    if *value == home {
        return CurrentRoom::Home;
    }
    let tvs = String::from_str("tv");
    if *value == tvs {
        return CurrentRoom::Tv;
    }
    let n = value.as_str().unicode_len();
    if n >= 6 {
        let prefix = value.as_str().substring_char(0, 6);
        let game_prefix = String::from_str("/game/");
        if String::from_str(prefix) == game_prefix {
            let id = value.as_str().substring_char(6, n);
            return CurrentRoom::Game(String::from_str(id));
        }
    }
    CurrentRoom::NoRoom
}

/// The routing state of one connection.
pub struct ConnectionState {
    pub room: CurrentRoom,
    /// Whether a game mailbox is bound.
    pub in_game: bool,
}

impl ConnectionState {
    pub fn new() -> (c: ConnectionState)
        ensures
            c.room is NoRoom,
            !c.in_game,
    {
        ConnectionState { room: CurrentRoom::NoRoom, in_game: false }
    }

    /// A room change: the same room is kept silently; else the old
    /// room is handed back so the runtime can unsubscribe there, the
    /// new room is installed, and any game binding is dropped until
    /// the new game mailbox is found.
    pub fn change_room(&mut self, new_room: CurrentRoom) -> (left: Option<CurrentRoom>)
        ensures
            spec_room_eq(old(self).room, new_room) ==> left is None && *final(self) == *old(self),
            !spec_room_eq(old(self).room, new_room) ==> {
                &&& left matches Some(l) && spec_room_eq(l, old(self).room)
                &&& spec_room_eq(final(self).room, new_room)
                &&& !final(self).in_game
            },
    {
        if self.room.same_room(&new_room) {
            return None;
        }
        let left = self.room.duplicate();
        self.room = new_room;
        self.in_game = false;
        Some(left)
    }

    /// The games registry answered a mailbox lookup.
    pub fn bind_game(&mut self, found: bool)
        ensures
            final(self).in_game == found,
            final(self).room == old(self).room,
    {
        self.in_game = found;
    }

    /// Whether a client frame of this tag may be forwarded: challenges
    /// only from home, game frames only with a bound game, TV requests
    /// only from the TV room, and the shutdown order only from the
    /// operator.
    pub fn forward_allowed(&self, t: &MessageType, is_operator: bool) -> (r: bool)
        ensures
            r == match *t {
                MessageType::AddGameRequest => self.room is Home,
                MessageType::GetHand => self.in_game,
                MessageType::SelectMove => self.in_game,
                MessageType::PlacePiece => self.in_game,
                MessageType::MovePiece => self.in_game,
                MessageType::ConfirmSelection => self.in_game,
                MessageType::Draw => self.in_game,
                MessageType::Resign => self.in_game,
                MessageType::GetTv => self.room is Tv,
                MessageType::SaveState => is_operator,
                _ => false,
            },
    {
        match t {
            MessageType::AddGameRequest => self.room.is_home(),
            MessageType::GetHand => self.in_game,
            MessageType::SelectMove => self.in_game,
            MessageType::PlacePiece => self.in_game,
            MessageType::MovePiece => self.in_game,
            MessageType::ConfirmSelection => self.in_game,
            MessageType::Draw => self.in_game,
            MessageType::Resign => self.in_game,
            MessageType::GetTv => self.room.is_tv(),
            MessageType::SaveState => is_operator,
            _ => false,
        }
    }
}

impl CurrentRoom {
    fn is_home(&self) -> (r: bool)
        ensures
            r == (*self is Home),
    {
        match self {
            CurrentRoom::Home => true,
            _ => false,
        }
    }

    fn is_tv(&self) -> (r: bool)
        ensures
            r == (*self is Tv),
    {
        match self {
            CurrentRoom::Tv => true,
            _ => false,
        }
    }
}

} // verus!
