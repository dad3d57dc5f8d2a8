//! Open challenges: what a player may ask for and how seats are dealt.

use vstd::prelude::*;

verus! {

/// Board-size and piece-set combination of a match.
#[derive(Clone, Copy, Debug, PartialEq, Eq, Structural)]
pub enum Variant {
    Shuuro,
    ShuuroFairy,
    Standard,
    StandardFairy,
    ShuuroMini,
    ShuuroMiniFairy,
}

/// The stable number each variant is stored and sent as.
pub open spec fn spec_variant_index(v: Variant) -> u8 {
    match v {
        Variant::Shuuro => 0,
        Variant::ShuuroFairy => 1,
        Variant::Standard => 2,
        Variant::StandardFairy => 3,
        Variant::ShuuroMini => 4,
        Variant::ShuuroMiniFairy => 5,
    }
}

impl Variant {
    /// The number this variant is stored and sent as.
    pub fn index(&self) -> (n: u8)
        ensures
            n == spec_variant_index(*self),
    {
        match self {
            Variant::Shuuro => 0,
            Variant::ShuuroFairy => 1,
            Variant::Standard => 2,
            Variant::StandardFairy => 3,
            Variant::ShuuroMini => 4,
            Variant::ShuuroMiniFairy => 5,
        }
    }

    /// The variant stored under `n`; an unknown number reads as `Shuuro`.
    pub fn from_index(n: u8) -> (v: Variant)
        ensures
            n <= 5 ==> spec_variant_index(v) == n,
            n > 5 ==> v == Variant::Shuuro,
    {
        match n {
            0 => Variant::Shuuro,
            1 => Variant::ShuuroFairy,
            2 => Variant::Standard,
            3 => Variant::StandardFairy,
            4 => Variant::ShuuroMini,
            5 => Variant::ShuuroMiniFairy,
            _ => Variant::Shuuro,
        }
    }

    /// Side length of the board this variant is played on.
    pub fn board_size(&self) -> (n: u8)
        ensures
            (*self == Variant::Shuuro || *self == Variant::ShuuroFairy) ==> n == 12,
            (*self == Variant::Standard || *self == Variant::StandardFairy) ==> n == 8,
            (*self == Variant::ShuuroMini || *self == Variant::ShuuroMiniFairy) ==> n == 6,
    {
        match self {
            Variant::Shuuro | Variant::ShuuroFairy => 12,
            Variant::Standard | Variant::StandardFairy => 8,
            Variant::ShuuroMini | Variant::ShuuroMiniFairy => 6,
        }
    }
}

/// Who the challenger wants to face: a named friend, or the built-in
/// engine at a search depth.
#[derive(Clone, Debug, PartialEq, Eq)]
pub enum TypeOfGame {
    VsFriend(String),
    VsAi(u8),
}

/// The opponent a challenge resolves to: the friend's name, or "AI"
/// for an engine game.
pub open spec fn spec_opponent_name(t: TypeOfGame) -> Seq<char> {
    match t {
        TypeOfGame::VsFriend(n) => n@,
        TypeOfGame::VsAi(_) => "AI"@,
    }
}

impl TypeOfGame {
    /// The opponent's seat name: the friend's name, or "AI".
    pub fn player_name(&self) -> (r: String)
        ensures
            r@ == spec_opponent_name(*self),
    {
        match self {
            TypeOfGame::VsFriend(name) => name.clone(),
            TypeOfGame::VsAi(_) => String::from_str("AI"),
        }
    }

    /// The opponent's seat name as a match actor expects it: the
    /// friend's name without spaces, or "AI".
    pub fn seat_name(&self) -> (r: String)
        ensures
            self matches TypeOfGame::VsFriend(n) ==> r@
                == crate::strutil::spec_remove_spaces(n@),
            self is VsAi ==> r@ == "AI"@,
    {
        match self {
            TypeOfGame::VsFriend(name) => crate::strutil::remove_spaces(name),
            TypeOfGame::VsAi(_) => String::from_str("AI"),
        }
    }

    /// Search depth asked of the engine; zero against a human.
    pub fn depth(&self) -> (d: u8)
        ensures
            *self is VsFriend ==> d == 0,
            self matches TypeOfGame::VsAi(k) ==> d == k,
    {
        match self {
            TypeOfGame::VsFriend(_) => 0,
            TypeOfGame::VsAi(depth) => *depth,
        }
    }
}

/// Whether `m` minutes is one of the durations a challenge may name.
pub open spec fn spec_duration_allowed(m: int) -> bool {
    (1 <= m <= 20) || m == 25 || m == 30 || m == 35 || m == 40 || m == 45 || m == 60 || m == 75
        || m == 90
}

/// Exec twin of [`spec_duration_allowed`].
pub fn duration_allowed(m: i64) -> (r: bool)
    ensures
        r == spec_duration_allowed(m as int),
{
    (1 <= m && m <= 20) || m == 25 || m == 30 || m == 35 || m == 40 || m == 45 || m == 60 || m
        == 75 || m == 90
}

/// An open challenge.
pub struct GameRequest {
    /// Main time, minutes.
    pub minutes: i64,
    /// Increment per move, seconds.
    pub incr: i64,
    pub variant: Variant,
    /// Index of a sub-variant with a preset starting stage, if any.
    pub sub_variant: Option<u8>,
    /// Preferred color: 0 white, 1 black, anything else random.
    pub color: u8,
    pub game_type: TypeOfGame,
}

impl GameRequest {
    /// A challenge is valid when its main time is in the allowed set and
    /// its increment is in the allowed set or zero.
    pub fn is_valid(&self) -> (r: bool)
        ensures
            r == (spec_duration_allowed(self.minutes as int) && (spec_duration_allowed(
                self.incr as int,
            ) || self.incr == 0)),
    {
        duration_allowed(self.minutes) && (duration_allowed(self.incr) || self.incr == 0)
    }

    /// Deal the seats for a known coin: heads gives the caller white.
    /// A declared preference beats the coin.
    pub fn colors_with(&self, player: &String, other: &String, coin: bool) -> (r: [String; 2])
        ensures
            self.color == 0 ==> r[0]@ == player@ && r[1]@ == other@,
            self.color == 1 ==> r[0]@ == other@ && r[1]@ == player@,
            self.color > 1 && coin ==> r[0]@ == player@ && r[1]@ == other@,
            self.color > 1 && !coin ==> r[0]@ == other@ && r[1]@ == player@,
    {
        let white_caller: bool = if self.color == 0 {
            true
        } else if self.color == 1 {
            false
        } else {
            coin
        };
        if white_caller {
            [player.clone(), other.clone()]
        } else {
            [other.clone(), player.clone()]
        }
    }

    /// Deal the seats: a declared preference is honoured, otherwise a
    /// coin is tossed. Each player lands on exactly one seat.
    pub fn colors(&self, player: &String, other: &String) -> (r: [String; 2])
        ensures
            self.color == 0 ==> r[0]@ == player@ && r[1]@ == other@,
            self.color == 1 ==> r[0]@ == other@ && r[1]@ == player@,
            (r[0]@ == player@ && r[1]@ == other@) || (r[0]@ == other@ && r[1]@ == player@),
    {
        let coin = random_bool();
        self.colors_with(player, other, coin)
    }

    /// The challenge a revived match is seeded with.
    pub fn empty() -> (r: GameRequest)
        ensures
            r.minutes == 1,
            r.incr == 1,
            r.variant == Variant::Shuuro,
            r.sub_variant is None,
            r.color == 2,
            r.game_type matches TypeOfGame::VsFriend(n) && n@ == Seq::<char>::empty(),
    {
        GameRequest {
            minutes: 1,
            incr: 1,
            variant: Variant::Shuuro,
            sub_variant: None,
            color: 2,
            game_type: TypeOfGame::VsFriend(String::new()),
        }
    }
}

/// Relies on rand::random::<bool>: a fair coin; nothing is promised of
/// the outcome.
#[verifier::external_body]
fn random_bool() -> bool {
    rand::random::<bool>()
}

/// Error type of a variant that cannot be decoded.
#[derive(Debug)]
pub struct VariantError {}

} // verus!
