//! Decisions of the built-in opponent.
//!
//! The engine work — searching, querying legal placements — lives with
//! the runtime; here stand the choices: the search depth, the pocket
//! preset, the selection script, the placement pick, and the reply
//! when no move is left.

use vstd::prelude::*;
use crate::requests::Variant;
use crate::strutil::{
    push_char, spec_lower_text, spec_split_commas, spec_upper_text, split_commas, to_lower,
    to_upper,
};

verus! {

/// The hand presets the engine may select from, one list per variant.
pub struct Pockets {
    pub mini: Vec<String>,
    pub mini_fairy: Vec<String>,
    pub standard: Vec<String>,
    pub standard_fairy: Vec<String>,
    pub large: Vec<String>,
    pub large_fairy: Vec<String>,
}

impl Pockets {
    /// Split one configured preset line on commas.
    pub fn add_items(pockets: String) -> (r: Vec<String>)
        ensures
            r@.map_values(|p: String| p@) == spec_split_commas(pockets@),
            r@.len() >= 1,
    {
        split_commas(&pockets)
    }

    /// Build the presets from the six configured lines.
    pub fn from_config(mini: String, mini_fairy: String, standard: String, standard_fairy:
        String, large: String, large_fairy: String) -> (r: Pockets)
        ensures
            r.mini@.map_values(|p: String| p@) == spec_split_commas(mini@),
            r.mini_fairy@.map_values(|p: String| p@) == spec_split_commas(mini_fairy@),
            r.standard@.map_values(|p: String| p@) == spec_split_commas(standard@),
            r.standard_fairy@.map_values(|p: String| p@) == spec_split_commas(standard_fairy@),
            r.large@.map_values(|p: String| p@) == spec_split_commas(large@),
            r.large_fairy@.map_values(|p: String| p@) == spec_split_commas(large_fairy@),
    {
        Pockets {
            mini: Pockets::add_items(mini),
            mini_fairy: Pockets::add_items(mini_fairy),
            standard: Pockets::add_items(standard),
            standard_fairy: Pockets::add_items(standard_fairy),
            large: Pockets::add_items(large),
            large_fairy: Pockets::add_items(large_fairy),
        }
    }

    /// The preset list of a variant.
    pub fn list_for(&self, variant: Variant) -> (r: &Vec<String>)
        ensures
            variant == Variant::Shuuro ==> r == &self.large,
            variant == Variant::ShuuroFairy ==> r == &self.large_fairy,
            variant == Variant::Standard ==> r == &self.standard,
            variant == Variant::StandardFairy ==> r == &self.standard_fairy,
            variant == Variant::ShuuroMini ==> r == &self.mini,
            variant == Variant::ShuuroMiniFairy ==> r == &self.mini_fairy,
    {
        match variant {
            Variant::Shuuro => &self.large,
            Variant::ShuuroFairy => &self.large_fairy,
            Variant::Standard => &self.standard,
            Variant::StandardFairy => &self.standard_fairy,
            Variant::ShuuroMini => &self.mini,
            Variant::ShuuroMiniFairy => &self.mini_fairy,
        }
    }
}

/// The search depth actually used: out-of-range asks fall back to 1,
/// and depth 3 on the largest boards is downgraded to 2.
pub fn clamp_depth(depth: u8, variant: Variant) -> (d: u8)
    ensures
        depth > 3 ==> d == 1,
        depth == 3 && (variant == Variant::Shuuro || variant == Variant::ShuuroFairy) ==> d == 2,
        depth == 3 && !(variant == Variant::Shuuro || variant == Variant::ShuuroFairy) ==> d == 3,
        depth < 3 ==> d == depth,
{
    if depth > 3 {
        1
    } else if depth == 3 && (matches!(variant, Variant::Shuuro) || matches!(
        variant,
        Variant::ShuuroFairy,
    )) {
        2
    } else {
        depth
    }
}

/// A hand as one side writes it: upper case for white, lower for
/// black.
pub fn uppercase(hand: &String, player: u8) -> (r: String)
    ensures
        player == 0 ==> r@ == spec_upper_text(hand@),
        player != 0 ==> r@ == spec_lower_text(hand@),
{
    if player == 0 {
        to_upper(hand)
    } else {
        to_lower(hand)
    }
}

/// Pick the hand preset: entry `r % len` of the list, written for
/// `player`'s side. Nothing to pick from an empty list.
pub fn pick_pocket(list: &Vec<String>, r: usize, player: u8) -> (hand: Option<String>)
    ensures
        hand is Some <==> list@.len() > 0,
        hand matches Some(h) ==> {
            let chosen = list@[r as int % list@.len() as int]@;
            &&& (player == 0 ==> h@ == spec_upper_text(chosen))
            &&& (player != 0 ==> h@ == spec_lower_text(chosen))
        },
{
    if list.len() == 0 {
        return None;
    }
    Some(uppercase(&list[r % list.len()], player))
}

/// The selection script for a hand: one select move per piece letter,
/// then the confirm.
pub fn selection_moves(hand: &String) -> (r: Vec<String>)
    ensures
        r@.len() == hand@.len() + 1,
        forall|i: int|
            0 <= i < hand@.len() ==> #[trigger] r@[i]@ == Seq::<char>::empty().push('+').push(
                hand@[i],
            ),
        r@[hand@.len() as int]@ == "c"@,
{
    let n = hand.as_str().unicode_len();
    let mut r: Vec<String> = Vec::new();
    let mut i: usize = 0;
    while i < n
        invariant
            n == hand@.len(),
            i <= n,
            r@.len() == i,
            forall|k: int|
                0 <= k < i ==> #[trigger] r@[k]@ == Seq::<char>::empty().push('+').push(hand@[k]),
        decreases n - i,
    {
        let c = hand.as_str().get_char(i);
        let mut m = String::new();
        push_char(&mut m, '+');
        push_char(&mut m, c);
        r.push(m);
        i += 1;
    }
    r.push(String::from_str("c"));
    r
}

/// A placement pick from the oracle's legal options: kind `r1 % kinds`,
/// then square `r2 % squares`, written as `piece@square`. No options
/// means no move: the engine resigns.
pub fn choose_placement(options: &Vec<(String, Vec<String>)>, r1: usize, r2: usize) -> (mv:
    Option<String>)
    ensures
        options@.len() == 0 ==> mv is None,
        options@.len() > 0 ==> {
            let pick = options@[r1 as int % options@.len() as int];
            &&& (pick.1@.len() == 0 ==> mv is None)
            &&& (pick.1@.len() > 0 ==> (mv matches Some(m) && m@ == pick.0@ + "@"@ + pick.1@[
                r2 as int % pick.1@.len() as int
            ]@))
        },
{
    if options.len() == 0 {
        return None;
    }
    let pick = &options[r1 % options.len()];
    if pick.1.len() == 0 {
        return None;
    }
    let square = &pick.1[r2 % pick.1.len()];
    let mut m = pick.0.clone();
    m.append("@");
    m.append(square.as_str());
    Some(m)
}

/// What the engine answers once a search came back.
pub enum AiAction {
    /// Send this move to the match.
    Play(String),
    /// No move was found: resign.
    Resign,
}

/// The reply to a finished search: play the found move, or resign.
pub fn fight_reply(best: Option<String>) -> (r: AiAction)
    ensures
        best matches Some(m) ==> (r matches AiAction::Play(p) && p == m),
        best is None ==> r is Resign,
{
    match best {
        Some(m) => AiAction::Play(m),
        None => AiAction::Resign,
    }
}

} // verus!
