//! Random identifiers: anonymous usernames and game ids.
//!
//! Both come from random bytes through standard base64, then a cleaner
//! keeps what the identifier may carry.

use vstd::prelude::*;
use base64::Engine;
use crate::strutil::{spec_strip_specials, strip_specials};

verus! {

/// What base64's standard alphabet encodes `bytes` as. The text is a
/// function of the bytes alone.
pub uninterp spec fn b64_of(bytes: Seq<u8>) -> Seq<char>;

/// Relies on base64's STANDARD engine: encodes the bytes into four
/// characters per three-byte block, padded; an empty input encodes as
/// the empty text.
#[verifier::external_body]
pub fn b64_standard(bytes: &Vec<u8>) -> (r: String)
    ensures
        r@ == b64_of(bytes@),
        r@.len() == ((bytes@.len() + 2) / 3) * 4,
{
    base64::engine::general_purpose::STANDARD.encode(bytes)
}

/// Relies on rand::fill: fills the buffer with random bytes, leaving
/// its length alone. Nothing is promised of the values.
#[verifier::external_body]
pub fn random_bytes(n: usize) -> (r: Vec<u8>)
    ensures
        r@.len() == n,
{
    let mut v = vec![0u8; n];
    rand::fill(&mut v[..]);
    v
}

/// Base64 characters an anonymous username drops: the two specials of
/// the standard alphabet and the padding.
pub open spec fn spec_username_keep(c: char) -> bool {
    c != '+' && c != '/' && c != '='
}

/// `s` without `+`, `/` and `=`.
pub open spec fn spec_clean_username(s: Seq<char>) -> Seq<char>
    decreases s.len(),
{
    if s.len() == 0 {
        Seq::empty()
    } else {
        let done = spec_clean_username(s.drop_last());
        if spec_username_keep(s.last()) {
            done.push(s.last())
        } else {
            done
        }
    }
}

fn clean_username(s: &String) -> (r: String)
    ensures
        r@ == spec_clean_username(s@),
{
    let n = s.as_str().unicode_len();
    let mut r = String::new();
    let mut i: usize = 0;
    while i < n
        invariant
            n == s@.len(),
            i <= n,
            r@ == spec_clean_username(s@.take(i as int)),
        decreases n - i,
    {
        let c = s.as_str().get_char(i);
        if c != '+' && c != '/' && c != '=' {
            crate::strutil::push_char(&mut r, c);
        }
        proof {
            assert(s@.take(i + 1).drop_last() =~= s@.take(i as int));
            assert(s@.take(i + 1).last() == s@[i as int]);
        }
        i += 1;
    }
    proof {
        assert(s@.take(n as int) =~= s@);
    }
    r
}

/// The anonymous username minted from six given bytes.
pub fn username_from(bytes: &Vec<u8>) -> (r: String)
    ensures
        r@ == "Anon-"@ + spec_clean_username(b64_of(bytes@)),
{
    let mut r = String::from_str("Anon-");
    let encoded = b64_standard(bytes);
    let cleaned = clean_username(&encoded);
    r.append(cleaned.as_str());
    r
}

/// A fresh anonymous username: `Anon-` and the cleaned base64 of six
/// random bytes.
pub fn random_username() -> (r: String)
    ensures
        exists|bytes: Seq<u8>|
            bytes.len() == 6 && r@ == "Anon-"@ + spec_clean_username(#[trigger] b64_of(bytes)),
{
    let bytes = random_bytes(6);
    let r = username_from(&bytes);
    proof {
        assert(bytes@.len() == 6 && r@ == "Anon-"@ + spec_clean_username(b64_of(bytes@)));
    }
    r
}

/// The game id minted from nine given bytes: only the alphanumerics of
/// their base64 survive.
pub fn game_id_from(bytes: &Vec<u8>) -> (r: String)
    ensures
        r@ == spec_strip_specials(b64_of(bytes@)),
{
    let encoded = b64_standard(bytes);
    strip_specials(&encoded)
}

/// A fresh game id: the base64 of nine random bytes, stripped of
/// everything but alphanumerics.
pub fn random_game_id() -> (r: String)
    ensures
        exists|bytes: Seq<u8>|
            bytes.len() == 9 && r@ == spec_strip_specials(#[trigger] b64_of(bytes)),
{
    let bytes = random_bytes(9);
    let r = game_id_from(&bytes);
    proof {
        assert(bytes@.len() == 9 && r@ == spec_strip_specials(b64_of(bytes@)));
    }
    r
}

} // verus!
