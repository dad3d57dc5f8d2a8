//! Verified string building: case mapping for piece letters, the
//! cleaners applied to encoded identifiers, comma splitting for the
//! pocket presets, and decimal rendering.

use vstd::prelude::*;

verus! {

/// Relies on String::push: appends the given char to the end of the
/// string.
#[verifier::external_body]
pub fn push_char(s: &mut String, c: char)
    ensures
        final(s)@ == old(s)@.push(c),
{
    s.push(c);
}

/// Uppercase of an ASCII letter; anything else is itself.
pub open spec fn spec_ascii_upper(c: char) -> char {
    match c {
        'a' => 'A',
        'b' => 'B',
        'c' => 'C',
        'd' => 'D',
        'e' => 'E',
        'f' => 'F',
        'g' => 'G',
        'h' => 'H',
        'i' => 'I',
        'j' => 'J',
        'k' => 'K',
        'l' => 'L',
        'm' => 'M',
        'n' => 'N',
        'o' => 'O',
        'p' => 'P',
        'q' => 'Q',
        'r' => 'R',
        's' => 'S',
        't' => 'T',
        'u' => 'U',
        'v' => 'V',
        'w' => 'W',
        'x' => 'X',
        'y' => 'Y',
        'z' => 'Z',
        _ => c,
    }
}

/// Lowercase of an ASCII letter; anything else is itself.
pub open spec fn spec_ascii_lower(c: char) -> char {
    match c {
        'A' => 'a',
        'B' => 'b',
        'C' => 'c',
        'D' => 'd',
        'E' => 'e',
        'F' => 'f',
        'G' => 'g',
        'H' => 'h',
        'I' => 'i',
        'J' => 'j',
        'K' => 'k',
        'L' => 'l',
        'M' => 'm',
        'N' => 'n',
        'O' => 'o',
        'P' => 'p',
        'Q' => 'q',
        'R' => 'r',
        'S' => 's',
        'T' => 't',
        'U' => 'u',
        'V' => 'v',
        'W' => 'w',
        'X' => 'x',
        'Y' => 'y',
        'Z' => 'z',
        _ => c,
    }
}

/// [`spec_ascii_upper`] over a whole text.
pub open spec fn spec_upper_text(s: Seq<char>) -> Seq<char>
    decreases s.len(),
{
    if s.len() == 0 {
        Seq::empty()
    } else {
        spec_upper_text(s.drop_last()).push(spec_ascii_upper(s.last()))
    }
}

/// [`spec_ascii_lower`] over a whole text.
pub open spec fn spec_lower_text(s: Seq<char>) -> Seq<char>
    decreases s.len(),
{
    if s.len() == 0 {
        Seq::empty()
    } else {
        spec_lower_text(s.drop_last()).push(spec_ascii_lower(s.last()))
    }
}

fn upper_char(c: char) -> (r: char)
    ensures
        r == spec_ascii_upper(c),
{
    match c {
        'a' => 'A',
        'b' => 'B',
        'c' => 'C',
        'd' => 'D',
        'e' => 'E',
        'f' => 'F',
        'g' => 'G',
        'h' => 'H',
        'i' => 'I',
        'j' => 'J',
        'k' => 'K',
        'l' => 'L',
        'm' => 'M',
        'n' => 'N',
        'o' => 'O',
        'p' => 'P',
        'q' => 'Q',
        'r' => 'R',
        's' => 'S',
        't' => 'T',
        'u' => 'U',
        'v' => 'V',
        'w' => 'W',
        'x' => 'X',
        'y' => 'Y',
        'z' => 'Z',
        _ => c,
    }
}

fn lower_char(c: char) -> (r: char)
    ensures
        r == spec_ascii_lower(c),
{
    match c {
        'A' => 'a',
        'B' => 'b',
        'C' => 'c',
        'D' => 'd',
        'E' => 'e',
        'F' => 'f',
        'G' => 'g',
        'H' => 'h',
        'I' => 'i',
        'J' => 'j',
        'K' => 'k',
        'L' => 'l',
        'M' => 'm',
        'N' => 'n',
        'O' => 'o',
        'P' => 'p',
        'Q' => 'q',
        'R' => 'r',
        'S' => 's',
        'T' => 't',
        'U' => 'u',
        'V' => 'v',
        'W' => 'w',
        'X' => 'x',
        'Y' => 'y',
        'Z' => 'z',
        _ => c,
    }
}

/// ASCII-uppercase every letter of `s`.
pub fn to_upper(s: &String) -> (r: String)
    ensures
        r@ == spec_upper_text(s@),
{
    let n = s.as_str().unicode_len();
    let mut r = String::new();
    let mut i: usize = 0;
    while i < n
        invariant
            n == s@.len(),
            i <= n,
            r@ == spec_upper_text(s@.take(i as int)),
        decreases n - i,
    {
        let c = s.as_str().get_char(i);
        push_char(&mut r, upper_char(c));
        proof {
            assert(s@.take(i + 1).drop_last() =~= s@.take(i as int));
            assert(s@.take(i + 1).last() == s@[i as int]);
        }
        i += 1;
    }
    proof {
        assert(s@.take(n as int) =~= s@);
    }
    r
}

/// ASCII-lowercase every letter of `s`.
pub fn to_lower(s: &String) -> (r: String)
    ensures
        r@ == spec_lower_text(s@),
{
    let n = s.as_str().unicode_len();
    let mut r = String::new();
    let mut i: usize = 0;
    while i < n
        invariant
            n == s@.len(),
            i <= n,
            r@ == spec_lower_text(s@.take(i as int)),
        decreases n - i,
    {
        let c = s.as_str().get_char(i);
        push_char(&mut r, lower_char(c));
        proof {
            assert(s@.take(i + 1).drop_last() =~= s@.take(i as int));
            assert(s@.take(i + 1).last() == s@[i as int]);
        }
        i += 1;
    }
    proof {
        assert(s@.take(n as int) =~= s@);
    }
    r
}

/// The URL-safe reading of a standard base64 text: `+` becomes `-`,
/// `/` becomes `_`, and the `=` padding is dropped.
pub open spec fn spec_url_safe(s: Seq<char>) -> Seq<char>
    decreases s.len(),
{
    if s.len() == 0 {
        Seq::empty()
    } else {
        let done = spec_url_safe(s.drop_last());
        if s.last() == '=' {
            done
        } else if s.last() == '+' {
            done.push('-')
        } else if s.last() == '/' {
            done.push('_')
        } else {
            done.push(s.last())
        }
    }
}

/// Apply the URL-safe reading to a base64 text.
pub fn url_safe(s: &String) -> (r: String)
    ensures
        r@ == spec_url_safe(s@),
{
    let n = s.as_str().unicode_len();
    let mut r = String::new();
    let mut i: usize = 0;
    while i < n
        invariant
            n == s@.len(),
            i <= n,
            r@ == spec_url_safe(s@.take(i as int)),
        decreases n - i,
    {
        let c = s.as_str().get_char(i);
        if c == '+' {
            push_char(&mut r, '-');
        } else if c == '/' {
            push_char(&mut r, '_');
        } else if c != '=' {
            push_char(&mut r, c);
        }
        proof {
            assert(s@.take(i + 1).drop_last() =~= s@.take(i as int));
            assert(s@.take(i + 1).last() == s@[i as int]);
        }
        i += 1;
    }
    proof {
        assert(s@.take(n as int) =~= s@);
    }
    r
}

/// Whether a char survives the alphanumeric strip: the base64 specials
/// and the URL-safe substitutes all fall.
pub open spec fn spec_alnum_keep(c: char) -> bool {
    c != '+' && c != '/' && c != '=' && c != '-' && c != '_'
}

/// `s` without `+`, `/`, `=`, `-` and `_`: what a base64 text keeps of
/// its alphanumerics.
pub open spec fn spec_strip_specials(s: Seq<char>) -> Seq<char>
    decreases s.len(),
{
    if s.len() == 0 {
        Seq::empty()
    } else {
        let done = spec_strip_specials(s.drop_last());
        if spec_alnum_keep(s.last()) {
            done.push(s.last())
        } else {
            done
        }
    }
}

/// Strip the base64 specials out of `s`.
pub fn strip_specials(s: &String) -> (r: String)
    ensures
        r@ == spec_strip_specials(s@),
{
    let n = s.as_str().unicode_len();
    let mut r = String::new();
    let mut i: usize = 0;
    while i < n
        invariant
            n == s@.len(),
            i <= n,
            r@ == spec_strip_specials(s@.take(i as int)),
        decreases n - i,
    {
        let c = s.as_str().get_char(i);
        if c != '+' && c != '/' && c != '=' && c != '-' && c != '_' {
            push_char(&mut r, c);
        }
        proof {
            assert(s@.take(i + 1).drop_last() =~= s@.take(i as int));
            assert(s@.take(i + 1).last() == s@[i as int]);
        }
        i += 1;
    }
    proof {
        assert(s@.take(n as int) =~= s@);
    }
    r
}

/// The comma-separated pieces of `s`: always at least one, each free
/// of commas, in text order.
pub open spec fn spec_split_commas(s: Seq<char>) -> Seq<Seq<char>>
    decreases s.len(),
{
    if s.len() == 0 {
        seq![Seq::empty()]
    } else {
        let done = spec_split_commas(s.drop_last());
        if s.last() == ',' {
            done.push(Seq::empty())
        } else {
            done.update(done.len() - 1, done.last().push(s.last()))
        }
    }
}

/// A non-empty split always stays non-empty.
pub proof fn lemma_split_commas_len(s: Seq<char>)
    ensures
        spec_split_commas(s).len() >= 1,
    decreases s.len(),
{
    if s.len() > 0 {
        lemma_split_commas_len(s.drop_last());
    }
}

/// Split `s` on commas.
pub fn split_commas(s: &String) -> (r: Vec<String>)
    ensures
        r@.map_values(|p: String| p@) == spec_split_commas(s@),
        r@.len() >= 1,
{
    let n = s.as_str().unicode_len();
    let mut r: Vec<String> = Vec::new();
    r.push(String::new());
    let mut i: usize = 0;
    proof {
        assert(r@.map_values(|p: String| p@) =~= spec_split_commas(s@.take(0)));
    }
    while i < n
        invariant
            n == s@.len(),
            i <= n,
            r@.len() >= 1,
            r@.map_values(|p: String| p@) == spec_split_commas(s@.take(i as int)),
        decreases n - i,
    {
        let c = s.as_str().get_char(i);
        let ghost prefix_split = spec_split_commas(s@.take(i as int));
        if c == ',' {
            r.push(String::new());
            proof {
                assert(r@.map_values(|p: String| p@) =~= prefix_split.push(Seq::empty()));
            }
        } else {
            let last = r.len() - 1;
            let mut piece = r.remove(last);
            push_char(&mut piece, c);
            r.push(piece);
            proof {
                assert(r@.map_values(|p: String| p@) =~= prefix_split.update(
                    prefix_split.len() - 1,
                    prefix_split.last().push(s@[i as int]),
                ));
            }
        }
        proof {
            assert(s@.take(i + 1).drop_last() =~= s@.take(i as int));
            assert(s@.take(i + 1).last() == s@[i as int]);
        }
        i += 1;
    }
    proof {
        assert(s@.take(n as int) =~= s@);
    }
    r
}

/// `s` without its spaces.
pub open spec fn spec_remove_spaces(s: Seq<char>) -> Seq<char>
    decreases s.len(),
{
    if s.len() == 0 {
        Seq::empty()
    } else {
        let done = spec_remove_spaces(s.drop_last());
        if s.last() == ' ' {
            done
        } else {
            done.push(s.last())
        }
    }
}

/// Strip the spaces out of `s`.
pub fn remove_spaces(s: &String) -> (r: String)
    ensures
        r@ == spec_remove_spaces(s@),
{
    let n = s.as_str().unicode_len();
    let mut r = String::new();
    let mut i: usize = 0;
    while i < n
        invariant
            n == s@.len(),
            i <= n,
            r@ == spec_remove_spaces(s@.take(i as int)),
        decreases n - i,
    {
        let c = s.as_str().get_char(i);
        if c != ' ' {
            push_char(&mut r, c);
        }
        proof {
            assert(s@.take(i + 1).drop_last() =~= s@.take(i as int));
            assert(s@.take(i + 1).last() == s@[i as int]);
        }
        i += 1;
    }
    proof {
        assert(s@.take(n as int) =~= s@);
    }
    r
}

/// The decimal digit `d` reads as.
pub open spec fn spec_digit(d: int) -> char {
    if d == 0 {
        '0'
    } else if d == 1 {
        '1'
    } else if d == 2 {
        '2'
    } else if d == 3 {
        '3'
    } else if d == 4 {
        '4'
    } else if d == 5 {
        '5'
    } else if d == 6 {
        '6'
    } else if d == 7 {
        '7'
    } else if d == 8 {
        '8'
    } else {
        '9'
    }
}

/// The decimal text of `n`, most significant digit first.
pub open spec fn spec_decimal(n: int) -> Seq<char>
    decreases n,
{
    if n < 10 {
        seq![spec_digit(n)]
    } else {
        spec_decimal(n / 10).push(spec_digit(n % 10))
    }
}

/// Render `n` in decimal.
pub fn u64_to_string(n: u64) -> (r: String)
    ensures
        r@ == spec_decimal(n as int),
    decreases n,
{
    let d: u64 = n % 10;
    let c: char = match d {
        0 => '0',
        1 => '1',
        2 => '2',
        3 => '3',
        4 => '4',
        5 => '5',
        6 => '6',
        7 => '7',
        8 => '8',
        _ => '9',
    };
    proof {
        assert(c == spec_digit(d as int));
    }
    if n < 10 {
        let mut r = String::new();
        push_char(&mut r, c);
        proof {
            assert(r@ =~= seq![spec_digit(n as int)]);
        }
        r
    } else {
        let mut r = u64_to_string(n / 10);
        push_char(&mut r, c);
        r
    }
}

} // verus!
