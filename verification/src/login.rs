//! OAuth login helpers: the PKCE verifier and challenge, the token
//! shapes, and the server's own addresses.

use vstd::prelude::*;
use sha2::Digest;
use crate::ids::{b64_of, b64_standard, random_bytes};
use crate::strutil::{spec_url_safe, url_safe};

verus! {

/// The SHA-256 digest of a text. The digest is a function of the text
/// alone.
pub uninterp spec fn sha256_of(s: Seq<char>) -> Seq<u8>;

/// Relies on sha2's Sha256: digests the text's bytes into exactly 32
/// bytes.
#[verifier::external_body]
fn sha256(buffer: &String) -> (r: Vec<u8>)
    ensures
        r@ == sha256_of(buffer@),
        r@.len() == 32,
{
    sha2::Sha256::digest(buffer.as_bytes()).to_vec()
}

/// URL-safe base64 of `s`: standard base64 with `+` and `/` swapped
/// for `-` and `_`, and no padding.
pub fn base64_encode(s: &Vec<u8>) -> (r: String)
    ensures
        r@ == spec_url_safe(b64_of(s@)),
{
    let encoded = b64_standard(s);
    url_safe(&encoded)
}

/// A fresh PKCE code verifier: URL-safe base64 of 32 random bytes.
pub fn create_verifier() -> (r: String)
    ensures
        exists|bytes: Seq<u8>|
            bytes.len() == 32 && r@ == spec_url_safe(#[trigger] b64_of(bytes)),
{
    let bytes = random_bytes(32);
    let r = base64_encode(&bytes);
    proof {
        assert(bytes@.len() == 32 && r@ == spec_url_safe(b64_of(bytes@)));
    }
    r
}

/// The PKCE challenge of a verifier: URL-safe base64 of its SHA-256.
pub fn create_challenge(verifier: &String) -> (r: String)
    ensures
        r@ == spec_url_safe(b64_of(sha256_of(verifier@))),
{
    let digest = sha256(verifier);
    base64_encode(&digest)
}

/// The code pair posted back to the identity provider.
pub struct PostLoginToken {
    pub code: String,
    pub code_verifier: String,
}

impl PostLoginToken {
    pub fn new(code_verifier: &String, code: &String) -> (r: PostLoginToken)
        ensures
            r.code == code,
            r.code_verifier == code_verifier,
    {
        PostLoginToken { code: code.clone(), code_verifier: code_verifier.clone() }
    }
}

/// The access token the identity provider answers with.
pub struct Token {
    pub access_token: String,
    pub expires_in: i32,
}

impl Default for Token {
    fn default() -> (r: Token)
        ensures
            r.access_token@ == Seq::<char>::empty(),
            r.expires_in == 0,
    {
        Token { access_token: String::new(), expires_in: 0 }
    }
}

/// The account data the identity provider answers with.
pub struct LoginData {
    pub id: String,
    pub username: String,
}

/// The operator's key: whether this is the production host, and the
/// state string login requests must echo.
pub struct MyKey {
    pub prod: bool,
    pub login_state: String,
}

impl Default for MyKey {
    fn default() -> (r: MyKey)
        ensures
            !r.prod,
            r.login_state@ == "jeste"@,
    {
        MyKey { prod: false, login_state: String::from_str("jeste") }
    }
}

/// What can go wrong against the identity provider.
pub enum LichessError {
    NoToken,
    NoUsername,
}

impl LichessError {
    /// The text answered to the client.
    pub fn text(&self) -> (r: &'static str)
        ensures
            *self is NoToken ==> r@ == "no lichess token"@,
            *self is NoUsername ==> r@ == "account rejected"@,
    {
        match self {
            LichessError::NoToken => "no lichess token",
            LichessError::NoUsername => "account rejected",
        }
    }
}

/// This server's base addresses: the API host and the site host.
pub fn curr_url(prod: bool) -> (r: (&'static str, &'static str))
    ensures
        prod ==> r.0@ == "https://lishuuro.org/w"@ && r.1@ == "https://lishuuro.org"@,
        !prod ==> r.0@ == "http://localhost:8080"@ && r.1@ == "http://localhost:3000"@,
{
    if prod {
        ("https://lishuuro.org/w", "https://lishuuro.org")
    } else {
        ("http://localhost:8080", "http://localhost:3000")
    }
}

/// The frontend addresses the HTTP layer redirects to.
pub fn prod_url(prod: bool, vue: bool) -> (r: (&'static str, &'static str))
    ensures
        prod ==> r.0@ == "https://lishuuro.org"@ && r.1@ == "https://lishuuro.org"@,
        !prod && vue ==> r.0@ == "http://localhost:3000"@ && r.1@ == "http://localhost:5173"@,
        !prod && !vue ==> r.0@ == "http://192.168.1.17:3000"@ && r.1@ == "http://192.168.1.17:3000"@,
{
    if prod {
        ("https://lishuuro.org", "https://lishuuro.org")
    } else if vue {
        ("http://localhost:3000", "http://localhost:5173")
    } else {
        ("http://192.168.1.17:3000", "http://192.168.1.17:3000")
    }
}

} // verus!
