//! Player sessions and the cookie they live in.

use vstd::prelude::*;

verus! {

/// The cookie the session id travels under.
pub fn axum_session_cookie_name() -> (r: &'static str)
    ensures
        r@ == "axum_session"@,
{
    "axum_session"
}

/// How the session cookie is flagged.
pub struct CookieValue {
    pub same_site: String,
    pub secure: String,
    pub http_only: String,
}

impl CookieValue {
    pub fn new(same_site: &str, secure: &str, http_only: &str) -> (r: CookieValue)
        ensures
            r.same_site@ == same_site@,
            r.secure@ == secure@,
            r.http_only@ == http_only@,
    {
        CookieValue {
            same_site: String::from_str(same_site),
            secure: String::from_str(secure),
            http_only: String::from_str(http_only),
        }
    }

    /// The cookie attributes: under `Lax` only the site rule, else the
    /// full set.
    pub fn response(&self) -> (r: String)
        ensures
            self.same_site@ == "Lax"@ ==> r@ == "SameSite="@ + self.same_site@ + ";"@,
            self.same_site@ != "Lax"@ ==> r@ == "SameSite="@ + self.same_site@ + "; Secure="@
                + self.secure@ + "; HttpOnly="@ + self.http_only@ + ";"@,
    {
        let lax = String::from_str("Lax");
        let mut r = String::from_str("SameSite=");
        r.append(self.same_site.as_str());
        if self.same_site == lax {
            r.append(";");
            return r;
        }
        r.append("; Secure=");
        r.append(self.secure.as_str());
        r.append("; HttpOnly=");
        r.append(self.http_only.as_str());
        r.append(";");
        r
    }

    /// A field-for-field copy.
    pub fn duplicate(&self) -> (r: CookieValue)
        ensures
            r == *self,
    {
        CookieValue {
            same_site: self.same_site.clone(),
            secure: self.secure.clone(),
            http_only: self.http_only.clone(),
        }
    }
}

impl Default for CookieValue {
    /// All attributes empty.
    fn default() -> (r: CookieValue)
        ensures
            r.same_site@ == Seq::<char>::empty(),
            r.secure@ == Seq::<char>::empty(),
            r.http_only@ == Seq::<char>::empty(),
    {
        proof {
            reveal_strlit("");
        }
        CookieValue::new("", "", "")
    }
}

/// The identity of a connected client.
pub struct UserSession {
    pub username: String,
    /// Whether the account is registered with the identity provider.
    pub reg: bool,
    /// The PKCE verifier of a login in flight.
    pub code_verifier: String,
    /// The opaque session id, also the store key.
    pub session: String,
    /// Whether the cookie must be (re)set on the next response.
    pub is_new: bool,
    pub cookie_value: CookieValue,
}

impl UserSession {
    pub fn new(username: &str, session: &str, reg: bool, code_verifier: &str, cookie_value:
        CookieValue) -> (r: UserSession)
        ensures
            r.username@ == username@,
            r.session@ == session@,
            r.reg == reg,
            r.code_verifier@ == code_verifier@,
            r.is_new,
            r.cookie_value == cookie_value,
    {
        UserSession {
            username: String::from_str(username),
            reg,
            code_verifier: String::from_str(code_verifier),
            session: String::from_str(session),
            is_new: true,
            cookie_value,
        }
    }

    /// The cookie was sent: nothing to set any more.
    pub fn not_new(&mut self)
        ensures
            !final(self).is_new,
            *final(self) == (UserSession { is_new: false, ..*old(self) }),
    {
        self.is_new = false;
    }

    /// The `Set-Cookie` value of a fresh session: name, id, attributes,
    /// a one-year age, and the root path.
    pub fn set_cookie(&self) -> (r: String)
        ensures
            r@ == "axum_session="@ + self.session@ + "; "@ + ({
                let cv = self.cookie_value;
                if cv.same_site@ == "Lax"@ {
                    "SameSite="@ + cv.same_site@ + ";"@
                } else {
                    "SameSite="@ + cv.same_site@ + "; Secure="@ + cv.secure@ + "; HttpOnly="@
                        + cv.http_only@ + ";"@
                }
            }) + " max-age=31536000; Path=/"@,
    {
        let mut r = String::from_str("axum_session=");
        r.append(self.session.as_str());
        r.append("; ");
        let attrs = self.cookie_value.response();
        r.append(attrs.as_str());
        r.append(" max-age=31536000; Path=/");
        r
    }

    /// The session re-minted when a registered account logs in: same
    /// cookie, the provider's username, registered, to be set anew.
    pub fn into_registered(&self, username: &String) -> (r: UserSession)
        ensures
            r.username@ == username@,
            r.reg,
            r.is_new,
            r.session@ == self.session@,
            r.code_verifier@ == self.code_verifier@,
    {
        UserSession {
            username: username.clone(),
            reg: true,
            code_verifier: self.code_verifier.clone(),
            session: self.session.clone(),
            is_new: true,
            cookie_value: self.cookie_value.duplicate(),
        }
    }

    /// The public face of a session for the frontend.
    pub fn vue_user(&self) -> (r: VueUser)
        ensures
            r.username@ == self.username@,
            r.logged == self.reg,
    {
        VueUser { username: self.username.clone(), logged: self.reg }
    }

    /// The player document minted once per new username.
    pub fn player_doc(&self, now: u64) -> (r: Player)
        ensures
            r._id@ == self.username@,
            r.reg == self.reg,
            r.created_at == now,
    {
        Player { _id: self.username.clone(), reg: self.reg, created_at: now }
    }
}

/// Session lifetime in the key-value store, seconds: one year for a
/// registered account, two days for an anonymous one.
pub fn ttl_days(reg: bool) -> (r: usize)
    ensures
        reg ==> r == 31536000,
        !reg ==> r == 172800,
{
    let day: usize = 60 * 60 * 24;
    if reg {
        return day * 365;
    }
    day * 2
}

/// What the frontend knows of a user.
pub struct VueUser {
    pub username: String,
    pub logged: bool,
}

/// A player document: keyed by username, never mutated once created.
pub struct Player {
    pub _id: String,
    pub reg: bool,
    /// Creation time, milliseconds.
    pub created_at: u64,
}

} // verus!
