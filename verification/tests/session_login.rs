use lishuuro::login::{curr_url, prod_url, LichessError, MyKey, PostLoginToken, Token};
use lishuuro::session::{axum_session_cookie_name, ttl_days, CookieValue, UserSession};

#[test]
fn new_session_is_new_until_marked() {
    let mut s = UserSession::new("Anon-xyz", "sid123", false, "ver", CookieValue::default());
    assert!(s.is_new);
    assert_eq!(s.username, "Anon-xyz");
    assert_eq!(s.session, "sid123");
    assert!(!s.reg);
    s.not_new();
    assert!(!s.is_new);
}

#[test]
fn cookie_name_is_stable() {
    assert_eq!(axum_session_cookie_name(), "axum_session");
}

#[test]
fn lax_cookie_carries_only_the_site_rule() {
    let cv = CookieValue::new("Lax", "true", "true");
    assert_eq!(cv.response(), "SameSite=Lax;");
}

#[test]
fn strict_cookie_carries_the_full_set() {
    let cv = CookieValue::new("None", "true", "true");
    assert_eq!(cv.response(), "SameSite=None; Secure=true; HttpOnly=true;");
}

#[test]
fn set_cookie_spells_the_whole_header_value() {
    let s = UserSession::new("u", "sid123", false, "", CookieValue::new("Lax", "", ""));
    assert_eq!(
        s.set_cookie(),
        "axum_session=sid123; SameSite=Lax; max-age=31536000; Path=/"
    );
}

#[test]
fn ttl_is_a_year_registered_and_two_days_anonymous() {
    assert_eq!(ttl_days(true), 60 * 60 * 24 * 365);
    assert_eq!(ttl_days(false), 60 * 60 * 24 * 2);
}

#[test]
fn registered_session_keeps_the_cookie_and_flags_reg() {
    let s = UserSession::new("Anon-a", "sid", false, "ver", CookieValue::default());
    let r = s.into_registered(&String::from("grandmaster"));
    assert_eq!(r.username, "grandmaster");
    assert!(r.reg);
    assert!(r.is_new);
    assert_eq!(r.session, "sid");
    assert_eq!(r.code_verifier, "ver");
}

#[test]
fn vue_user_reflects_name_and_registration() {
    let s = UserSession::new("pawn", "sid", true, "", CookieValue::default());
    let v = s.vue_user();
    assert_eq!(v.username, "pawn");
    assert!(v.logged);
}

#[test]
fn player_doc_is_keyed_by_username() {
    let s = UserSession::new("pawn", "sid", false, "", CookieValue::default());
    let p = s.player_doc(42);
    assert_eq!(p._id, "pawn");
    assert!(!p.reg);
    assert_eq!(p.created_at, 42);
}

#[test]
fn token_and_key_defaults() {
    let t = Token::default();
    assert_eq!(t.access_token, "");
    assert_eq!(t.expires_in, 0);
    let k = MyKey::default();
    assert!(!k.prod);
    assert_eq!(k.login_state, "jeste");
}

#[test]
fn post_login_token_carries_both_codes() {
    let t = PostLoginToken::new(&String::from("ver"), &String::from("code"));
    assert_eq!(t.code, "code");
    assert_eq!(t.code_verifier, "ver");
}

#[test]
fn login_errors_name_their_cause() {
    assert_eq!(LichessError::NoToken.text(), "no lichess token");
    assert_eq!(LichessError::NoUsername.text(), "account rejected");
}

#[test]
fn server_addresses_follow_the_deployment() {
    assert_eq!(curr_url(true).0, "https://lishuuro.org/w");
    assert_eq!(curr_url(false).1, "http://localhost:3000");
    assert_eq!(prod_url(true, false).0, "https://lishuuro.org");
    assert_eq!(prod_url(false, true).1, "http://localhost:5173");
}
