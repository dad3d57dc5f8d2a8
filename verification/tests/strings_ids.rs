use lishuuro::ids::{game_id_from, random_game_id, random_username, username_from};
use lishuuro::login::{base64_encode, create_challenge, create_verifier};
use lishuuro::strutil::{remove_spaces, split_commas, strip_specials, to_lower, to_upper, u64_to_string, url_safe};

#[test]
fn base64_encode_is_url_safe_without_padding() {
    // "some bytes" encodes as c29tZSBieXRlcw== under standard base64;
    // the URL-safe form drops the padding.
    let r = base64_encode(&b"some bytes".to_vec());
    assert_eq!(r, "c29tZSBieXRlcw");
    // 0xfb 0xef 0xbe is four times the 6-bit group 62, which standard
    // base64 writes as "++++"; the URL-safe form maps each to '-'.
    let r = base64_encode(&vec![0xfbu8, 0xef, 0xbe]);
    assert_eq!(r, "----");
}

#[test]
fn challenge_of_empty_verifier_matches_sha256_of_empty() {
    // SHA-256 of "" is e3b0c442...; its URL-safe base64 is fixed.
    let c = create_challenge(&String::from(""));
    assert_eq!(c, "47DEQpj8HBSa-_TImW-5JCeuQeRkm5NMpJWZG3hSuFU");
}

#[test]
fn challenge_depends_on_the_verifier() {
    let a = create_challenge(&String::from("abc"));
    let b = create_challenge(&String::from("abd"));
    assert_ne!(a, b);
    assert_eq!(a, create_challenge(&String::from("abc")));
}

#[test]
fn verifier_is_long_and_url_safe() {
    let v = create_verifier();
    // 32 bytes encode into 43 base64 chars without padding
    assert_eq!(v.len(), 43);
    assert!(v.chars().all(|c| c.is_ascii_alphanumeric() || c == '-' || c == '_'));
}

#[test]
fn username_from_known_bytes() {
    // six zero bytes encode as AAAAAAAA
    let u = username_from(&vec![0u8; 6]);
    assert_eq!(u, "Anon-AAAAAAAA");
}

#[test]
fn game_id_from_known_bytes_keeps_alphanumerics_only() {
    // nine zero bytes encode as twelve 'A's: nothing is stripped
    let id = game_id_from(&vec![0u8; 9]);
    assert_eq!(id, "AAAAAAAAAAAA");
    // nine 0xff bytes encode as twelve '/'s: everything is stripped
    let id = game_id_from(&vec![0xffu8; 9]);
    assert_eq!(id, "");
}

#[test]
fn random_identifiers_have_the_documented_shape() {
    let u = random_username();
    assert!(u.starts_with("Anon-"));
    assert!(u["Anon-".len()..].chars().all(|c| c.is_ascii_alphanumeric()));
    let id = random_game_id();
    assert!(id.chars().all(|c| c.is_ascii_alphanumeric()));
    assert!(!id.is_empty());
}

#[test]
fn url_safe_substitutes_and_strips() {
    let r = url_safe(&String::from("a+b/c=="));
    assert_eq!(r, "a-b_c");
}

#[test]
fn strip_specials_drops_all_five() {
    let r = strip_specials(&String::from("a+b/c=d-e_f"));
    assert_eq!(r, "abcdef");
}

#[test]
fn case_mapping_is_ascii_only() {
    assert_eq!(to_upper(&String::from("qnn2R!")), "QNN2R!");
    assert_eq!(to_lower(&String::from("QnN2r!")), "qnn2r!");
}

#[test]
fn split_commas_splits_exactly() {
    let r = split_commas(&String::from("qnn,qrr,qq"));
    assert_eq!(r, vec!["qnn", "qrr", "qq"]);
    let single = split_commas(&String::from("qnn"));
    assert_eq!(single, vec!["qnn"]);
    let empties = split_commas(&String::from(",a,"));
    assert_eq!(empties, vec!["", "a", ""]);
}

#[test]
fn decimal_rendering_is_exact() {
    assert_eq!(u64_to_string(0), "0");
    assert_eq!(u64_to_string(7), "7");
    assert_eq!(u64_to_string(120), "120");
    assert_eq!(u64_to_string(9_876_543_210), "9876543210");
}

#[test]
fn remove_spaces_strips_every_space() {
    assert_eq!(remove_spaces(&String::from(" a b  c ")), "abc");
}
