use poem_api::functions::statics::{create_token, token_from_bytes, get_subscribers, session_cookie, validate_token, TOKEN_LEN};

#[test]
fn token_has_sixteen_letters_or_digits() {
    for _ in 0..20 {
        let t = create_token();
        assert_eq!(t.chars().count(), TOKEN_LEN);
        assert_eq!(t.len(), 16);
        assert!(t.chars().all(|c| c.is_ascii_alphanumeric()));
    }
}

#[test]
fn tokens_differ() {
    let a = create_token();
    let b = create_token();
    assert_ne!(a, b);
}

#[test]
fn validate_token_with_session() {
    let (u, m) = validate_token(Some(String::from("alice")));
    assert_eq!(u, Some(String::from("alice")));
    assert_eq!(m, "no token");
}

#[test]
fn validate_token_without_session() {
    let (u, m) = validate_token(None);
    assert_eq!(u, None);
    assert_eq!(m, "token is not valid");
}

#[test]
fn subscribers_are_deduplicated() {
    let stored = vec![
        String::from("b"),
        String::from("a"),
        String::from("b"),
        String::from("c"),
        String::from("a"),
    ];
    let set = get_subscribers(Some(stored)).unwrap();
    assert_eq!(set, vec![String::from("b"), String::from("a"), String::from("c")]);
}

#[test]
fn subscribers_of_missing_user() {
    assert!(get_subscribers(None).is_none());
}

#[test]
fn subscribers_of_user_without_any() {
    assert_eq!(get_subscribers(Some(Vec::new())), Some(Vec::new()));
}

#[test]
fn cookie_carries_the_token() {
    assert_eq!(session_cookie("abc123"), "token=abc123; SameSite=lax; path=/");
    assert_eq!(session_cookie(""), "token=; SameSite=lax; path=/");
}

#[test]
fn token_from_bytes_takes_each_byte_as_a_char() {
    assert_eq!(token_from_bytes(&b"aZ09".to_vec()), "aZ09");
    assert_eq!(token_from_bytes(&Vec::new()), "");
    assert_eq!(token_from_bytes(&vec![72, 105]), "Hi");
}
