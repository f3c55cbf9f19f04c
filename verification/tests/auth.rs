use telemax::auth::{
    auth_required, cookie_session_token, extract_token, hash_token, CodeReply, PairingState,
    PollResult, PAIR_TTL_NANOS, PAIR_TTL_SECS, STATUS_FORBIDDEN,
};

fn approved_token(r: PollResult) -> Option<String> {
    match r {
        PollResult::Approved(t) => Some(t),
        _ => None,
    }
}

#[test]
fn token_hash_is_hex_sha256() {
    assert_eq!(
        hash_token("abc"),
        "ba7816bf8f01cfea414140de5dae2223b00361a396177a9cb410ff61f20015ad"
    );
    assert_eq!(
        hash_token(""),
        "e3b0c44298fc1c149afbf4c8996fb92427ae41e4649b934ca495991b7852b855"
    );
}

#[test]
fn ttl_is_five_minutes() {
    assert_eq!(PAIR_TTL_SECS, 300);
    assert_eq!(PAIR_TTL_NANOS, 300 * 1_000_000_000);
}

#[test]
fn pairing_round_trip() {
    let mut s = PairingState::new(None);
    assert!(!s.verify_token("tok"));
    assert!(s.register_request_at("1234", 10));
    assert!(matches!(s.poll_at("1234", 20), PollResult::Pending));
    assert!(s.approve_with_token("1234", "tok".to_string()));
    assert!(s.verify_token("tok"));
    assert_eq!(approved_token(s.poll_at("1234", 30)), Some("tok".to_string()));
    assert!(matches!(s.poll_at("1234", 40), PollResult::NotFound));
    assert!(s.verify_token("tok"));
    assert!(!s.verify_token("other"));
}

#[test]
fn duplicate_registration_refused() {
    let mut s = PairingState::new(None);
    assert!(s.register_request_at("c", 0));
    assert!(!s.register_request_at("c", 1));
    assert!(s.register_request_at("d", 1));
}

#[test]
fn approve_only_once_and_only_pending() {
    let mut s = PairingState::new(None);
    assert!(!s.approve_with_token("nope", "t".to_string()));
    assert!(s.register_request_at("c", 0));
    assert!(s.approve_with_token("c", "t1".to_string()));
    assert!(!s.approve_with_token("c", "t2".to_string()));
    assert!(!s.verify_token("t2"));
    assert_eq!(approved_token(s.poll_at("c", 1)), Some("t1".to_string()));
}

#[test]
fn expired_requests() {
    let mut s = PairingState::new(None);
    assert!(s.register_request_at("c", 100));
    assert!(matches!(s.poll_at("c", 100 + PAIR_TTL_NANOS - 1), PollResult::Pending));
    assert!(matches!(s.poll_at("c", 100 + PAIR_TTL_NANOS), PollResult::Expired));
    assert!(matches!(s.poll_at("c", 100 + PAIR_TTL_NANOS), PollResult::NotFound));
}

#[test]
fn expired_approved_request_is_not_delivered() {
    let mut s = PairingState::new(None);
    assert!(s.register_request_at("c", 0));
    assert!(s.approve_with_token("c", "t".to_string()));
    assert!(matches!(s.poll_at("c", PAIR_TTL_NANOS), PollResult::Expired));
    assert!(s.verify_token("t"));
}

#[test]
fn registration_drops_expired_requests() {
    let mut s = PairingState::new(None);
    assert!(s.register_request_at("old", 0));
    assert!(s.register_request_at("new", PAIR_TTL_NANOS));
    assert!(matches!(s.poll_at("old", PAIR_TTL_NANOS), PollResult::NotFound));
    assert!(matches!(s.poll_at("new", PAIR_TTL_NANOS), PollResult::Pending));
    // A code whose request expired can be registered again.
    assert!(s.register_request_at("new", 2 * PAIR_TTL_NANOS));
}

#[test]
fn clock_based_pairing() {
    let mut s = PairingState::new(None);
    assert!(s.register_request("abcd"));
    assert!(!s.register_request("abcd"));
    assert!(matches!(s.poll("abcd"), PollResult::Pending));
    assert!(s.approve("abcd"));
    assert!(!s.approve("abcd"));
    let token = approved_token(s.poll("abcd")).expect("approved");
    assert_eq!(token.len(), 36);
    for (i, c) in token.chars().enumerate() {
        if [8, 13, 18, 23].contains(&i) {
            assert_eq!(c, '-');
        } else {
            assert!(c.is_ascii_hexdigit() && !c.is_ascii_uppercase());
        }
    }
    assert!(s.verify_token(&token));
    assert!(matches!(s.poll("abcd"), PollResult::NotFound));
}

#[test]
fn saved_sessions() {
    let h = hash_token("saved");
    let text = format!("[\"{h}\", \"{h}\", \"other\"]");
    let s = PairingState::new(Some(&text));
    assert!(s.verify_token("saved"));
    let json = s.sessions_json().expect("json");
    let back: Vec<String> = serde_json::from_str(&json).unwrap();
    assert_eq!(back, vec![h.clone(), "other".to_string()]);
    assert!(json.contains('\n'));

    let s = PairingState::new(Some("not json"));
    assert!(!s.verify_token("saved"));
    assert_eq!(s.sessions_json().as_deref(), Some("[]"));
    let s = PairingState::new(None);
    assert!(!s.verify_token("saved"));
}

#[test]
fn sessions_json_lists_approved_hashes() {
    let mut s = PairingState::new(None);
    assert!(s.register_request_at("c", 0));
    assert!(s.approve_with_token("c", "tok".to_string()));
    let back: Vec<String> = serde_json::from_str(&s.sessions_json().unwrap()).unwrap();
    assert_eq!(back, vec![hash_token("tok")]);
}

#[test]
fn tokens_in_requests() {
    assert_eq!(extract_token(Some("Bearer abc"), None), Some("abc".to_string()));
    assert_eq!(extract_token(Some("Bearer "), None), Some(String::new()));
    assert_eq!(
        extract_token(Some("Basic abc"), Some("a=1; telemax_session=xyz ; b=2")),
        Some("xyz".to_string())
    );
    assert_eq!(
        extract_token(Some("Bearer first"), Some("telemax_session=second")),
        Some("first".to_string())
    );
    assert_eq!(extract_token(None, Some("a=1;b=2")), None);
    assert_eq!(extract_token(None, None), None);
    assert_eq!(extract_token(None, Some("telemax_session=")), Some(String::new()));
    assert_eq!(
        cookie_session_token("x=1;telemax_session=a;telemax_session=b"),
        Some("a".to_string())
    );
    assert_eq!(cookie_session_token("xtelemax_session=a"), None);
    assert_eq!(cookie_session_token(""), None);
    assert_eq!(cookie_session_token(";;  telemax_session=q\t"), Some("q".to_string()));
}

#[test]
fn authorization() {
    let mut s = PairingState::new(None);
    assert!(s.register_request_at("c", 0));
    assert!(s.approve_with_token("c", "tok".to_string()));
    assert!(s.is_authorized(Some("Bearer tok"), None));
    assert!(s.is_authorized(None, Some("telemax_session=tok")));
    assert!(!s.is_authorized(Some("Bearer nope"), Some("telemax_session=tok")));
    assert!(!s.is_authorized(None, None));
    let (status, body) = auth_required();
    assert_eq!(status, STATUS_FORBIDDEN);
    assert_eq!(status, 403);
    assert_eq!(body.error.code, "AUTH_REQUIRED");
    assert_eq!(body.error.message, "Pairing required");
}

#[test]
fn code_socket() {
    let mut s = PairingState::new(None);
    let r = s.code_socket_reply(" \n");
    assert_eq!(r, CodeReply::EmptyCode);
    assert_eq!(r.text(), "ERR empty code\n");
    assert!(s.register_request_at("c1", 0));
    let r = s.code_socket_reply("c1\n");
    assert_eq!(r, CodeReply::Paired);
    assert_eq!(r.text(), "OK paired\n");
    let r = s.code_socket_reply("c1\n");
    assert_eq!(r, CodeReply::NoMatch);
    assert_eq!(r.text(), "ERR no matching request\n");
    let token = approved_token(s.poll_at("c1", 1)).expect("approved");
    assert!(s.verify_token(&token));
}

#[test]
fn saved_file_gives_back_the_sessions() {
    let mut s = PairingState::new(None);
    assert!(s.register_request("code"));
    assert!(s.approve("code"));
    let token = approved_token(s.poll("code")).expect("approved");
    let json = s.sessions_json().expect("always written");
    let again = PairingState::new(Some(&json));
    assert!(again.verify_token(&token));
    assert_eq!(again.sessions_json(), Some(json));
}

#[test]
fn session_tokens_are_version_four_uuids() {
    for _ in 0..20 {
        let mut s = PairingState::new(None);
        assert!(s.register_request("c"));
        assert!(s.approve("c"));
        let t: Vec<char> = approved_token(s.poll("c")).expect("approved").chars().collect();
        assert_eq!(t.len(), 36);
        assert_eq!(t[14], '4');
        assert!(matches!(t[19], '8' | '9' | 'a' | 'b'));
    }
}

#[test]
fn a_token_is_handed_out_once() {
    let mut s = PairingState::new(None);
    assert!(s.register_request_at("c", 0));
    assert!(s.approve_with_token("c", "t".to_string()));
    assert_eq!(approved_token(s.poll_at("c", 1)), Some("t".to_string()));
    assert!(!s.approve_with_token("c", "u".to_string()));
    assert!(s.register_request_at("d", 2));
    assert!(matches!(s.poll_at("d", 3), PollResult::Pending));
    assert!(matches!(s.poll_at("c", 4), PollResult::NotFound));
    assert!(s.register_request_at("c", 5));
    assert!(matches!(s.poll_at("c", 6), PollResult::Pending));
}
