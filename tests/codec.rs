use axum_project::{
    access_claims_from, issue_access_token, issue_refresh_token, refresh_claims_from, strip_bearer,
    validate_jwt_token, validate_jwt_token_without_exp, validate_refresh_token, RawClaims,
    TokenConfig, TokenError, ACCESS_TTL, LEEWAY,
};

const NOW: u64 = 1_700_000_000;

fn config() -> TokenConfig {
    TokenConfig::new("test-secret".to_string())
}

#[test]
fn access_token_round_trip() {
    let cfg = config();
    let token = issue_access_token(&cfg, 7, "dolto", NOW);
    assert!(!token.is_empty());
    let claims = validate_jwt_token(&cfg, &token, NOW).unwrap();
    assert_eq!(claims.user_id, 7);
    assert_eq!(claims.username, "dolto");
    assert_eq!(claims.exp, NOW + ACCESS_TTL);
}

#[test]
fn access_token_with_bearer_prefix() {
    let cfg = config();
    let token = issue_access_token(&cfg, 42, "alice", NOW);
    let header = format!("Bearer {}", token);
    let claims = validate_jwt_token(&cfg, &header, NOW + 10).unwrap();
    assert_eq!(claims.user_id, 42);
    assert_eq!(claims.username, "alice");
}

#[test]
fn access_token_round_trip_negative_id_and_unicode_name() {
    let cfg = config();
    let token = issue_access_token(&cfg, -5, "김 \"quoted\"", NOW);
    let claims = validate_jwt_token(&cfg, &token, NOW).unwrap();
    assert_eq!(claims.user_id, -5);
    assert_eq!(claims.username, "김 \"quoted\"");
}

#[test]
fn expiry_boundary() {
    let cfg = config();
    let token = issue_access_token(&cfg, 1, "bob", NOW);
    let exp = NOW + ACCESS_TTL;
    assert!(validate_jwt_token(&cfg, &token, exp).is_ok());
    assert!(validate_jwt_token(&cfg, &token, exp + LEEWAY - 1).is_ok());
    assert!(validate_jwt_token(&cfg, &token, exp + LEEWAY).is_ok());
    assert_eq!(
        validate_jwt_token(&cfg, &token, exp + LEEWAY + 1).err(),
        Some(TokenError::Expired)
    );
    assert_eq!(
        validate_jwt_token(&cfg, &token, exp + 10_000).err(),
        Some(TokenError::Expired)
    );
}

#[test]
fn expired_token_read_without_expiry() {
    let cfg = config();
    let token = issue_access_token(&cfg, 3, "carol", NOW);
    let claims = validate_jwt_token_without_exp(&cfg, &token).unwrap();
    assert_eq!(claims.user_id, 3);
    assert_eq!(claims.username, "carol");
    assert_eq!(claims.exp, NOW + ACCESS_TTL);
}

#[test]
fn configured_access_lifetime() {
    let mut cfg = config();
    cfg.access_ttl = 3600;
    let token = issue_access_token(&cfg, 3, "carol", NOW);
    let claims = validate_jwt_token(&cfg, &token, NOW + 3600).unwrap();
    assert_eq!(claims.exp, NOW + 3600);
}

#[test]
fn wrong_secret_is_invalid_signature() {
    let token = issue_access_token(&config(), 1, "bob", NOW);
    let other = TokenConfig::new("another-secret".to_string());
    assert_eq!(
        validate_jwt_token(&other, &token, NOW).err(),
        Some(TokenError::InvalidSignature)
    );
    assert_eq!(
        validate_refresh_token(&other, &token).err(),
        Some(TokenError::InvalidSignature)
    );
}

#[test]
fn garbage_is_malformed() {
    let cfg = config();
    assert_eq!(
        validate_jwt_token(&cfg, "not a token", NOW).err(),
        Some(TokenError::Malformed)
    );
    assert_eq!(validate_jwt_token(&cfg, "", NOW).err(), Some(TokenError::Malformed));
    assert_eq!(validate_jwt_token(&cfg, "abc", NOW).err(), Some(TokenError::Malformed));
    assert_eq!(validate_jwt_token(&cfg, "a.b", NOW).err(), Some(TokenError::Malformed));
    assert_eq!(validate_refresh_token(&cfg, "abc").err(), Some(TokenError::Malformed));
}

#[test]
fn refresh_token_is_rejected_as_access_token() {
    let cfg = config();
    let refresh = issue_refresh_token(&cfg, 9, "dave", 1);
    assert_eq!(
        validate_jwt_token(&cfg, &refresh, NOW).err(),
        Some(TokenError::Malformed)
    );
}

#[test]
fn refresh_token_round_trip() {
    let cfg = config();
    let refresh = issue_refresh_token(&cfg, 9, "dave", 1);
    let claims = validate_refresh_token(&cfg, &refresh).unwrap();
    assert_eq!(claims.user_id, 9);
    assert_eq!(claims.username, "dave");
    assert_eq!(claims.serial, 1);
}

#[test]
fn refresh_tokens_differ_by_serial() {
    let cfg = config();
    let a = issue_refresh_token(&cfg, 9, "dave", 1);
    let b = issue_refresh_token(&cfg, 9, "dave", 2);
    assert_ne!(a, b);
    assert_eq!(validate_refresh_token(&cfg, &b).unwrap().serial, 2);
    let c = issue_refresh_token(&cfg, 10, "dave", 1);
    assert_ne!(a, c);
}

#[test]
fn strip_bearer_prefix() {
    assert_eq!(strip_bearer("Bearer abc.def"), "abc.def");
    assert_eq!(strip_bearer("abc.def"), "abc.def");
    assert_eq!(strip_bearer("bearer abc"), "bearer abc");
    assert_eq!(strip_bearer("Bearer "), "");
}

#[test]
fn claims_fields_checked() {
    let raw = RawClaims { serial: None, exp: Some(100), user_id: Some(5), username: Some("e".to_string()) };
    let c = access_claims_from(raw, 160, true).unwrap();
    assert_eq!((c.exp, c.user_id, c.username.as_str()), (100, 5, "e"));
    let raw = RawClaims { serial: None, exp: Some(100), user_id: Some(5), username: Some("e".to_string()) };
    assert_eq!(access_claims_from(raw, 161, true).err(), Some(TokenError::Expired));
    let raw = RawClaims { serial: None, exp: Some(100), user_id: Some(5), username: Some("e".to_string()) };
    assert!(access_claims_from(raw, 161, false).is_ok());
    let raw = RawClaims { serial: None, exp: None, user_id: Some(5), username: Some("e".to_string()) };
    assert_eq!(access_claims_from(raw, 0, false).err(), Some(TokenError::Malformed));
    let raw = RawClaims {
        serial: None,
        exp: Some(1),
        user_id: Some(i64::from(i32::MAX) + 1),
        username: Some("e".to_string()),
    };
    assert_eq!(access_claims_from(raw, 0, false).err(), Some(TokenError::Malformed));
    let raw = RawClaims { serial: Some(4), exp: None, user_id: Some(-3), username: Some("f".to_string()) };
    let r = refresh_claims_from(raw).unwrap();
    assert_eq!((r.user_id, r.username.as_str(), r.serial), (-3, "f", 4));
    let raw = RawClaims { serial: None, exp: None, user_id: Some(-3), username: Some("f".to_string()) };
    assert_eq!(refresh_claims_from(raw).err(), Some(TokenError::Malformed));
    let raw = RawClaims { serial: None, exp: None, user_id: None, username: Some("f".to_string()) };
    assert_eq!(refresh_claims_from(raw).err(), Some(TokenError::Malformed));
}

#[test]
fn bearer_prefix_gives_same_result() {
    let cfg = config();
    let token = issue_access_token(&cfg, 2, "gus", NOW);
    let bare = validate_jwt_token(&cfg, &token, NOW).unwrap();
    let prefixed = validate_jwt_token(&cfg, &format!("Bearer {}", token), NOW).unwrap();
    assert_eq!((bare.exp, bare.user_id, bare.username), (prefixed.exp, prefixed.user_id, prefixed.username));
    assert_eq!(
        validate_jwt_token(&cfg, "Bearer abc", NOW).err(),
        validate_jwt_token(&cfg, "abc", NOW).err()
    );
}

#[test]
fn tampered_payload_is_invalid_signature() {
    let cfg = config();
    let token = issue_access_token(&cfg, 2, "gus", NOW);
    let other = issue_access_token(&cfg, 3, "gus", NOW);
    let parts: Vec<&str> = token.split('.').collect();
    let other_parts: Vec<&str> = other.split('.').collect();
    let forged = format!("{}.{}.{}", parts[0], other_parts[1], parts[2]);
    assert_eq!(validate_jwt_token(&cfg, &forged, NOW).err(), Some(TokenError::InvalidSignature));
    assert_eq!(
        validate_jwt_token_without_exp(&cfg, &forged).err(),
        Some(TokenError::InvalidSignature)
    );
}
