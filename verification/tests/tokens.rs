use authcore::decode_jwt;
use authcore::encode_jwt;
use authcore::token::check_token_at;
use authcore::token::issue_at;
use authcore::token::make_claims;
use authcore::token::VerificationError;
use authcore::token::TOKEN_VALIDITY_SECONDS;

const SECRET: &str = "test-signing-secret";

#[test]
fn issue_then_verify_within_window_returns_subject() {
    let token = encode_jwt("a@example.com".to_string(), SECRET).unwrap();
    let claims = decode_jwt(&token, SECRET).unwrap();
    assert_eq!(claims.email, "a@example.com");
    assert_eq!(claims.exp, claims.iat + TOKEN_VALIDITY_SECONDS);
}

#[test]
fn issue_at_pins_both_timestamps() {
    let iat: u64 = 1_000_000;
    let token = issue_at("a@example.com".to_string(), iat, SECRET).unwrap();
    let claims = check_token_at(&token, SECRET, iat + 10).unwrap();
    assert_eq!(claims.email, "a@example.com");
    assert_eq!(claims.iat, 1_000_000);
    assert_eq!(claims.exp, 1_000_000 + TOKEN_VALIDITY_SECONDS);
}

#[test]
fn token_still_valid_at_exact_expiry_instant() {
    let iat: u64 = 1_000_000;
    let token = issue_at("a@example.com".to_string(), iat, SECRET).unwrap();
    let at_expiry = check_token_at(&token, SECRET, iat + TOKEN_VALIDITY_SECONDS);
    assert!(at_expiry.is_ok());
}

#[test]
fn token_after_expiry_fails_with_expired() {
    let iat: u64 = 1_000_000;
    let token = issue_at("a@example.com".to_string(), iat, SECRET).unwrap();
    assert_eq!(
        check_token_at(&token, SECRET, iat + TOKEN_VALIDITY_SECONDS + 1),
        Err(VerificationError::Expired)
    );
}

#[test]
fn altered_signature_byte_fails_with_bad_signature() {
    let iat: u64 = 1_000_000;
    let token = issue_at("a@example.com".to_string(), iat, SECRET).unwrap();
    let dot = token.rfind('.').unwrap();
    let mut bytes = token.into_bytes();
    let i = dot + 1;
    bytes[i] = if bytes[i] == b'A' { b'B' } else { b'A' };
    let tampered = String::from_utf8(bytes).unwrap();
    assert_eq!(
        check_token_at(&tampered, SECRET, iat + 10),
        Err(VerificationError::BadSignature)
    );
}

#[test]
fn wrong_secret_fails_with_bad_signature() {
    let iat: u64 = 1_000_000;
    let token = issue_at("a@example.com".to_string(), iat, SECRET).unwrap();
    assert_eq!(
        check_token_at(&token, "another-signing-secret", iat + 10),
        Err(VerificationError::BadSignature)
    );
}

#[test]
fn garbage_token_fails_with_bad_signature() {
    assert_eq!(
        check_token_at("not.a.token", SECRET, 1_000_000),
        Err(VerificationError::BadSignature)
    );
    assert_eq!(
        decode_jwt("", SECRET),
        Err(VerificationError::BadSignature)
    );
}

#[test]
fn claims_window_is_exactly_24_hours() {
    let claims = make_claims("a@example.com".to_string(), 5_000);
    assert_eq!(claims.iat, 5_000);
    assert_eq!(claims.exp - claims.iat, 86_400);
    assert_eq!(claims.email, "a@example.com");
}

#[test]
fn token_has_three_nonempty_base64url_segments() {
    let token = issue_at("a@example.com".to_string(), 1_000_000, SECRET).unwrap();
    let parts: Vec<&str> = token.split('.').collect();
    assert_eq!(parts.len(), 3);
    for part in parts {
        assert!(!part.is_empty());
        assert!(part
            .bytes()
            .all(|b| b.is_ascii_alphanumeric() || b == b'-' || b == b'_'));
    }
}
