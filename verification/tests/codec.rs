use authkit::errors::TokenError;
use authkit::models::Claims;
use authkit::token::{decode_and_verify, issue};

fn claims() -> Claims {
    Claims {
        sub: "acct-42".to_string(),
        username: "alice".to_string(),
        exp: 2000,
        iat: 1000,
    }
}

#[test]
fn round_trip_before_expiry_returns_claims() {
    let token = issue(&claims(), "secret-one").unwrap();
    let got = decode_and_verify(&token, "secret-one", 1500).unwrap();
    assert_eq!(got.sub, "acct-42");
    assert_eq!(got.username, "alice");
    assert_eq!(got.exp, 2000);
    assert_eq!(got.iat, 1000);
}

#[test]
fn issuance_is_deterministic() {
    let t1 = issue(&claims(), "secret-one").unwrap();
    let t2 = issue(&claims(), "secret-one").unwrap();
    assert_eq!(t1, t2);
}

#[test]
fn decode_at_expiry_fails_expired() {
    let token = issue(&claims(), "secret-one").unwrap();
    assert_eq!(
        decode_and_verify(&token, "secret-one", 2000).unwrap_err(),
        TokenError::Expired
    );
    assert_eq!(
        decode_and_verify(&token, "secret-one", 5000).unwrap_err(),
        TokenError::Expired
    );
}

#[test]
fn decode_just_before_expiry_succeeds() {
    let token = issue(&claims(), "secret-one").unwrap();
    assert!(decode_and_verify(&token, "secret-one", 1999).is_ok());
}

#[test]
fn other_secret_fails_invalid_signature() {
    let token = issue(&claims(), "secret-one").unwrap();
    assert_eq!(
        decode_and_verify(&token, "secret-two", 1500).unwrap_err(),
        TokenError::InvalidSignature
    );
}

#[test]
fn tampered_payload_is_never_accepted() {
    let token = issue(&claims(), "secret-one").unwrap();
    let first_dot = token.find('.').unwrap();
    let second_dot = first_dot + 1 + token[first_dot + 1..].find('.').unwrap();
    // flip one byte in the middle of the payload section
    let target = (first_dot + 1 + second_dot) / 2;
    let mut bytes = token.clone().into_bytes();
    bytes[target] = if bytes[target] == b'A' { b'B' } else { b'A' };
    let tampered = String::from_utf8(bytes).unwrap();
    assert_ne!(tampered, token);
    let got = decode_and_verify(&tampered, "secret-one", 1500);
    match got {
        Err(TokenError::InvalidSignature) | Err(TokenError::Malformed) => {}
        other => panic!("tampered token was not rejected as forged: {:?}", other),
    }
}

#[test]
fn garbage_fails_malformed() {
    assert_eq!(
        decode_and_verify("not-a-token", "secret-one", 1500).unwrap_err(),
        TokenError::Malformed
    );
    assert_eq!(
        decode_and_verify("", "secret-one", 1500).unwrap_err(),
        TokenError::Malformed
    );
}

#[test]
fn negative_times_round_trip() {
    let c = Claims {
        sub: "acct-1".to_string(),
        username: "bob".to_string(),
        exp: 100,
        iat: -100,
    };
    let token = issue(&c, "secret-one").unwrap();
    let got = decode_and_verify(&token, "secret-one", 0).unwrap();
    assert_eq!(got.iat, -100);
    assert_eq!(got.exp, 100);
}
