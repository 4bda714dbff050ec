use authcore::claims::{AuthClaims, AuthRequesterClaims, TokenSettings};
use authcore::error::AuthErrorType;

fn settings() -> TokenSettings {
    TokenSettings {
        secret: b"test-secret".to_vec(),
        domain: "example.com".to_string(),
        company: "Example".to_string(),
        access_lifetime: 60,
        session_lifetime: 3600,
    }
}

const NOW: u64 = 1_700_000_000;

fn access(sub: &str, acc: bool) -> AuthClaims {
    AuthClaims::for_user(sub.to_string(), acc, &settings(), NOW).unwrap()
}

#[test]
fn access_claims_round_trip() {
    let s = settings();
    let c = access("user-1", true);
    assert_eq!(c.exp, NOW + 60);
    let token = c.generate_token(&s).unwrap();
    assert_eq!(token.token_type, "Bearer");
    let back = AuthClaims::from_string(&token.access_token, &s, NOW + 10).unwrap();
    assert_eq!(back.sub, "user-1");
    assert_eq!(back.aud, "example.com");
    assert_eq!(back.com, "Example");
    assert_eq!(back.exp, NOW + 60);
    assert!(back.acc);
}

#[test]
fn session_claims_round_trip_with_unicode_subject() {
    let s = settings();
    let c = AuthRequesterClaims::new("ü-ñ-✓ id".to_string(), &s, NOW).unwrap();
    assert_eq!(c.exp, NOW + 3600);
    let token = c.generate_token(&s).unwrap();
    let back = AuthRequesterClaims::from_string(&token.access_token, &s, NOW).unwrap();
    assert_eq!(back.sub, "ü-ñ-✓ id");
    assert_eq!(back.exp, NOW + 3600);
}

#[test]
fn tokens_are_hs256_jwts() {
    let s = settings();
    let token = access("abc", true).generate_token(&s).unwrap();
    assert!(!token.access_token.contains(' '));
    assert_eq!(token.access_token.split('.').count(), 3);
    let header = jsonwebtoken::decode_header(&token.access_token).unwrap();
    assert_eq!(header.alg, jsonwebtoken::Algorithm::HS256);
    let mut check = jsonwebtoken::Validation::new(jsonwebtoken::Algorithm::HS256);
    check.validate_exp = false;
    check.validate_aud = false;
    let key = jsonwebtoken::DecodingKey::from_secret(b"test-secret");
    let claims = jsonwebtoken::decode::<serde_json::Value>(&token.access_token, &key, &check)
        .unwrap()
        .claims;
    assert_eq!(claims["aud"], "example.com");
    assert_eq!(claims["com"], "Example");
    assert_eq!(claims["sub"], "abc");
    assert_eq!(claims["exp"], NOW + 60);
    assert_eq!(claims["acc"], true);
    let session = AuthRequesterClaims::new("abc".to_string(), &s, NOW).unwrap();
    let token = session.generate_token(&s).unwrap();
    assert_eq!(token.access_token.split('.').count(), 3);
    let claims = jsonwebtoken::decode::<serde_json::Value>(&token.access_token, &key, &check)
        .unwrap()
        .claims;
    assert_eq!(claims["sub"], "abc");
    assert!(claims["acc"].is_null());
}

#[test]
fn jwt_from_another_signer_with_same_claims_is_accepted() {
    let s = settings();
    let mut claims = serde_json::Map::new();
    claims.insert("aud".to_string(), "example.com".into());
    claims.insert("com".to_string(), "Example".into());
    claims.insert("sub".to_string(), "ext".into());
    claims.insert("exp".to_string(), (NOW + 100).into());
    claims.insert("acc".to_string(), false.into());
    let key = jsonwebtoken::EncodingKey::from_secret(b"test-secret");
    let text = jsonwebtoken::encode(&jsonwebtoken::Header::default(), &claims, &key).unwrap();
    let back = AuthClaims::from_string(&text, &s, NOW).unwrap();
    assert_eq!(back.sub, "ext");
    assert!(!back.acc);
}

#[test]
fn expired_token_is_rejected() {
    let s = settings();
    let token = access("u", false).generate_token(&s).unwrap();
    let err = AuthClaims::from_string(&token.access_token, &s, NOW + 60 + 6).unwrap_err();
    assert_eq!(err.error_type(), AuthErrorType::InvalidToken);
    assert_eq!(err.status(), 403);
}

#[test]
fn expiry_within_leeway_is_accepted() {
    let s = settings();
    let token = access("u", false).generate_token(&s).unwrap();
    assert!(AuthClaims::from_string(&token.access_token, &s, NOW + 60 + 5).is_ok());
}

#[test]
fn wrong_audience_or_issuer_is_rejected() {
    let s = settings();
    let token = access("u", false).generate_token(&s).unwrap();
    let mut other = settings();
    other.domain = "other.com".to_string();
    assert!(AuthClaims::from_string(&token.access_token, &other, NOW).is_err());
    let mut other = settings();
    other.company = "Other".to_string();
    assert!(AuthClaims::from_string(&token.access_token, &other, NOW).is_err());
}

#[test]
fn other_secret_is_rejected() {
    let s = settings();
    let token = access("u", false).generate_token(&s).unwrap();
    let mut other = settings();
    other.secret = b"another-secret".to_vec();
    assert_eq!(
        AuthClaims::from_string(&token.access_token, &other, NOW).unwrap_err().error_type(),
        AuthErrorType::InvalidToken
    );
}

#[test]
fn every_single_byte_mutation_is_rejected() {
    let s = settings();
    let token = access("user-1", true).generate_token(&s).unwrap().access_token;
    let bytes = token.as_bytes().to_vec();
    for i in 0..bytes.len() {
        for replacement in [b'A', b'z', b'0', b'.', b'-'] {
            if bytes[i] == replacement {
                continue;
            }
            let mut m = bytes.clone();
            m[i] = replacement;
            let mutated = String::from_utf8(m).unwrap();
            assert!(AuthClaims::from_string(&mutated, &s, NOW).is_err(), "accepted mutation at {}", i);
        }
    }
}

#[test]
fn session_token_is_not_an_access_token() {
    let s = settings();
    let session = AuthRequesterClaims::new("u".to_string(), &s, NOW).unwrap();
    let token = session.generate_token(&s).unwrap();
    assert!(AuthClaims::from_string(&token.access_token, &s, NOW).is_err());
    let token = access("u", false).generate_token(&s).unwrap();
    assert!(AuthRequesterClaims::from_string(&token.access_token, &s, NOW).is_err());
}

#[test]
fn garbage_is_rejected() {
    let s = settings();
    for t in ["", ".", "a.b.c.d.e.f", "not a token", "....."] {
        assert!(AuthClaims::from_string(t, &s, NOW).is_err());
        assert!(AuthRequesterClaims::from_string(t, &s, NOW).is_err());
    }
}

#[test]
fn expiry_overflow_is_token_creation_error() {
    let s = settings();
    let err = AuthClaims::for_user("u".to_string(), false, &s, u64::MAX - 10).unwrap_err();
    assert_eq!(err.error_type(), AuthErrorType::TokenCreation);
    assert_eq!(err.status(), 500);
    assert!(AuthRequesterClaims::new("u".to_string(), &s, u64::MAX).is_err());
}

#[test]
fn default_claims_have_empty_subject() {
    let s = settings();
    let c = AuthClaims::default(&s, NOW).unwrap();
    assert_eq!(c.sub, "");
    assert!(!c.acc);
    assert_eq!(c.exp, NOW + 60);
    let c = AuthRequesterClaims::default(&s, NOW).unwrap();
    assert_eq!(c.sub, "");
    assert_eq!(c.exp, NOW + 3600);
}
