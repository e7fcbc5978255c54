use std::collections::BTreeMap;

use chat_auth::chat::Chat;
use chat_auth::token::{
    check_token, check_token_at, decode_token, gen_token, gen_token_at, init_jwt, now_secs,
    payload, secs_from_reading, uid_from_token, verify_token, verify_token_at, JwtKey, TokenError,
    TokenPayload, LIFESPAN_SECS,
};
use hmac::Mac;
use jwt::{SignWithKey, VerifyWithKey};

fn key() -> JwtKey {
    init_jwt("server secret".to_string()).unwrap()
}

fn mac(secret: &[u8]) -> hmac::Hmac<sha2::Sha256> {
    hmac::Hmac::<sha2::Sha256>::new_from_slice(secret).unwrap()
}

fn sign_claims(secret: &[u8], claims: &[(&str, u64)]) -> String {
    let mut m = BTreeMap::<String, u64>::new();
    for (k, v) in claims {
        m.insert(k.to_string(), *v);
    }
    m.sign_with_key(&mac(secret)).unwrap()
}

#[test]
fn empty_secret_is_refused() {
    assert!(init_jwt(String::new()).is_none());
    assert!(init_jwt("k".to_string()).is_some());
}

#[test]
fn token_is_hs256_jwt() {
    let k = key();
    let t = gen_token_at(&k, 0x1234, 0);
    let parts: Vec<&str> = t.split('.').collect();
    assert_eq!(parts.len(), 3);
    for p in &parts {
        assert!(!p.is_empty());
        assert!(p.chars().all(|c| c.is_ascii_alphanumeric() || c == '-' || c == '_'));
    }
    assert_eq!(parts[0], "eyJhbGciOiJIUzI1NiJ9");
    let claims: BTreeMap<String, u64> = t.as_str().verify_with_key(&mac(b"server secret")).unwrap();
    assert_eq!(claims.get("sub"), Some(&0x1234));
    assert_eq!(claims.get("exp"), Some(&900));
    assert_eq!(claims.len(), 2);
    assert_eq!(t, sign_claims(b"server secret", &[("sub", 0x1234), ("exp", 900)]));
}

#[test]
fn issued_token_verifies_then_expires() {
    let k = key();
    let now: u64 = 1_700_000_000;
    let t = gen_token_at(&k, 0, now);
    assert_eq!(verify_token_at(&k, &t, now), Ok(0));
    assert_eq!(verify_token_at(&k, &t, now + 16 * 60), Err(TokenError::Expired));
}

#[test]
fn expiry_boundary() {
    let k = key();
    let now: u64 = 5_000;
    let t = gen_token_at(&k, 42, now);
    assert_eq!(verify_token_at(&k, &t, now + LIFESPAN_SECS - 1), Ok(42));
    assert_eq!(verify_token_at(&k, &t, now + LIFESPAN_SECS), Err(TokenError::Expired));
    assert_eq!(verify_token_at(&k, &t, u64::MAX), Err(TokenError::Expired));
    assert_eq!(verify_token_at(&k, &t, 0), Ok(42));
}

#[test]
fn clock_token_verifies_now() {
    let k = key();
    let t = gen_token(&k, 7);
    assert_eq!(verify_token(&k, &t), Ok(7));
    let auth = decode_token(&k, &t).unwrap();
    assert!(check_token(&auth));
    assert_eq!(uid_from_token(&auth), 7);
    assert!(payload(&auth).exp > now_secs());
}

#[test]
fn flipped_bits_are_refused() {
    let k = key();
    let t = gen_token_at(&k, 3, 100);
    let bytes = t.as_bytes().to_vec();
    for i in 0..bytes.len() {
        for bit in 0..7 {
            let mut b = bytes.clone();
            b[i] ^= 1 << bit;
            let s = String::from_utf8(b).unwrap();
            assert_eq!(verify_token_at(&k, &s, 100), Err(TokenError::BadSignature));
        }
    }
}

#[test]
fn other_key_is_refused() {
    let t = gen_token_at(&key(), 3, 100);
    let other = init_jwt("another secret".to_string()).unwrap();
    assert_eq!(verify_token_at(&other, &t, 100), Err(TokenError::BadSignature));
}

#[test]
fn truncated_and_garbage_tokens_are_refused() {
    let k = key();
    let t = gen_token_at(&k, 3, 100);
    assert_eq!(verify_token_at(&k, &t[..t.len() - 1], 100), Err(TokenError::BadSignature));
    assert_eq!(verify_token_at(&k, "", 100), Err(TokenError::BadSignature));
    assert_eq!(verify_token_at(&k, "not a token", 100), Err(TokenError::BadSignature));
    let longer = format!("{}.AA", t);
    assert_eq!(verify_token_at(&k, &longer, 100), Err(TokenError::BadSignature));
}

#[test]
fn signed_token_without_subject_is_refused() {
    let k = key();
    let t = sign_claims(b"server secret", &[("exp", 500)]);
    assert!(matches!(decode_token(&k, &t), Err(TokenError::BadSignature)));
    let t2 = sign_claims(b"server secret", &[("sub", 4), ("exp", 500)]);
    assert_eq!(verify_token_at(&k, &t2, 499), Ok(4));
}

#[test]
fn payload_round_trip() {
    let k = key();
    for (sub, now) in [(0u64, 0u64), (1, 1), (u64::MAX, u64::MAX - LIFESPAN_SECS), (0xdead_beef, 12345)] {
        let t = gen_token_at(&k, sub, now);
        let auth = decode_token(&k, &t).unwrap();
        assert_eq!(payload(&auth), TokenPayload { sub, exp: now + LIFESPAN_SECS });
    }
}

#[test]
fn check_token_compares_with_expiry() {
    let k = key();
    let auth = decode_token(&k, &gen_token_at(&k, 9, 0)).unwrap();
    assert!(check_token_at(&auth, 899));
    assert!(!check_token_at(&auth, 900));
    assert!(!check_token(&auth));
    assert_eq!(uid_from_token(&auth), 9);
}

#[test]
fn far_future_expiry_is_live() {
    let k = key();
    let auth = decode_token(&k, &gen_token_at(&k, 1, u64::MAX - LIFESPAN_SECS)).unwrap();
    assert!(check_token(&auth));
}

#[test]
fn rooms_lists_page_user_and_room() {
    let k = key();
    let auth = decode_token(&k, &gen_token_at(&k, 9, 0)).unwrap();
    assert_eq!(Chat.rooms(&auth, Some(4), 5), Some(vec![4, 9, 2]));
    assert_eq!(Chat.rooms(&auth, None, 5), Some(vec![0, 9, 2]));
    assert_eq!(Chat.rooms(&auth, None, 900), None);
}

#[test]
fn clock_reading_before_epoch_is_zero() {
    assert_eq!(secs_from_reading(-5), 0);
    assert_eq!(secs_from_reading(i64::MIN), 0);
    assert_eq!(secs_from_reading(0), 0);
    assert_eq!(secs_from_reading(1_700_000_000), 1_700_000_000);
    assert_eq!(secs_from_reading(i64::MAX), i64::MAX as u64);
}
