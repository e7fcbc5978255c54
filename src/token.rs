//! Signed, short-lived session tokens.
//!
//! A token is a JSON Web Token signed with HMAC-SHA256 under the server key.
//! Its claims are `sub`, the user it was issued to, and `exp`, the second
//! (since the Unix epoch) from which it is no longer accepted.
use vstd::prelude::*;
use hmac::Mac;
use jwt::{SignWithKey, VerifyWithKey};

verus! {

/// How long an issued token is accepted, in seconds.
pub const LIFESPAN_SECS: u64 = 900;

/// What a token carries: the user it was issued to and when it stops being
/// accepted (seconds since the Unix epoch).
#[derive(Clone, Copy, PartialEq, Eq, Structural, Debug)]
pub struct TokenPayload {
    pub sub: u64,
    pub exp: u64,
}

/// Why a token was refused.
#[derive(Clone, Copy, PartialEq, Eq, Structural, Debug)]
pub enum TokenError {
    /// The token is malformed, or not signed under the server key.
    BadSignature,
    /// The token is authentic but its expiry time has come.
    Expired,
}

/// A token whose signature has been checked; its expiry has not been.
/// Only `decode_token` makes one.
#[derive(Clone, Copy, Debug)]
pub struct ApiKeyAuthN(TokenPayload);

impl View for ApiKeyAuthN {
    type V = TokenPayload;

    closed spec fn view(&self) -> TokenPayload {
        self.0
    }
}

/// The server's signing secret, fixed once at start-up.
pub struct JwtKey {
    key: Vec<u8>,
}

impl View for JwtKey {
    type V = Seq<u8>;

    closed spec fn view(&self) -> Seq<u8> {
        self.key@
    }
}

/// The HS256 JSON Web Token that `jwt` issues under `key` for the claims
/// `sub` and `exp`.
pub uninterp spec fn jwt_hs256_of(key: Seq<u8>, sub: u64, exp: u64) -> Seq<char>;

/// The `sub` and `exp` claims that `jwt` reads from `token` once its HS256
/// signature under `key` holds; `None` where it refuses the token or a claim
/// is missing.
pub uninterp spec fn jwt_claims_of(key: Seq<u8>, token: Seq<char>) -> Option<(u64, u64)>;

/// Relies on `SignWithKey::sign_with_key` for a map of claims, with
/// `Hmac::<Sha256>::new_from_slice`, which accepts a key of any length.
/// Serialising a map of integers and HMAC signing cannot fail.
#[verifier::external_body]
fn jwt_sign(key: &[u8], sub: u64, exp: u64) -> (r: String)
    ensures
        r@ == jwt_hs256_of(key@, sub, exp),
{
    let mac = hmac::Hmac::<sha2::Sha256>::new_from_slice(key).expect("any key length");
    let mut claims = std::collections::BTreeMap::<String, u64>::new();
    claims.insert("sub".to_string(), sub);
    claims.insert("exp".to_string(), exp);
    claims.sign_with_key(&mac).expect("claims serialise")
}

/// Relies on `VerifyWithKey::verify_with_key` into a map of claims: it checks
/// the header's algorithm and the signature (in constant time, through
/// `Mac::verify_slice`), and a token that `sign_with_key` made under the same
/// key gives back the claims it was made with.
#[verifier::external_body]
fn jwt_verify(key: &[u8], token: &str) -> (r: Option<(u64, u64)>)
    ensures
        r == jwt_claims_of(key@, token@),
        forall|s: u64, e: u64| token@ == #[trigger] jwt_hs256_of(key@, s, e) ==> r == Some((s, e)),
{
    let mac = hmac::Hmac::<sha2::Sha256>::new_from_slice(key).expect("any key length");
    let claims: std::collections::BTreeMap<String, u64> = token.verify_with_key(&mac).ok()?;
    Some((*claims.get("sub")?, *claims.get("exp")?))
}

/// Relies on `time::OffsetDateTime::now_utc` and `unix_timestamp`: the
/// current time in seconds since the Unix epoch.
#[verifier::external_body]
fn unix_time() -> i64 {
    time::OffsetDateTime::now_utc().unix_timestamp()
}

/// The outcome of checking the signature of `t` and reading its claims.
pub open spec fn signature_verdict(key: Seq<u8>, t: Seq<char>) -> Result<TokenPayload, TokenError> {
    match jwt_claims_of(key, t) {
        Some((s, e)) => Ok(TokenPayload { sub: s, exp: e }),
        None => Err(TokenError::BadSignature),
    }
}

/// The outcome of verifying `t` at time `now`: the subject, or why not.
pub open spec fn token_verdict(key: Seq<u8>, t: Seq<char>, now: u64) -> Result<u64, TokenError> {
    match signature_verdict(key, t) {
        Ok(p) => if now < p.exp {
            Ok(p.sub)
        } else {
            Err(TokenError::Expired)
        },
        Err(e) => Err(e),
    }
}

/// The token issued for `uid` at time `now`.
pub open spec fn clock_token(key: Seq<u8>, uid: u64, now: u64) -> Seq<char> {
    jwt_hs256_of(key, uid, (now + LIFESPAN_SECS) as u64)
}

/// A clock reading in seconds since the Unix epoch, with times before the
/// epoch taken as the epoch itself.
pub open spec fn secs_since_epoch(t: i64) -> u64 {
    if t < 0 {
        0
    } else {
        t as u64
    }
}

/// Whether a checked token is still within its lifespan at `now`.
pub open spec fn live_at(auth: ApiKeyAuthN, now: u64) -> bool {
    now < auth@.exp
}

/// Makes the signing key from the server secret; `None` for an empty secret.
pub fn init_jwt(server_key: String) -> (r: Option<JwtKey>)
    ensures
        r is Some <==> server_key@.len() > 0,
        r matches Some(k) ==> k@ == vstd::utf8::encode_utf8(server_key@),
{
    let text = server_key.as_str();
    if text.is_empty() {
        return None;
    }
    let bytes = text.as_bytes();
    let key = vstd::slice::slice_to_vec(bytes);
    Some(JwtKey { key })
}

/// Turns a clock reading into seconds since the epoch.
pub fn secs_from_reading(t: i64) -> (r: u64)
    ensures
        r == secs_since_epoch(t),
        r <= i64::MAX,
{
    if t < 0 {
        0
    } else {
        t as u64
    }
}

/// The current time in seconds since the Unix epoch (zero before it).
pub fn now_secs() -> (r: u64)
    ensures
        exists|t: i64| r == #[trigger] secs_since_epoch(t),
        r <= i64::MAX,
{
    let t = unix_time();
    secs_from_reading(t)
}

/// Issues a token for `uid` that expires `LIFESPAN_SECS` after `now`.
pub fn gen_token_at(key: &JwtKey, uid: u64, now: u64) -> (r: String)
    requires
        now <= u64::MAX - LIFESPAN_SECS,
    ensures
        r@ == clock_token(key@, uid, now),
{
    jwt_sign(key.key.as_slice(), uid, now + LIFESPAN_SECS)
}

/// Issues a token for `uid` that expires `LIFESPAN_SECS` from now.
pub fn gen_token(key: &JwtKey, uid: u64) -> (r: String)
    ensures
        exists|now: u64| now <= i64::MAX && r@ == #[trigger] clock_token(key@, uid, now),
{
    let now = now_secs();
    let r = gen_token_at(key, uid, now);
    assert(now <= i64::MAX && r@ == clock_token(key@, uid, now));
    r
}

/// Checks the signature of `token` and reads its claims.
pub fn decode_token(key: &JwtKey, token: &str) -> (r: Result<ApiKeyAuthN, TokenError>)
    ensures
        match signature_verdict(key@, token@) {
            Ok(p) => r matches Ok(a) && a@ == p,
            Err(e) => r matches Err(f) && f == e,
        },
        forall|s: u64, e: u64|
            token@ == #[trigger] jwt_hs256_of(key@, s, e) ==> (r matches Ok(a) && a@ == TokenPayload {
                sub: s,
                exp: e,
            }),
{
    match jwt_verify(key.key.as_slice(), token) {
        Some((sub, exp)) => Ok(ApiKeyAuthN(TokenPayload { sub, exp })),
        None => Err(TokenError::BadSignature),
    }
}

/// The claims of a checked token.
pub fn payload(auth: &ApiKeyAuthN) -> (r: TokenPayload)
    ensures
        r == auth@,
{
    auth.0
}

/// Whether the checked token is still within its lifespan at `now`.
pub fn check_token_at(auth: &ApiKeyAuthN, now: u64) -> (r: bool)
    ensures
        r == live_at(*auth, now),
{
    now < auth.0.exp
}

/// Whether the checked token is still within its lifespan by the clock.
pub fn check_token(auth: &ApiKeyAuthN) -> (r: bool)
    ensures
        exists|now: u64| now <= i64::MAX && r == #[trigger] live_at(*auth, now),
{
    let now = now_secs();
    let r = check_token_at(auth, now);
    assert(now <= i64::MAX && r == live_at(*auth, now));
    r
}

/// The user that the token was issued to.
pub fn uid_from_token(auth: &ApiKeyAuthN) -> (r: u64)
    ensures
        r == auth@.sub,
{
    auth.0.sub
}

/// Verifies `token` at time `now`: its subject, or why it is refused. A
/// token issued under `key` gives back its subject until its expiry.
pub fn verify_token_at(key: &JwtKey, token: &str, now: u64) -> (r: Result<u64, TokenError>)
    ensures
        r == token_verdict(key@, token@, now),
        forall|s: u64, e: u64|
            token@ == #[trigger] jwt_hs256_of(key@, s, e) ==> r == (if now < e {
                Ok::<u64, TokenError>(s)
            } else {
                Err(TokenError::Expired)
            }),
{
    let auth = decode_token(key, token)?;
    if check_token_at(&auth, now) {
        Ok(uid_from_token(&auth))
    } else {
        Err(TokenError::Expired)
    }
}

/// Verifies `token` by the clock: its subject, or why it is refused.
pub fn verify_token(key: &JwtKey, token: &str) -> (r: Result<u64, TokenError>)
    ensures
        exists|now: u64| now <= i64::MAX && r == #[trigger] token_verdict(key@, token@, now),
{
    let now = now_secs();
    let r = verify_token_at(key, token, now);
    assert(now <= i64::MAX && r == token_verdict(key@, token@, now));
    r
}

} // verus!
