//! Checking a username and password against the stored credential record.
use vstd::prelude::*;
use crate::token::{clock_token, gen_token, JwtKey};

verus! {

/// A stored credential: a unique username, its bcrypt hash, and the user's id.
pub struct CredentialRecord {
    pub uname: String,
    pub pwd: String,
    pub uid: u64,
}

/// The credential store could not answer.
#[derive(Clone, Copy, PartialEq, Eq, Structural, Debug)]
pub struct StoreError;

/// What the store answered for a username: a record, none, or an error.
pub type Lookup = Result<Option<CredentialRecord>, StoreError>;

/// The outcome of a login attempt.
#[derive(Clone, Copy, PartialEq, Eq, Structural, Debug)]
pub enum LoginResult {
    Pass(u64),
    UserNotFound,
    IncorrectPassword,
    StoreUnavailable,
    HashEngineError,
}

/// What the client is told about a login attempt.
#[derive(Clone, Copy, PartialEq, Eq, Structural, Debug)]
pub enum LoginStatus {
    Success,
    Unauthorized,
    Error,
}

/// The answer to a login request: a token, or a bare refusal.
pub enum LoginReply {
    Token(String),
    Unauthorized,
    Error,
}

/// What `bcrypt::verify` answers for `password` against `hash`: whether they
/// match, or `None` where the hash cannot be used.
pub uninterp spec fn bcrypt_outcome(password: Seq<char>, hash: Seq<char>) -> Option<bool>;

/// Relies on `bcrypt::verify`: the salt and cost come from the hash itself, so
/// the answer depends on the two strings alone; its error becomes `None`.
#[verifier::external_body]
fn bcrypt_verify(password: &str, hash: &str) -> (r: Option<bool>)
    ensures
        r == bcrypt_outcome(password@, hash@),
{
    bcrypt::verify(password, hash).ok()
}

/// The outcome of a login, given the store's answer and, where a record was
/// found, the result of checking the password against its hash.
pub open spec fn login_spec(lookup: Lookup, hash_check: Option<bool>) -> LoginResult {
    match lookup {
        Err(_) => LoginResult::StoreUnavailable,
        Ok(None) => LoginResult::UserNotFound,
        Ok(Some(rec)) => match hash_check {
            None => LoginResult::HashEngineError,
            Some(true) => LoginResult::Pass(rec.uid),
            Some(false) => LoginResult::IncorrectPassword,
        },
    }
}

/// The outcome of a login with `password`, given the store's answer.
pub open spec fn check_spec(lookup: Lookup, password: Seq<char>) -> LoginResult {
    match lookup {
        Ok(Some(rec)) => login_spec(lookup, bcrypt_outcome(password, rec.pwd@)),
        _ => login_spec(lookup, None),
    }
}

/// What the client sees of an outcome: every refusal but a server fault is
/// the same `Unauthorized`.
pub open spec fn status_spec(r: LoginResult) -> LoginStatus {
    match r {
        LoginResult::Pass(_) => LoginStatus::Success,
        LoginResult::StoreUnavailable | LoginResult::HashEngineError => LoginStatus::Error,
        _ => LoginStatus::Unauthorized,
    }
}

/// Decides a login from the store's answer and the password check's result.
pub fn decide_login(lookup: &Lookup, hash_check: Option<bool>) -> (r: LoginResult)
    ensures
        r == login_spec(*lookup, hash_check),
{
    match lookup {
        Err(_) => LoginResult::StoreUnavailable,
        Ok(None) => LoginResult::UserNotFound,
        Ok(Some(rec)) => match hash_check {
            None => LoginResult::HashEngineError,
            Some(true) => LoginResult::Pass(rec.uid),
            Some(false) => LoginResult::IncorrectPassword,
        },
    }
}

/// Checks `password` against the record that the store returned for the
/// username; the hash is consulted only where a record was found.
pub fn check(lookup: &Lookup, password: &str) -> (r: LoginResult)
    ensures
        r == check_spec(*lookup, password@),
{
    let hash_check = match lookup {
        Ok(Some(rec)) => bcrypt_verify(password, rec.pwd.as_str()),
        _ => None,
    };
    decide_login(lookup, hash_check)
}

/// The client-facing status of a login outcome.
pub fn login_status(r: &LoginResult) -> (s: LoginStatus)
    ensures
        s == status_spec(*r),
{
    match r {
        LoginResult::Pass(_) => LoginStatus::Success,
        LoginResult::StoreUnavailable | LoginResult::HashEngineError => LoginStatus::Error,
        _ => LoginStatus::Unauthorized,
    }
}

/// Answers a login request: a fresh token for the user on success, otherwise
/// only the client-facing status.
pub fn login_reply(key: &JwtKey, r: LoginResult) -> (reply: LoginReply)
    ensures
        match r {
            LoginResult::Pass(uid) => match reply {
                LoginReply::Token(t) => exists|now: u64|
                    now <= i64::MAX && t@ == #[trigger] clock_token(key@, uid, now),
                _ => false,
            },
            _ => match status_spec(r) {
                LoginStatus::Error => reply is Error,
                _ => reply is Unauthorized,
            },
        },
{
    match r {
        LoginResult::Pass(uid) => LoginReply::Token(gen_token(key, uid)),
        _ => match login_status(&r) {
            LoginStatus::Error => LoginReply::Error,
            _ => LoginReply::Unauthorized,
        },
    }
}

} // verus!
