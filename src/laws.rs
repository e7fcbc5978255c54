//! Properties that relate the credential check, token issue and token
//! verification.
use vstd::prelude::*;
use crate::credential::{check_spec, status_spec, LoginResult, LoginStatus};
use crate::token::{signature_verdict, token_verdict, TokenError};

verus! {

/// A token is refused as expired exactly when its signature holds and the
/// time has reached its expiry; one that is accepted is accepted before its
/// expiry, with the subject it carries.
pub proof fn lemma_expiry(key: Seq<u8>, t: Seq<char>, now: u64)
    ensures
        token_verdict(key, t, now) == Err::<u64, TokenError>(TokenError::Expired) <==> (
        match signature_verdict(key, t) {
            Ok(p) => now >= p.exp,
            Err(_) => false,
        }),
        token_verdict(key, t, now) is Ok <==> (match signature_verdict(key, t) {
            Ok(p) => now < p.exp,
            Err(_) => false,
        }),
        token_verdict(key, t, now) matches Ok(s) ==> signature_verdict(key, t) matches Ok(p)
            && p.sub == s,
{
}

/// Verifying a token at a later time never turns an expired token back into
/// an accepted one.
pub proof fn lemma_expiry_is_final(key: Seq<u8>, t: Seq<char>, now: u64, later: u64)
    requires
        now <= later,
        token_verdict(key, t, now) == Err::<u64, TokenError>(TokenError::Expired),
    ensures
        token_verdict(key, t, later) == Err::<u64, TokenError>(TokenError::Expired),
{
}

/// A username that the store does not hold never logs in, and the client
/// sees the same refusal as for a wrong password.
pub proof fn lemma_unknown_user(password: Seq<char>)
    ensures
        !(check_spec(Ok(None), password) is Pass),
        status_spec(check_spec(Ok(None), password)) == status_spec(LoginResult::IncorrectPassword),
        status_spec(check_spec(Ok(None), password)) == LoginStatus::Unauthorized,
{
}

} // verus!
