//! The room listing behind token authentication.
use vstd::prelude::*;
use crate::token::{check_token_at, uid_from_token, ApiKeyAuthN};

verus! {

/// The chat endpoints.
pub struct Chat;

impl Chat {
    /// The rooms for page `pn` (zero when absent), or `None` where the token
    /// has expired at `now`: the page number, the caller's id, then room 2.
    pub fn rooms(&self, auth: &ApiKeyAuthN, pn: Option<u32>, now: u64) -> (r: Option<Vec<u64>>)
        ensures
            r is Some <==> now < auth@.exp,
            r matches Some(v) ==> v@ == seq![
                match pn {
                    Some(n) => n as u64,
                    None => 0u64,
                },
                auth@.sub,
                2u64,
            ],
    {
        if !check_token_at(auth, now) {
            return None;
        }
        let uid = uid_from_token(auth);
        let page: u64 = match pn {
            Some(n) => n as u64,
            None => 0,
        };
        let v: Vec<u64> = vec![page, uid, 2];
        Some(v)
    }
}

} // verus!
