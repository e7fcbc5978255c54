//! Authentication for a chat server: a password check against stored bcrypt
//! hashes, and stateless session tokens signed with HMAC-SHA256 that expire a
//! fixed time after they are issued.
//!
//! - `credential`: the outcome of a login from the store's answer.
//! - `token`: issuing and verifying tokens.
//! - `chat`: the room listing behind a token.
//! - `laws`: properties that relate these operations.

pub mod token;
pub mod credential;
pub mod chat;
pub mod laws;
