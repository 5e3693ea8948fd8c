//! The credentials of the mail account and the chat token.

use vstd::prelude::*;

verus! {

/// What the bot logs in with.
pub struct Credentials {
    pub email: String,
    pub password: String,
    pub domain: String,
    pub token: String,
}

impl Credentials {
    /// Credentials with every field empty.
    pub fn new() -> (r: Credentials)
        ensures
            r.email@.len() == 0,
            r.password@.len() == 0,
            r.domain@.len() == 0,
            r.token@.len() == 0,
    {
        Credentials {
            email: String::new(),
            password: String::new(),
            domain: String::new(),
            token: String::new(),
        }
    }
}

} // verus!
