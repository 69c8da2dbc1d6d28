//! What is kept of a sign-in.

use vstd::prelude::*;

use crate::clock::{clock_may_read, fresh_at, now_ms, EXPIRY_MARGIN_MS};

verus! {

/// What is kept to open a session again without asking for a code.
#[derive(Debug, Clone)]
pub struct MicrosoftCredentials {
    pub refresh_token: String,
    /// The token that the game receives: short-lived, renewed without the user.
    pub access_token: String,
    /// Milliseconds since 1970.
    pub expires_at_ms: u64,
    pub xuid: Option<String>,
}

impl MicrosoftCredentials {
    /// Whether the access token is still good at `now_ms` to start a game.
    pub open spec fn good_at(self, now_ms: u64) -> bool {
        fresh_at(now_ms as int, self.expires_at_ms as int)
    }

    /// Whether the access token is still good at `now_ms` to start a game.
    pub fn is_fresh_at(&self, now_ms: u64) -> (r: bool)
        ensures
            r == self.good_at(now_ms),
    {
        crate::clock::is_fresh_at(now_ms, self.expires_at_ms)
    }

    /// Whether the access token is still good to start a game, by the clock:
    /// what `is_fresh_at` answers at the clock's reading.
    pub fn is_fresh(&self) -> (r: bool)
        ensures
            self.expires_at_ms < EXPIRY_MARGIN_MS ==> !r,
            exists|now: u64| #[trigger] clock_may_read(now) && r == self.good_at(now),
    {
        self.is_fresh_at(now_ms())
    }
}

} // verus!
