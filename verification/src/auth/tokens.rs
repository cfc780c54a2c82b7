//! Token shapes shared across the auth module. Times are Unix seconds.

use vstd::prelude::*;
use crate::clock::{UtcInstant, now_utc};

verus! {

/// One coherent set of tokens from a token endpoint response.
#[derive(Debug, Clone, PartialEq, Eq)]
pub struct TokenSet {
    pub access_token: String,
    /// Refresh responses may omit a new refresh token; the previous one is
    /// then carried forward.
    pub refresh_token: Option<String>,
    /// Absolute expiry.
    pub expires_at: UtcInstant,
}

/// Wire shape of the `/oauth/token` JSON response.
#[derive(Debug, Clone, PartialEq, Eq)]
pub struct TokenResponse {
    pub access_token: String,
    pub refresh_token: Option<String>,
    /// Lifetime in seconds (RFC 6749).
    pub expires_in: i64,
}

/// Largest lifetime, in seconds, that a `chrono::TimeDelta` can hold.
pub const MAX_LIFETIME_SECS: i64 = 9_223_372_036_854_775i64;

/// The refresh token to keep: the server's new one, else the previous one.
pub open spec fn kept_refresh(new: Option<String>, prev: Option<String>) -> Option<String> {
    match new {
        Some(t) => Some(t),
        None => prev,
    }
}

impl TokenSet {
    /// Build a token set from a response received at instant `now`: it
    /// expires `expires_in` whole seconds later.
    pub fn from_response_at(resp: TokenResponse, prev_refresh: Option<String>, now: UtcInstant) -> (r:
        TokenSet)
        requires
            i64::MIN <= now.secs + resp.expires_in <= i64::MAX,
        ensures
            r.access_token == resp.access_token,
            r.refresh_token == kept_refresh(resp.refresh_token, prev_refresh),
            r.expires_at == (UtcInstant { secs: (now.secs + resp.expires_in) as i64, nanos: now.nanos }),
    {
        let refresh_token = match resp.refresh_token {
            Some(t) => Some(t),
            None => prev_refresh,
        };
        TokenSet {
            access_token: resp.access_token,
            refresh_token,
            expires_at: UtcInstant { secs: now.secs + resp.expires_in, nanos: now.nanos },
        }
    }

    /// Build a token set from a fresh response, expiring `expires_in` seconds
    /// from now. Without a new refresh token the previous one carries forward.
    pub fn from_response(resp: TokenResponse, prev_refresh: Option<String>) -> (r: TokenSet)
        requires
            -MAX_LIFETIME_SECS <= resp.expires_in <= MAX_LIFETIME_SECS,
        ensures
            r.access_token == resp.access_token,
            r.refresh_token == kept_refresh(resp.refresh_token, prev_refresh),
            // the expiry is `expires_in` seconds after some instant at or
            // after the epoch
            0 <= r.expires_at.secs - resp.expires_in < 10_000_000_000_000i64,
            r.expires_at.nanos < 1_000_000_000,
    {
        let now = now_utc();
        Self::from_response_at(resp, prev_refresh, now)
    }
}

/// A refresh token returned by the server always wins over the previous one;
/// the previous one survives exactly when the server returned none.
pub proof fn lemma_refresh_carry_forward(new: Option<String>, prev: Option<String>)
    ensures
        new is Some ==> kept_refresh(new, prev) == new,
        new is None ==> kept_refresh(new, prev) == prev,
{
}

} // verus!
