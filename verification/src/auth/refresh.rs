//! Decisions of the background refresh worker. The worker reads the auth
//! state, sleeps until 20% of a token's lifetime remains, then exchanges the
//! stored refresh token; the application performs the sleeping, keychain and
//! HTTP work and feeds the outcomes back here.

use vstd::prelude::*;
use super::flow::{auth_rejected, is_auth_rejection};
use super::state::AuthState;
use super::tokens::TokenSet;
use crate::clock::{UtcInstant, whole_seconds_between};

verus! {

/// Access tokens live 7200 s; refresh once at most this many remain.
pub const REFRESH_THRESHOLD_SECS: i64 = 1440;

/// Lifetime of an access token issued by Clerk.
pub const TOKEN_LIFETIME_SECS: u64 = 7200;

/// Shortest sleep before the threshold, so the worker never busy-loops.
pub const MIN_SLEEP_SECS: u64 = 30;

/// Poll interval while nobody is signed in.
pub const UNAUTHENTICATED_POLL_SECS: u64 = 30;

/// Back-off after a failed iteration.
pub const BACKOFF_SECS: u64 = 60;

/// Message shown when no refresh token is stored.
pub const MISSING_TOKEN_MESSAGE: &'static str = "refresh token missing — please sign in again";

/// Message shown when the server rejected the refresh token.
pub const EXPIRED_SESSION_MESSAGE: &'static str = "session expired — please sign in again";

/// What one iteration does first.
#[derive(Debug, Clone, Copy, PartialEq, Eq)]
pub enum RefreshPlan {
    /// Nothing to do yet: sleep this many seconds.
    Sleep(u64),
    /// The threshold is crossed: refresh now.
    RefreshNow,
}

/// What the worker does after an attempt.
#[derive(Debug, Clone, PartialEq, Eq)]
pub struct RefreshOutcome {
    /// New auth state to publish, if any.
    pub new_state: Option<AuthState>,
    /// The stored refresh token was rejected and must be deleted.
    pub delete_stored_token: bool,
    /// Seconds to sleep before the next iteration.
    pub sleep_secs: u64,
}

/// Seconds the worker sleeps while a token has `remaining` seconds left
/// above the threshold.
pub open spec fn sleep_before_threshold(remaining: int) -> int {
    if remaining - REFRESH_THRESHOLD_SECS > MIN_SLEEP_SECS {
        remaining - REFRESH_THRESHOLD_SECS
    } else {
        MIN_SLEEP_SECS as int
    }
}

/// Executable [`whole_seconds_between`].
fn whole_seconds(from: UtcInstant, to: UtcInstant) -> (r: i128)
    ensures
        r == whole_seconds_between(from, to),
{
    let d: i128 = ((to.secs as i128) - (from.secs as i128)) * 1_000_000_000 + ((to.nanos as i128)
        - (from.nanos as i128));
    if d >= 0 {
        d / 1_000_000_000
    } else {
        let m: i128 = -d;
        -(m / 1_000_000_000)
    }
}

/// First decision of an iteration, given the current state and the time:
/// the whole seconds left before expiry decide.
pub fn refresh_plan(state: &AuthState, now: UtcInstant) -> (r: RefreshPlan)
    ensures
        match state {
            AuthState::Authenticated { expires_at, .. } => {
                let remaining = whole_seconds_between(now, *expires_at);
                if remaining > REFRESH_THRESHOLD_SECS {
                    r == RefreshPlan::Sleep(sleep_before_threshold(remaining) as u64)
                } else {
                    r == RefreshPlan::RefreshNow
                }
            },
            _ => r == RefreshPlan::Sleep(UNAUTHENTICATED_POLL_SECS),
        },
{
    match state {
        AuthState::Authenticated { expires_at, .. } => {
            let remaining: i128 = whole_seconds(now, *expires_at);
            if remaining > REFRESH_THRESHOLD_SECS as i128 {
                let until = remaining - REFRESH_THRESHOLD_SECS as i128;
                if until > MIN_SLEEP_SECS as i128 {
                    RefreshPlan::Sleep(until as u64)
                } else {
                    RefreshPlan::Sleep(MIN_SLEEP_SECS)
                }
            } else {
                RefreshPlan::RefreshNow
            }
        },
        _ => RefreshPlan::Sleep(UNAUTHENTICATED_POLL_SECS),
    }
}

/// Without a stored refresh token the session cannot be renewed: report it
/// and back off.
pub fn missing_token_outcome() -> (r: RefreshOutcome)
    ensures
        r.new_state matches Some(AuthState::Failed { message }) && message@
            == MISSING_TOKEN_MESSAGE@,
        !r.delete_stored_token,
        r.sleep_secs == BACKOFF_SECS,
{
    RefreshOutcome {
        new_state: Some(AuthState::Failed { message: String::from_str(MISSING_TOKEN_MESSAGE) }),
        delete_stored_token: false,
        sleep_secs: BACKOFF_SECS,
    }
}

/// After the refresh request: publish the new tokens and sleep most of their
/// lifetime, or on a rejection (HTTP 400/401/403) drop the stored token and
/// ask the user to sign in again; other errors only back off.
pub fn refresh_outcome(result: Result<TokenSet, String>) -> (r: RefreshOutcome)
    ensures
        match result {
            Ok(t) => r.new_state == Some(
                AuthState::Authenticated { access_token: t.access_token, expires_at: t.expires_at },
            ) && !r.delete_stored_token && r.sleep_secs == (TOKEN_LIFETIME_SECS
                - REFRESH_THRESHOLD_SECS) as u64,
            Err(m) => r.sleep_secs == BACKOFF_SECS && r.delete_stored_token == is_auth_rejection(m@)
                && (is_auth_rejection(m@) ==> (r.new_state matches Some(
                AuthState::Failed { message },
            ) && message@ == EXPIRED_SESSION_MESSAGE@)) && (!is_auth_rejection(m@)
                ==> r.new_state is None),
        },
{
    match result {
        Ok(t) => RefreshOutcome {
            new_state: Some(AuthState::from(t)),
            delete_stored_token: false,
            sleep_secs: (TOKEN_LIFETIME_SECS - REFRESH_THRESHOLD_SECS as u64),
        },
        Err(m) => {
            if auth_rejected(m.as_str()) {
                RefreshOutcome {
                    new_state: Some(
                        AuthState::Failed { message: String::from_str(EXPIRED_SESSION_MESSAGE) },
                    ),
                    delete_stored_token: true,
                    sleep_secs: BACKOFF_SECS,
                }
            } else {
                RefreshOutcome { new_state: None, delete_stored_token: false, sleep_secs: BACKOFF_SECS }
            }
        },
    }
}

/// Sleeping before the threshold never overshoots it: the worker wakes
/// with exactly the threshold left, unless the minimum sleep applies.
pub proof fn lemma_sleep_lands_on_threshold(remaining: int)
    requires
        remaining > REFRESH_THRESHOLD_SECS,
    ensures
        sleep_before_threshold(remaining) >= MIN_SLEEP_SECS,
        sleep_before_threshold(remaining) > MIN_SLEEP_SECS ==> remaining - sleep_before_threshold(
            remaining,
        ) == REFRESH_THRESHOLD_SECS,
        remaining - REFRESH_THRESHOLD_SECS <= MIN_SLEEP_SECS ==> sleep_before_threshold(remaining)
            == MIN_SLEEP_SECS,
{
}

} // verus!
