//! The authentication state shown by the UI.

use vstd::prelude::*;
use super::tokens::TokenSet;
use crate::clock::UtcInstant;

verus! {

/// Where the user stands with respect to sign-in.
#[derive(Debug, Clone, PartialEq, Eq)]
pub enum AuthState {
    Unauthenticated,
    Loading,
    Authenticated { access_token: String, expires_at: UtcInstant },
    Failed { message: String },
}

impl AuthState {
    /// The bearer token for an outbound request: the access token when
    /// signed in, nothing otherwise.
    pub fn bearer(&self) -> (r: Option<String>)
        ensures
            match *self {
                AuthState::Authenticated { access_token, .. } => r == Some(access_token),
                _ => r is None,
            },
    {
        match self {
            AuthState::Authenticated { access_token, .. } => Some(access_token.clone()),
            _ => None,
        }
    }
}

impl From<TokenSet> for AuthState {
    fn from(t: TokenSet) -> (r: AuthState) {
        AuthState::Authenticated { access_token: t.access_token, expires_at: t.expires_at }
    }
}

impl vstd::std_specs::convert::FromSpecImpl<TokenSet> for AuthState {
    open spec fn obeys_from_spec() -> bool {
        true
    }

    open spec fn from_spec(t: TokenSet) -> AuthState {
        AuthState::Authenticated { access_token: t.access_token, expires_at: t.expires_at }
    }
}

} // verus!
