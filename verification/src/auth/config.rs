//! Clerk configuration: the issuer of the Clerk instance and the OAuth
//! application's client id. The endpoints are derived from the issuer.

use vstd::prelude::*;
use crate::text::{is_blank, str_is_blank, trim_end_char, trim_end_matches_char};

verus! {

/// Issuer and public client id of the Clerk OAuth application.
#[derive(Debug, Clone)]
pub struct ClerkConfig {
    /// e.g. `https://well-hagfish-71.clerk.accounts.dev`.
    pub issuer: String,
    /// The OAuth application's client id (public PKCE client, no secret).
    pub client_id: String,
}

/// Why a configuration was refused.
#[derive(Debug, Clone, PartialEq, Eq)]
pub enum ConfigError {
    /// `CLERK_ISSUER` is not set.
    MissingIssuer,
    /// `CLERK_CLIENT_ID` is not set.
    MissingClientId,
    /// One of the two values is empty or white space only.
    Blank,
}

/// The issuer with its trailing slashes removed, followed by `suffix`.
pub open spec fn endpoint(issuer: Seq<char>, suffix: Seq<char>) -> Seq<char> {
    trim_end_char(issuer, '/') + suffix
}

impl ClerkConfig {
    /// Validate the two configuration values as read from the environment.
    /// A missing issuer is reported before a missing client id; both must be
    /// non-blank.
    pub fn from_values(issuer: Option<String>, client_id: Option<String>) -> (r: Result<
        ClerkConfig,
        ConfigError,
    >)
        ensures
            issuer is None ==> r == Err::<ClerkConfig, ConfigError>(ConfigError::MissingIssuer),
            issuer is Some && client_id is None ==> r == Err::<ClerkConfig, ConfigError>(
                ConfigError::MissingClientId,
            ),
            issuer is Some && client_id is Some ==> (match r {
                Ok(cfg) => !is_blank(issuer->0@) && !is_blank(client_id->0@) && cfg.issuer
                    == issuer->0 && cfg.client_id == client_id->0,
                Err(e) => e == ConfigError::Blank && (is_blank(issuer->0@) || is_blank(
                    client_id->0@,
                )),
            }),
    {
        let issuer = match issuer {
            Some(i) => i,
            None => return Err(ConfigError::MissingIssuer),
        };
        let client_id = match client_id {
            Some(c) => c,
            None => return Err(ConfigError::MissingClientId),
        };
        if str_is_blank(issuer.as_str()) || str_is_blank(client_id.as_str()) {
            return Err(ConfigError::Blank);
        }
        Ok(ClerkConfig { issuer, client_id })
    }

    /// Authorize endpoint: `{issuer}/oauth/authorize`, whatever number of
    /// trailing slashes the issuer carries.
    pub fn authorize_url(&self) -> (r: String)
        ensures
            r@ == endpoint(self.issuer@, "/oauth/authorize"@),
    {
        let mut base = trim_end_matches_char(self.issuer.as_str(), '/');
        base.append("/oauth/authorize");
        base
    }

    /// Token endpoint: `{issuer}/oauth/token`.
    pub fn token_url(&self) -> (r: String)
        ensures
            r@ == endpoint(self.issuer@, "/oauth/token"@),
    {
        let mut base = trim_end_matches_char(self.issuer.as_str(), '/');
        base.append("/oauth/token");
        base
    }
}

/// Appending a slash to the issuer does not change any endpoint built from it.
pub proof fn lemma_trailing_slash_ignored(issuer: Seq<char>, suffix: Seq<char>)
    ensures
        endpoint(issuer.push('/'), suffix) == endpoint(issuer, suffix),
{
    assert(issuer.push('/').drop_last() =~= issuer);
}

/// An endpoint never shows a slash right before its suffix unless the suffix
/// itself starts one: the issuer part carries no trailing slash.
pub proof fn lemma_endpoint_base_has_no_trailing_slash(issuer: Seq<char>)
    ensures
        trim_end_char(issuer, '/').len() == 0 || trim_end_char(issuer, '/').last() != '/',
    decreases issuer.len(),
{
    if issuer.len() > 0 && issuer.last() == '/' {
        lemma_endpoint_base_has_no_trailing_slash(issuer.drop_last());
    }
}

} // verus!
