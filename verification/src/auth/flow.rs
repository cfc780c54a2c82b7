//! The decisions of the OAuth 2.0 authorization code + PKCE flow: the
//! authorize URL, the callback check, the token-endpoint form bodies and
//! what to persist. The HTTP listener, the browser and the token POST are
//! driven by the application around these functions.

use vstd::prelude::*;
use vstd::utf8::encode_utf8;
use crate::text::{has_substring, str_contains, str_equal};
use super::config::{ClerkConfig, endpoint};
use super::state::AuthState;
use super::tokens::TokenSet;

verus! {

/// Port of the one-shot localhost callback listener. Clerk accepts no
/// wildcard ports, so one fixed port is registered in its dashboard.
pub const CALLBACK_PORT: u16 = 8787;

/// Redirect URI registered with Clerk for [`CALLBACK_PORT`].
pub const REDIRECT_URI: &'static str = "http://127.0.0.1:8787/callback";

/// Scopes requested; `offline_access` makes Clerk issue a refresh token.
pub const SCOPES: &'static str = "openid profile email offline_access";

/// Seconds the flow waits for the browser callback.
pub const CALLBACK_TIMEOUT_SECS: u64 = 300;

/// Seconds allowed for a token endpoint request.
pub const TOKEN_REQUEST_TIMEOUT_SECS: u64 = 15;

/// A byte that URL encoding leaves as is: ASCII alphanumerics and `-._~`.
pub open spec fn is_unreserved(b: u8) -> bool {
    (48 <= b <= 57) || (65 <= b <= 90) || (97 <= b <= 122) || b == 45 || b == 46 || b == 95
        || b == 126
}

/// Upper-case hexadecimal digit for `d < 16`.
pub open spec fn hex_upper(d: u8) -> char {
    if d < 10 {
        (48 + d) as char
    } else {
        (55 + d) as char
    }
}

/// Percent-encoding of a byte string: unreserved bytes stand for themselves,
/// every other byte becomes `%` and two upper-case hex digits.
pub open spec fn percent_encoded(bytes: Seq<u8>) -> Seq<char>
    decreases bytes.len(),
{
    if bytes.len() == 0 {
        Seq::empty()
    } else {
        let b = bytes[0];
        let head = if is_unreserved(b) {
            seq![b as char]
        } else {
            seq!['%', hex_upper(b >> 4), hex_upper(b & 15)]
        };
        head + percent_encoded(bytes.drop_first())
    }
}

/// Percent-encoding of the UTF-8 encoding of `s`.
pub open spec fn url_encoded(s: Seq<char>) -> Seq<char> {
    percent_encoded(encode_utf8(s))
}

/// `urlencoding::encode`: percent-encodes every UTF-8 byte of `s` except
/// ASCII alphanumerics and `-`, `.`, `_`, `~`, writing `%` and two
/// upper-case hex digits (the crate's `to_hex_digit`) for the others.
#[verifier::external_body]
fn url_encode(s: &str) -> (r: String)
    ensures
        r@ == url_encoded(s@),
{
    urlencoding::encode(s).into_owned()
}

/// The authorize URL the browser is sent to.
pub open spec fn authorize_request(
    issuer: Seq<char>,
    client_id: Seq<char>,
    redirect_uri: Seq<char>,
    state: Seq<char>,
    challenge: Seq<char>,
) -> Seq<char> {
    endpoint(issuer, "/oauth/authorize"@) + "?response_type=code&client_id="@ + url_encoded(
        client_id,
    ) + "&redirect_uri="@ + url_encoded(redirect_uri) + "&scope="@ + url_encoded(SCOPES@)
        + "&state="@ + url_encoded(state) + "&code_challenge="@ + url_encoded(challenge)
        + "&code_challenge_method=S256"@
}

/// Build the authorize URL for one sign-in attempt.
pub fn authorize_request_url(cfg: &ClerkConfig, redirect_uri: &str, state: &str, challenge: &str) -> (r:
    String)
    ensures
        r@ == authorize_request(cfg.issuer@, cfg.client_id@, redirect_uri@, state@, challenge@),
{
    let mut url = cfg.authorize_url();
    url.append("?response_type=code&client_id=");
    url.append(url_encode(cfg.client_id.as_str()).as_str());
    url.append("&redirect_uri=");
    url.append(url_encode(redirect_uri).as_str());
    url.append("&scope=");
    url.append(url_encode(SCOPES).as_str());
    url.append("&state=");
    url.append(url_encode(state).as_str());
    url.append("&code_challenge=");
    url.append(url_encode(challenge).as_str());
    url.append("&code_challenge_method=S256");
    url
}

/// Why the browser callback did not yield an authorization code.
#[derive(Debug, Clone, PartialEq, Eq)]
pub enum CallbackError {
    /// The authorization server reported an error; its text is kept.
    Authorize(String),
    /// The returned state differs from the one sent: possible CSRF.
    StateMismatch,
    /// `code` or `state` is missing from the callback query.
    Missing,
}

impl CallbackError {
    /// The message surfaced to the user.
    pub fn message(&self) -> (r: String)
        ensures
            r@ == (match self {
                CallbackError::Authorize(e) => "authorize error: "@ + e@,
                CallbackError::StateMismatch => "CSRF state mismatch"@,
                CallbackError::Missing => "missing code/state in callback"@,
            }),
    {
        match self {
            CallbackError::Authorize(e) => {
                let mut m = String::from_str("authorize error: ");
                m.append(e.as_str());
                m
            },
            CallbackError::StateMismatch => String::from_str("CSRF state mismatch"),
            CallbackError::Missing => String::from_str("missing code/state in callback"),
        }
    }
}

/// Judge the query of the localhost callback. An `error` parameter wins;
/// otherwise both `code` and `state` must be present and `state` must equal
/// the nonce that was sent.
pub fn callback_outcome(
    code: Option<&str>,
    state: Option<&str>,
    error: Option<&str>,
    expected_state: &str,
) -> (r: Result<String, CallbackError>)
    ensures
        error is Some ==> (r matches Err(CallbackError::Authorize(e)) && e@ == error->0@),
        error is None && code is Some && state is Some && state->0@ == expected_state@ ==> (r matches Ok(
            c,
        ) && c@ == code->0@),
        error is None && code is Some && state is Some && state->0@ != expected_state@ ==> r
            == Err::<String, CallbackError>(CallbackError::StateMismatch),
        error is None && (code is None || state is None) ==> r == Err::<String, CallbackError>(
            CallbackError::Missing,
        ),
{
    if let Some(e) = error {
        return Err(CallbackError::Authorize(String::from_str(e)));
    }
    match (code, state) {
        (Some(c), Some(s)) => {
            if str_equal(s, expected_state) {
                Ok(String::from_str(c))
            } else {
                Err(CallbackError::StateMismatch)
            }
        },
        _ => Err(CallbackError::Missing),
    }
}

/// Page shown in the browser after the callback.
pub fn callback_page(succeeded: bool) -> (r: &'static str)
    ensures
        succeeded ==> r@ == "<html><body><h2>Sign-in complete.</h2><p>You can close this tab.</p></body></html>"@,
        !succeeded ==> r@ == "<html><body><h2>Sign-in failed.</h2><p>Return to the app to retry.</p></body></html>"@,
{
    if succeeded {
        "<html><body><h2>Sign-in complete.</h2><p>You can close this tab.</p></body></html>"
    } else {
        "<html><body><h2>Sign-in failed.</h2><p>Return to the app to retry.</p></body></html>"
    }
}

/// The character views of a list of form fields.
pub open spec fn form_view(v: Seq<(String, String)>) -> Seq<(Seq<char>, Seq<char>)> {
    v.map_values(|p: (String, String)| (p.0@, p.1@))
}

fn field(k: &str, v: &str) -> (r: (String, String))
    ensures
        r.0@ == k@,
        r.1@ == v@,
{
    (String::from_str(k), String::from_str(v))
}

/// Form body of the `authorization_code` grant.
pub fn authorization_code_form(cfg: &ClerkConfig, code: &str, redirect_uri: &str, verifier: &str) -> (r:
    Vec<(String, String)>)
    ensures
        form_view(r@) == seq![
            ("grant_type"@, "authorization_code"@),
            ("code"@, code@),
            ("redirect_uri"@, redirect_uri@),
            ("client_id"@, cfg.client_id@),
            ("code_verifier"@, verifier@),
        ],
{
    let mut v: Vec<(String, String)> = Vec::new();
    v.push(field("grant_type", "authorization_code"));
    v.push(field("code", code));
    v.push(field("redirect_uri", redirect_uri));
    v.push(field("client_id", cfg.client_id.as_str()));
    v.push(field("code_verifier", verifier));
    assert(form_view(v@) =~= seq![
        ("grant_type"@, "authorization_code"@),
        ("code"@, code@),
        ("redirect_uri"@, redirect_uri@),
        ("client_id"@, cfg.client_id@),
        ("code_verifier"@, verifier@),
    ]);
    v
}

/// Form body of the `refresh_token` grant.
pub fn refresh_token_form(cfg: &ClerkConfig, refresh_token: &str) -> (r: Vec<(String, String)>)
    ensures
        form_view(r@) == seq![
            ("grant_type"@, "refresh_token"@),
            ("refresh_token"@, refresh_token@),
            ("client_id"@, cfg.client_id@),
        ],
{
    let mut v: Vec<(String, String)> = Vec::new();
    v.push(field("grant_type", "refresh_token"));
    v.push(field("refresh_token", refresh_token));
    v.push(field("client_id", cfg.client_id.as_str()));
    assert(form_view(v@) =~= seq![
        ("grant_type"@, "refresh_token"@),
        ("refresh_token"@, refresh_token@),
        ("client_id"@, cfg.client_id@),
    ]);
    v
}

/// The error text for a non-success token endpoint reply:
/// `"{what} {status}: {body}"`.
pub fn endpoint_error_message(what: &str, status: &str, body: &str) -> (r: String)
    ensures
        r@ == what@ + " "@ + status@ + ": "@ + body@,
{
    let mut m = String::from_str(what);
    m.append(" ");
    m.append(status);
    m.append(": ");
    m.append(body);
    m
}

/// Refresh token to write to the keychain after sign-in: whichever one the
/// server issued.
pub fn refresh_to_store_after_sign_in(tokens: &TokenSet) -> (r: Option<String>)
    ensures
        r == tokens.refresh_token,
{
    tokens.refresh_token.clone()
}

/// Refresh token to write back after a refresh: only a rotated one, i.e. one
/// that differs from the token used for the request.
pub fn rotated_refresh_token(tokens: &TokenSet, used: &str) -> (r: Option<String>)
    ensures
        r is Some <==> (tokens.refresh_token is Some && tokens.refresh_token->0@ != used@),
        r is Some ==> r->0@ == tokens.refresh_token->0@,
{
    match &tokens.refresh_token {
        Some(rt) => {
            if str_equal(rt.as_str(), used) {
                None
            } else {
                Some(String::from_str(rt.as_str()))
            }
        },
        None => None,
    }
}

/// An error message that reports an HTTP 400, 401 or 403 from the token
/// endpoint: the refresh token is then confirmed bad.
pub open spec fn is_auth_rejection(msg: Seq<char>) -> bool {
    has_substring(msg, "400"@) || has_substring(msg, "401"@) || has_substring(msg, "403"@)
}

/// Executable [`is_auth_rejection`].
pub fn auth_rejected(msg: &str) -> (r: bool)
    ensures
        r == is_auth_rejection(msg@),
{
    str_contains(msg, "400") || str_contains(msg, "401") || str_contains(msg, "403")
}

/// State after a sign-in attempt: signed in with the new tokens, or failed
/// with the error's text.
pub fn sign_in_outcome(result: Result<TokenSet, String>) -> (r: AuthState)
    ensures
        match result {
            Ok(t) => r == (AuthState::Authenticated {
                access_token: t.access_token,
                expires_at: t.expires_at,
            }),
            Err(m) => r == (AuthState::Failed { message: m }),
        },
{
    match result {
        Ok(t) => AuthState::from(t),
        Err(message) => AuthState::Failed { message },
    }
}

/// Outcome of restoring a session from the keychain at start-up.
#[derive(Debug, Clone, PartialEq, Eq)]
pub struct RestoreOutcome {
    pub state: AuthState,
    /// The stored refresh token was rejected and must be deleted.
    pub delete_stored_token: bool,
}

/// Restoring at start-up: on success the user is signed in; on failure the
/// user must sign in again, and the stored token is deleted only when the
/// server explicitly rejected it (a network error keeps it).
pub fn restore_outcome(result: Result<TokenSet, String>) -> (r: RestoreOutcome)
    ensures
        match result {
            Ok(t) => r.state == (AuthState::Authenticated {
                access_token: t.access_token,
                expires_at: t.expires_at,
            }) && !r.delete_stored_token,
            Err(m) => r.state == AuthState::Unauthenticated && r.delete_stored_token
                == is_auth_rejection(m@),
        },
{
    match result {
        Ok(t) => RestoreOutcome { state: AuthState::from(t), delete_stored_token: false },
        Err(m) => RestoreOutcome {
            state: AuthState::Unauthenticated,
            delete_stored_token: auth_rejected(m.as_str()),
        },
    }
}

/// Initial state at start-up: `Loading` while a stored refresh token is
/// being exchanged, so that no second sign-in can start meanwhile.
pub fn initial_state(has_stored_refresh: bool) -> (r: AuthState)
    ensures
        has_stored_refresh ==> r == AuthState::Loading,
        !has_stored_refresh ==> r == AuthState::Unauthenticated,
{
    if has_stored_refresh {
        AuthState::Loading
    } else {
        AuthState::Unauthenticated
    }
}

} // verus!
