use zaned::clock::UtcInstant;
use zaned::auth::config::{ClerkConfig, ConfigError};
use zaned::auth::flow::{
    auth_rejected, authorization_code_form, authorize_request_url, callback_outcome, callback_page,
    endpoint_error_message, initial_state, refresh_token_form, restore_outcome,
    rotated_refresh_token, sign_in_outcome, CallbackError, REDIRECT_URI,
};
use zaned::auth::pkce::{new_pair, random_state};
use zaned::auth::refresh::{
    missing_token_outcome, refresh_outcome, refresh_plan, RefreshPlan, BACKOFF_SECS,
};
use zaned::auth::state::AuthState;
use zaned::auth::tokens::{TokenResponse, TokenSet};

fn cfg(issuer: &str) -> ClerkConfig {
    ClerkConfig { issuer: issuer.to_string(), client_id: "pk_test".to_string() }
}

#[test]
fn builds_endpoints_with_trailing_slash() {
    let cfg = ClerkConfig {
        issuer: "https://x.clerk.accounts.dev/".to_string(),
        client_id: "pk_test".to_string(),
    };
    assert_eq!(cfg.authorize_url(), "https://x.clerk.accounts.dev/oauth/authorize");
    assert_eq!(cfg.token_url(), "https://x.clerk.accounts.dev/oauth/token");
}

#[test]
fn builds_endpoints_without_trailing_slash() {
    let cfg = ClerkConfig {
        issuer: "https://x.clerk.accounts.dev".to_string(),
        client_id: "pk_test".to_string(),
    };
    assert_eq!(cfg.authorize_url(), "https://x.clerk.accounts.dev/oauth/authorize");
}

#[test]
fn endpoints_ignore_repeated_trailing_slashes() {
    assert_eq!(cfg("https://a.dev///").token_url(), "https://a.dev/oauth/token");
    assert_eq!(cfg("").authorize_url(), "/oauth/authorize");
}

#[test]
fn config_values_are_validated() {
    assert_eq!(
        ClerkConfig::from_values(None, Some("id".into())).unwrap_err(),
        ConfigError::MissingIssuer
    );
    assert_eq!(
        ClerkConfig::from_values(Some("https://a".into()), None).unwrap_err(),
        ConfigError::MissingClientId
    );
    assert_eq!(
        ClerkConfig::from_values(Some("  \t".into()), Some("id".into())).unwrap_err(),
        ConfigError::Blank
    );
    assert_eq!(
        ClerkConfig::from_values(Some("https://a".into()), Some("\u{3000}".into())).unwrap_err(),
        ConfigError::Blank
    );
    let ok = ClerkConfig::from_values(Some("https://a".into()), Some(" id ".into())).unwrap();
    assert_eq!(ok.issuer, "https://a");
    assert_eq!(ok.client_id, " id ");
}

#[test]
fn pkce_pair_uses_s256() {
    let pair = new_pair();
    assert_eq!(pair.method.as_str(), "S256");
    assert_eq!(pair.verifier.len(), 43);
    assert_ne!(pair.challenge, pair.verifier);
}

#[test]
fn random_state_is_unique_per_call() {
    let a = random_state();
    let b = random_state();
    assert_ne!(a, b);
    assert!(a.len() >= 32);
    assert_eq!(a.len(), 43);
    assert!(a.chars().all(|c| c.is_ascii_alphanumeric() || c == '-' || c == '_'));
}

#[test]
fn from_response_carries_forward_prev_refresh_when_missing() {
    let resp = TokenResponse {
        access_token: "new_access".into(),
        refresh_token: None,
        expires_in: 7200,
    };
    let set = TokenSet::from_response(resp, Some("prev_refresh".into()));
    assert_eq!(set.access_token, "new_access");
    assert_eq!(set.refresh_token.as_deref(), Some("prev_refresh"));
}

#[test]
fn from_response_uses_new_refresh_when_present() {
    let resp = TokenResponse {
        access_token: "new_access".into(),
        refresh_token: Some("new_refresh".into()),
        expires_in: 7200,
    };
    let set = TokenSet::from_response(resp, Some("prev_refresh".into()));
    assert_eq!(set.refresh_token.as_deref(), Some("new_refresh"));
}

#[test]
fn from_response_at_sets_absolute_expiry() {
    let resp = TokenResponse { access_token: "a".into(), refresh_token: None, expires_in: 7200 };
    let set = TokenSet::from_response_at(resp, None, UtcInstant { secs: 1_000, nanos: 250 });
    assert_eq!(set.expires_at, UtcInstant { secs: 8_200, nanos: 250 });
    assert_eq!(set.refresh_token, None);
}

#[test]
fn token_set_becomes_authenticated_state() {
    let set = TokenSet { access_token: "tok".into(), refresh_token: None, expires_at: UtcInstant { secs: 5, nanos: 0 } };
    assert_eq!(
        AuthState::from(set),
        AuthState::Authenticated { access_token: "tok".into(), expires_at: UtcInstant { secs: 5, nanos: 0 } }
    );
}

#[test]
fn authorize_url_encodes_every_parameter() {
    let c = ClerkConfig { issuer: "https://x.dev/".into(), client_id: "pk test".into() };
    let url = authorize_request_url(&c, REDIRECT_URI, "st~a_te", "ch-al.lenge");
    assert_eq!(
        url,
        "https://x.dev/oauth/authorize?response_type=code&client_id=pk%20test\
         &redirect_uri=http%3A%2F%2F127.0.0.1%3A8787%2Fcallback\
         &scope=openid%20profile%20email%20offline_access&state=st~a_te\
         &code_challenge=ch-al.lenge&code_challenge_method=S256"
    );
}

#[test]
fn authorize_url_percent_encodes_utf8_bytes() {
    let c = ClerkConfig { issuer: "https://x.dev".into(), client_id: "é".into() };
    let url = authorize_request_url(&c, "r", "s", "c");
    assert!(url.contains("client_id=%C3%A9&"));
}

#[test]
fn callback_checks_error_state_and_code() {
    assert_eq!(
        callback_outcome(Some("c"), Some("s"), Some("access_denied"), "s"),
        Err(CallbackError::Authorize("access_denied".into()))
    );
    assert_eq!(callback_outcome(Some("c"), Some("s"), None, "s"), Ok("c".to_string()));
    assert_eq!(
        callback_outcome(Some("c"), Some("x"), None, "s"),
        Err(CallbackError::StateMismatch)
    );
    assert_eq!(callback_outcome(None, Some("s"), None, "s"), Err(CallbackError::Missing));
    assert_eq!(callback_outcome(Some("c"), None, None, "s"), Err(CallbackError::Missing));
    assert_eq!(
        CallbackError::Authorize("boom".into()).message(),
        "authorize error: boom"
    );
    assert_eq!(CallbackError::StateMismatch.message(), "CSRF state mismatch");
    assert_eq!(CallbackError::Missing.message(), "missing code/state in callback");
    assert!(callback_page(true).contains("Sign-in complete."));
    assert!(callback_page(false).contains("Sign-in failed."));
}

#[test]
fn token_forms_list_their_fields_in_order() {
    let c = cfg("https://x.dev");
    let form = authorization_code_form(&c, "the_code", REDIRECT_URI, "ver");
    let pairs: Vec<(&str, &str)> = form.iter().map(|(k, v)| (k.as_str(), v.as_str())).collect();
    assert_eq!(
        pairs,
        vec![
            ("grant_type", "authorization_code"),
            ("code", "the_code"),
            ("redirect_uri", "http://127.0.0.1:8787/callback"),
            ("client_id", "pk_test"),
            ("code_verifier", "ver"),
        ]
    );
    let form = refresh_token_form(&c, "rt");
    let pairs: Vec<(&str, &str)> = form.iter().map(|(k, v)| (k.as_str(), v.as_str())).collect();
    assert_eq!(
        pairs,
        vec![("grant_type", "refresh_token"), ("refresh_token", "rt"), ("client_id", "pk_test")]
    );
}

#[test]
fn endpoint_errors_carry_status_and_body() {
    let m = endpoint_error_message("refresh", "401 Unauthorized", "{\"error\":\"x\"}");
    assert_eq!(m, "refresh 401 Unauthorized: {\"error\":\"x\"}");
    assert!(auth_rejected(&m));
    assert!(auth_rejected("token endpoint 400 Bad Request: "));
    assert!(auth_rejected("403"));
    assert!(!auth_rejected("refresh 500 Internal Server Error: oops"));
    assert!(!auth_rejected("40"));
}

#[test]
fn rotated_refresh_token_only_when_it_changed() {
    let same = TokenSet { access_token: "a".into(), refresh_token: Some("rt".into()), expires_at: UtcInstant { secs: 0, nanos: 0 } };
    assert_eq!(rotated_refresh_token(&same, "rt"), None);
    assert_eq!(rotated_refresh_token(&same, "old"), Some("rt".to_string()));
    let none = TokenSet { access_token: "a".into(), refresh_token: None, expires_at: UtcInstant { secs: 0, nanos: 0 } };
    assert_eq!(rotated_refresh_token(&none, "old"), None);
}

#[test]
fn sign_in_and_restore_outcomes() {
    let t = TokenSet { access_token: "a".into(), refresh_token: None, expires_at: UtcInstant { secs: 9, nanos: 0 } };
    assert_eq!(
        sign_in_outcome(Ok(t.clone())),
        AuthState::Authenticated { access_token: "a".into(), expires_at: UtcInstant { secs: 9, nanos: 0 } }
    );
    assert_eq!(
        sign_in_outcome(Err("nope".into())),
        AuthState::Failed { message: "nope".into() }
    );
    let r = restore_outcome(Err("refresh 401 Unauthorized: x".into()));
    assert_eq!(r.state, AuthState::Unauthenticated);
    assert!(r.delete_stored_token);
    let r = restore_outcome(Err("network down".into()));
    assert!(!r.delete_stored_token);
    let r = restore_outcome(Ok(t));
    assert!(!r.delete_stored_token);
    assert_eq!(initial_state(true), AuthState::Loading);
    assert_eq!(initial_state(false), AuthState::Unauthenticated);
}

#[test]
fn refresh_plan_waits_until_threshold() {
    let state = AuthState::Authenticated { access_token: "a".into(), expires_at: UtcInstant { secs: 10_000, nanos: 0 } };
    assert_eq!(refresh_plan(&state, UtcInstant { secs: 2_800, nanos: 0 }), RefreshPlan::Sleep(5_760));
    assert_eq!(refresh_plan(&state, UtcInstant { secs: 8_540, nanos: 0 }), RefreshPlan::Sleep(30));
    assert_eq!(refresh_plan(&state, UtcInstant { secs: 8_560, nanos: 0 }), RefreshPlan::RefreshNow);
    assert_eq!(refresh_plan(&state, UtcInstant { secs: 20_000, nanos: 0 }), RefreshPlan::RefreshNow);
    assert_eq!(refresh_plan(&AuthState::Loading, UtcInstant { secs: 0, nanos: 0 }), RefreshPlan::Sleep(30));
    // Whole seconds left count, rounded toward zero.
    let half = UtcInstant { secs: 8_559, nanos: 500_000_000 };
    assert_eq!(refresh_plan(&state, half), RefreshPlan::RefreshNow);
    let just_after = UtcInstant { secs: 2_800, nanos: 1 };
    assert_eq!(refresh_plan(&state, just_after), RefreshPlan::Sleep(5_759));
    let far = AuthState::Authenticated { access_token: "a".into(), expires_at: UtcInstant { secs: i64::MAX, nanos: 0 } };
    assert_eq!(refresh_plan(&far, UtcInstant { secs: i64::MIN, nanos: 0 }), RefreshPlan::Sleep(u64::MAX - 1440));
}

#[test]
fn refresh_outcomes() {
    let t = TokenSet { access_token: "new".into(), refresh_token: None, expires_at: UtcInstant { secs: 1, nanos: 0 } };
    let ok = refresh_outcome(Ok(t));
    assert_eq!(ok.sleep_secs, 5_760);
    assert_eq!(
        ok.new_state,
        Some(AuthState::Authenticated { access_token: "new".into(), expires_at: UtcInstant { secs: 1, nanos: 0 } })
    );
    let rejected = refresh_outcome(Err("refresh 400 Bad Request: invalid_grant".into()));
    assert!(rejected.delete_stored_token);
    assert_eq!(
        rejected.new_state,
        Some(AuthState::Failed { message: "session expired — please sign in again".into() })
    );
    assert_eq!(rejected.sleep_secs, BACKOFF_SECS);
    let transient = refresh_outcome(Err("POST refresh endpoint: timeout".into()));
    assert!(!transient.delete_stored_token);
    assert_eq!(transient.new_state, None);
    let missing = missing_token_outcome();
    assert_eq!(
        missing.new_state,
        Some(AuthState::Failed { message: "refresh token missing — please sign in again".into() })
    );
    assert_eq!(missing.sleep_secs, 60);
}

#[test]
fn pkce_verifier_and_challenge_are_url_safe() {
    let p = new_pair();
    for s in [&p.verifier, &p.challenge] {
        assert_eq!(s.len(), 43);
        assert!(s.chars().all(|c| c.is_ascii_alphanumeric() || c == '-' || c == '_'));
    }
}

#[test]
fn bearer_only_when_signed_in() {
    let s = AuthState::Authenticated { access_token: "tok".to_string(), expires_at: UtcInstant { secs: 5, nanos: 0 } };
    assert_eq!(s.bearer(), Some("tok".to_string()));
    assert_eq!(AuthState::Loading.bearer(), None);
    assert_eq!(AuthState::Unauthenticated.bearer(), None);
    assert_eq!(AuthState::Failed { message: "x".to_string() }.bearer(), None);
}

#[test]
fn random_state_uses_url_safe_alphabet() {
    let s = random_state();
    assert_eq!(s.len(), 43);
    assert!(s.chars().all(|c| c.is_ascii_alphanumeric() || c == '-' || c == '_'));
}
