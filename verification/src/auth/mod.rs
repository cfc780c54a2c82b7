//! Desktop authentication: OAuth 2.0 authorization code + PKCE against Clerk.

pub mod config;
pub mod flow;
pub mod pkce;
pub mod refresh;
pub mod state;
pub mod tokens;

pub use state::AuthState;
