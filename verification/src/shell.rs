//! Top-level routing of the window: which screen the auth state calls for,
//! when to load the first symbol, and how the single / multi chart layouts
//! change.

use vstd::prelude::*;
use crate::auth::state::AuthState;

verus! {

/// Symbol shown once the user is signed in.
pub const BOOT_SYMBOL: &'static str = "AAPL";

/// What the window shows.
#[derive(Debug, Clone, Copy, PartialEq, Eq, Structural)]
pub enum Screen {
    /// Charts and panels.
    Main,
    /// A non-interactive placeholder while a stored session is restored,
    /// so that no second sign-in can start meanwhile.
    Loading,
    /// The sign-in screen.
    Login,
}

/// Screen for an auth state.
pub open spec fn screen_of(state: AuthState) -> Screen {
    match state {
        AuthState::Authenticated { .. } => Screen::Main,
        AuthState::Loading => Screen::Loading,
        _ => Screen::Login,
    }
}

/// Route a frame.
pub fn screen_for(state: &AuthState) -> (r: Screen)
    ensures
        r == screen_of(*state),
{
    match state {
        AuthState::Authenticated { .. } => Screen::Main,
        AuthState::Loading => Screen::Loading,
        _ => Screen::Login,
    }
}

/// The boot symbol is loaded on the first signed-in frame only, when a
/// bearer token is available for the request.
pub fn boot_symbol_due(state: &AuthState, already_loaded: bool) -> (r: bool)
    ensures
        r == (screen_of(*state) == Screen::Main && !already_loaded),
{
    match state {
        AuthState::Authenticated { .. } => !already_loaded,
        _ => false,
    }
}

/// What the sign-in screen offers.
#[derive(Debug, Clone, PartialEq, Eq)]
pub enum LoginView {
    /// "Sign in with Clerk" button.
    SignIn,
    /// Spinner, "Waiting for browser sign-in…" and a Cancel button.
    Waiting,
    /// The failure text and a "Try again" button.
    Failed(String),
    /// Signed in: the caller switches to the main screen.
    SignedIn,
}

/// The sign-in screen for an auth state.
pub fn login_view(state: &AuthState) -> (r: LoginView)
    ensures
        match state {
            AuthState::Unauthenticated => r == LoginView::SignIn,
            AuthState::Loading => r == LoginView::Waiting,
            AuthState::Failed { message } => r matches LoginView::Failed(t) && t@
                == "Sign-in failed: "@ + message@,
            AuthState::Authenticated { .. } => r == LoginView::SignedIn,
        },
{
    match state {
        AuthState::Unauthenticated => LoginView::SignIn,
        AuthState::Loading => LoginView::Waiting,
        AuthState::Failed { message } => {
            let mut t = String::from_str("Sign-in failed: ");
            t.append(message.as_str());
            LoginView::Failed(t)
        },
        AuthState::Authenticated { .. } => LoginView::SignedIn,
    }
}

/// Layout in use.
#[derive(Debug, Clone, Copy, PartialEq, Eq, Structural)]
pub enum ViewKind {
    Single,
    Multi,
}

/// What a layout request from the toolbar leads to.
#[derive(Debug, Clone, Copy, PartialEq, Eq, Structural)]
pub enum LayoutChange {
    /// Nothing changes (or the multi view applies the layout itself).
    Keep,
    /// The single chart becomes pane 0 of a multi layout.
    PromoteToMulti,
    /// The active pane becomes the single chart.
    CollapseToSingle,
    /// Other panes hold drawings or indicators: ask before discarding them.
    ConfirmCollapse,
}

/// Decide a layout change. `wants_single` is a request for the one-pane
/// layout; `inactive_have_content` whether inactive panes hold user work.
pub fn layout_change(view: ViewKind, wants_single: bool, inactive_have_content: bool) -> (r:
    LayoutChange)
    ensures
        view == ViewKind::Single && !wants_single ==> r == LayoutChange::PromoteToMulti,
        view == ViewKind::Single && wants_single ==> r == LayoutChange::Keep,
        view == ViewKind::Multi && wants_single && inactive_have_content ==> r
            == LayoutChange::ConfirmCollapse,
        view == ViewKind::Multi && wants_single && !inactive_have_content ==> r
            == LayoutChange::CollapseToSingle,
        view == ViewKind::Multi && !wants_single ==> r == LayoutChange::Keep,
{
    match view {
        ViewKind::Single => if wants_single {
            LayoutChange::Keep
        } else {
            LayoutChange::PromoteToMulti
        },
        ViewKind::Multi => if !wants_single {
            LayoutChange::Keep
        } else if inactive_have_content {
            LayoutChange::ConfirmCollapse
        } else {
            LayoutChange::CollapseToSingle
        },
    }
}

} // verus!
