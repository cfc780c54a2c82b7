# zaned

Verified core of the Zaned desktop charting client, written in Verus.

- `src/` — the library. Verus checks every function against its contract,
  except the few `#[verifier::external_body]` wrappers around chrono,
  oauth2, rand, base64, urlencoding and `str::to_lowercase`, whose contracts
  are believed (each names the outside function it calls):
  - `auth/` — Clerk configuration, PKCE material, the authorize URL and
    token-endpoint forms, the callback check, token sets and the decisions
    of the background refresh worker and of session restore.
  - `drawings/` — the drawing-tool catalogue and registry, per-kind style
    knobs (Fibonacci ratio bits, position defaults), dash styles as stored,
    handle dragging, the floating toolbar's buttons and the manager of
    committed drawings.
  - `charts/` — bar-date keys, axis and crosshair labels, live-tick routing
    and bar upserts, keyboard input, and the chart's bookkeeping (debounced
    drawing saves, history backfill).
  - `controls/`, `components/`, `shell.rs` — the state machines behind the
    toolbars, indicator dialogs, the drawing settings dialog, search box,
    sidebars and screen routing.
  - `api/` — request parameters of the gateway calls.
- `tests/` — tests run against the compiled library with the real outside
  crates linked.
- `app/` — the executable around it: environment, keychain, HTTP, the
  localhost callback server, and the refresh loop.
