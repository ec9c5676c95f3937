# license_control_suite

Client licensing, device binding and admin-decided device resets, with the
behaviour of each operation stated as a contract and proved with Verus.

The worker, the stores, the device identity, the clock and the admin and
licensing APIs are traits for the host to implement. Each trait says what its
calls are handed and which answers they may give (`may_answer_*`, and
`never_fails` for the stores and the device); the contracts of the service and
the client flows state their result as a function of those answers. The
worker client also records every request it is given.

## Layout

- `src/` — the verified library.
  - `modules/user_reg/auth_licensing_core` — value types, the session state
    machine, the store and worker ports, and `AuthService`.
  - `modules/user_reg/auth_licensing_tauri` — what the desktop frontend sees
    (command views and errors), the worker's wire formats and URLs, and the
    naming of the keychain entries and app-data files.
  - `modules/user_reg/licensing_worker` — an in-memory reference worker
    (licenses, bindings, tokens, reset requests, audit log) and its laws.
  - `modules/auth_core`, `modules/admin_dashboard`, `modules/shared_contracts`
    — the legacy client flows, the admin console's rules and the shared DTOs.
  - `digest.rs`, `text.rs` — SHA-256/base64 and string helpers.
- `tests/` — scenario tests run against the compiled library.
- `app/` — the desktop adapters that do I/O: the worker over HTTP
  (`reqwest`), the keychain (`keyring`), the app-data JSON files
  (`serde_json`), and the serde forms of the library's types.
