# Lyra

Lyra is a small ticketing server for a one-person team working with coding
agents: humans sign in with OAuth PKCE and file tickets, agents work on them
through a JSON-RPC endpoint, ask a human before running risky tools, and a
human deploys the result.

The crate is written in Verus. The code under `src/` is verified: each public
function states what it returns in its `ensures`, and the properties that span
several functions are public proof functions. The exceptions are the few small
functions marked `#[verifier::external_body]` that call `sha2`, `base64`, `rand`,
`argon2` and the standard library (the clock, `String::push`,
`str::to_lowercase`): Verus trusts their contracts, and each one's doc comment
says what it claims of the call it makes.

## Layout

- `src/` — the verified library.
  - `text`, `encoding`: strings, trimming, decimal and hexadecimal renderings.
  - `crypto`: SHA-256, base64url, argon2 and randomness (calls into `sha2`,
    `base64`, `argon2`, `rand`), and PKCE S256.
  - `error`, `env`, `jwt`: API errors and their HTTP answers, settings, access
    token claims and the clock.
  - `auth`: bearer tokens, human-only and agent routes, authorization codes,
    refresh tokens (single use), token responses.
  - `tickets`, `projects`, `permissions`: how stored rows read, who may write
    what, status changes, and permission decisions (made once).
  - `mcp`: the agent endpoint's methods, its tool catalogue and call planning.
  - `migrate`, `seed`, `deploy`, `opencode`, `request_log`: start-up migrations
    and accounts, deploy steps and messages, the OpenCode hand-off.
  - `client`, `pages`: the web client's API access and its pages' decisions.
- `app/` — the HTTP server around the library (axum, sqlx, reqwest, tokio):
  routes, storage, background work. It holds no rules of its own.
- `tests/` — tests of the library on concrete values.

## Verifying and testing

Verus checks `src/`; the tests in `tests/` run against the compiled library.
