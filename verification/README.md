# multitenant_worker

Multi-tenant SaaS authentication and authorization, verified with Verus:
sessions and one-shot tokens as macaroons, Argon2id passwords, users and
identities, billing accounts, organizations, memberships, invitations and
SSO configuration.

## Layout

- `src/domain` — typed identifiers, roles, scopes, stored entities.
- `src/auth` — the keyring, password hashing, and minting and verifying
  session, invitation and one-shot tokens; `token_laws.rs` proves that
  tokens read back as minted, that a token of one purpose is refused for
  another, and that expired tokens are refused.
- `src/store` — the repository model (`model.rs`), the repository traits
  with their contracts (`repo/`), the in-memory repository, the SQL batches
  a database-backed repository runs (`sql.rs`), and the store laws
  (`laws.rs`: last owners stay, nonces and SSO states work once, an email
  signs up once, signup sets up the personal space).
- `src/billing` — the billing provider trait and its in-memory provider.
- `src/services` — the RPC handlers (auth, billing, organizations,
  invitations) as verified functions of the repository state and the
  request; `laws.rs` states the SSO and invitation policy laws.
- `src/routes.rs` — the plain HTTP routes; `src/state.rs` — application
  state and configuration; `src/telemetry.rs` — metric points and
  rate-limiter replies.
- `app/` — the edge: HTTP glue and reading the environment.
- `tests/` — scenario tests against the public API.

Outside crates are reached through small trusted wrappers whose contracts
say what the crate does: `libmacaroon` (macaroons), `argon2` and
`password-hash` (hashing), `base64` (key decoding), `uuid` (identifiers)
and `url` (query strings).
