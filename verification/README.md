# babangida

The rules of an invite-only social network, written in Rust and proved with
Verus.

- `src/` — the verified library:
  - `shared/` identifiers and moments in time;
  - `text.rs` the character rules and scanners that the value objects share;
  - `domain/` the aggregates and value objects (identity and invites, sessions,
    profiles, posts, communities, messages, the flea market, verification,
    music, API keys) with their invariants and laws;
  - `application/` the decisions of the use cases, the ports for clocks,
    random tokens and hashing, and the read-model shapes;
  - `infrastructure/` the adapters for hashing and randomness (argon2, sha2,
    rand, uuid behind trusted wrappers) and `records/`, which reads stored rows
    back into the domain;
  - `api.rs`, `mobile.rs` the decisions of the HTTP contract (statuses, the
    session token of a request, input checks) and the mobile client's shapes.
- `tests/` — tests on concrete values, run against the compiled library.
- `app/` — the server (axum + sqlx on Postgres) and the mobile client's HTTP
  access and token store: I/O around the library, not verified.

Run the server with `DATABASE_URL` set; `MIGRATIONS_DIR` (default
`migrations`), `BIND` (default `127.0.0.1:8080`) and
`ADMIN_BOOTSTRAP_HANDLE` / `ADMIN_BOOTSTRAP_PASSWORD` are optional.
