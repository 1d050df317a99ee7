# speer_test

A notes service with user accounts, session tokens and refresh tokens.

- `src/` is the verified library: the decisions the service makes, each
  with a contract proved by Verus, and the laws that relate them.
  - `config`: settings and their defaults.
  - `error`: the errors and the status and body that answer each.
  - `model`: users, notes, stored tokens, sessions and request bodies
    (identifiers as 128-bit numbers, instants in microseconds).
  - `token_type`: kinds and statuses of stored tokens and their column
    encoding.
  - `token`: random session and refresh tokens.
  - `password`: password hashing and checking (through `bcrypt`).
  - `auth`: the session middleware and the guard of protected routes.
  - `session`: the steps of login, sign-up and refresh-token rotation.
  - `note`: who may read and change notes, and how a change applies.
- `app/` is the HTTP service around it: configuration loading, the
  Postgres pool and queries, the axum router, handlers and middleware that
  call the library between database round trips, and the OpenAPI page.
- `tests/` exercises the library on concrete values.
