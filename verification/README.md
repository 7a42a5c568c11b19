# webby

The verified core of a small account service: sign-up with input
validation, login with Argon2 password checks, bearer-token claims,
role- and ownership-based authorization, paged listings, and the status
code of every reply and failure.

- `src/` is the library, with its contracts and proofs. Each request handler that talks
  to the database is split into stages (`handlers/`): a stage names the
  store step to perform next, and takes that step's outcome to decide the
  next stage or the reply. `auth.rs` holds password hashing and checking,
  token claims, HS256 token signing and checking, and the role gate; `validation.rs` the sign-up and update rules;
  `decimal.rs` the rendering and parsing of account ids; `errors.rs` the
  replies and their status codes.
- `app/` is the HTTP server around it (axum, toasty on SQLite), which performs the store steps and reads the clock, the signing secret
  and the bearer header.
- `tests/` runs the library on concrete requests.
