# iam_platform

An identity and access management service: registration and sign-in with
bcrypt passwords, JWT access tokens with rotating refresh tokens, device
sessions, organizations with members, roles and permissions, scoped API
keys, and audit logs with cursor pagination.

## Layout

- `src/` is the library, written in Verus. Every operation of the service
  is a step machine (`flow::Step`): it starts from a request, asks the
  queries it needs (`flow::Query`) one at a time, and decides from each
  answer (`flow::Answer`) what happens next. The contracts state, for every
  answer, which query comes next or how the operation ends. Credentials,
  cursors, validation rules and pagination are verified functions on plain
  values. Calls into `bcrypt`, `sha2`, `hex`, `base64`, `rand`, `chrono`,
  `uuid`, `validator` and `jsonwebtoken` go through small trusted wrappers whose contracts
  say what each call returns.
- `app/` is the HTTP service around the library: axum routes and handlers,
  the authentication middleware, rate limits, the PostgreSQL queries that
  answer the library's `Query` values, and reading the JWT secret.
- `tests/` exercises the library from outside.

## Running

The service reads `DATABASE_URL` and `JWT_SECRET` from the environment (or
a `.env` file), runs the migrations in `./migrations`, and listens on
`127.0.0.1:3000`.
