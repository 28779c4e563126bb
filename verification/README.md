# web_app

The verified core of a small web application, written in Verus.

- `src/b64.rs`: URL-safe Base64 without padding, with its decoding; both
  directions of the round trip are proved.
- `src/mac.rs`: HMAC-SHA512, computed by the `hmac` and `sha2` crates.
- `src/pwd/`: password hashing scheme 01 (HMAC-SHA512 of content and salt in
  URL-safe Base64), its validation, and the stored form `#01#...`.
- `src/crypt/`: encryption of content with a salt, and the stored password
  form `#01#...` with its validation.
- `src/ctx.rs`: the request context, which refuses the root user id.
- `src/rpc/`: the JSON-RPC request, parameters (and what absent or
  unparsable parameters give), errors and router.
- `src/token.rs`: the errors of authentication tokens.
- `src/web/`: the web errors, what a client is shown for each, and the
  decisions of the authentication middleware.
- `src/model/`: the entities, their create and update forms, the outcome
  of lookups and updates by id, and the store.
- `app/`: the server around the library: configuration from the
  environment, the user and project database queries, the axum middleware and the listener.
