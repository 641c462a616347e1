# axum-login

Authentication of HTTP requests from JSON Web Tokens that cookies carry, and the
session state machine around it, verified with Verus.

- `src/` is the library. `jwt` signs and checks tokens and builds their cookies;
  `cookies` finds tokens in requests; `manager` authenticates requests and adds
  cookies to responses; `session` logs in, logs out and restores sessions. `claims`
  and `text` are what these are made of. `laws` proves what holds of them together.
- `token`, `json`, `headers` and `clock` state what is taken on trust of
  `jsonwebtoken`, `serde_json`, `http` and the standard library's clock; `session`,
  `manager` and `text` hold one such statement each, on `subtle`, `Arc` and `String`.
- `app/` is the asynchronous side: backends and handlers that are awaited, the
  session store, and the `tower` middleware.
- `tests/` runs the library with the real crates.
