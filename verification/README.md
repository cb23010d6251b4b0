# rsweb

A small axum web service template whose decisions are written in Verus and
proved against their contracts.

- `src/` — the verified library: response envelopes and error mapping
  (`error`, `gateway::base`), login, user lookup and token validation
  (`gateway::user`), the authorization step of the middleware
  (`gateway::base::middleware::auth`), the rule that gives error responses a
  JSON body (`gateway`), the request counter (`gateway::state`), the start and
  stop decisions of the daemon (`daemon`), log levels (`utils`), command-line
  options (`cli`), helper-binary texts (`sidecar`) and string helpers (`text`).
- `app/` — the program around it: argument parsing, the axum router and
  middleware, handlers, the daemon's process and file operations, the
  WebSocket and SSE endpoints, and the helper-binary runner. It performs the
  actions that the library decides and serialises the library's values.
- `tests/` — tests of the library on concrete values.

Every 4xx/5xx response whose body is not JSON is given the uniform envelope
(`code` = the status, `msg` = the error text, `data` = null); `unify_error`
states this. The body limit and the timeout are placed inside that
middleware, so that their 413 and 408 answers are covered too; that layer
order is set in `app/` and is not verified.

Not included: static assets under `/_app/*` and a single-page-app fallback.
