# vibe_agent

The verified core of the Vibe Kanban server-management features, written in
Verus.

- `src/` is the library. Every function there carries a `requires` /
  `ensures` contract that Verus proves; the few calls into outside crates
  (HMAC-SHA256, SHA-256, base64, random numbers, UUIDs, lossy UTF-8
  decoding) go through small trusted wrappers whose doc comments say what
  is assumed of them.
  - `session` and `daemon` are the two ends of the agent WebSocket
    protocol as state machines; `handlers` is the order of work in the
    server-changing HTTP routes; `registry` is the live-connection
    registry; `reconnect` the daemon's backoff policy.
  - `crypto`, `docker`, `executors`, `routes`, `repo`, `http` and `api`
    hold token hashing, the docker command, tool discovery, request
    validation and error mapping, row building and update merging, CORS and
    log levels, and the API types.
  - Public `law_*` proof functions state the properties that hold across
    calls (for example that a token issued at creation is looked up by its
    stored hash at registration).
- `tests/` runs the library on concrete values.
- `app/` is the unverified shell: the agent daemon's `main`, the centre's
  axum routes and WebSocket endpoint, SQL, timers and system statistics.
  It performs the actions the library's state machines ask for.
