# iot_gateway

An IoT gateway: clients connect over TLS, identify themselves with a UUID
and exchange newline-delimited JSON messages (`Connect`, `Disconnect`,
`Data`, `Heartbeat`); the server tracks connected clients and traffic
statistics. A load generator exercises the server with many clients.

Layout:

- `src/` — the library, verified with Verus:
  - `registry` — connected clients keyed by id;
  - `metrics` — the server's traffic counters;
  - `session` — the server side of one connection as a state machine,
    applied to the registry and metrics by `Gateway::handle`;
  - `tls` — certificates and key from PEM, and the rustls server configuration;
  - `message`, `device`, `perf` — message construction, the example
    client's messages and schedule, and the load generator's counters and
    per-client schedule;
  - `decimal`, `duration` — number and uptime rendering;
  - `clock` — the monotonic clock.
- `app/` — the programs (`server`, `client`, `perf_test`): sockets, TLS
  streams, JSON, logging and the async runtime, calling into the library.
- `tests/` — tests of the library.
