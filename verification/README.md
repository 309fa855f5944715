# rproxy

A small reverse proxy for self-hosted web applications (TLS with ACME
certificates, rate limiting, path filtering, WebSocket passthrough, security
headers, a response cache), and a benchmark suite that compares it with
nginx, traefik, caddy and envoy.

## Layout

- `src/` — the library, verified with Verus. It holds the proxy's decisions
  and rewriting (configuration from environment variables, header
  forwarding and stripping, routing through the middlewares, the WebSocket
  handshake with its SHA-1 and base64, the redirect to HTTPS) and the
  benchmark's planning (scenarios, request workloads, request bodies, the
  counting of outcomes, the stress ramp, container byte counters). Calls
  into `http`, `globset`, `governor` and `rand` go through small trusted
  functions whose contracts state what those crates do.
- `tests/` — tests of the library.
- `app/` — the programs around the library: the proxy's listening loops and
  upstream connections (`rproxy`), and the benchmark command line
  (`rproxy bench ...`) with its HTTP client, Docker statistics and reports.
