# wasm-filter

Verified decision logic of a set of proxy-wasm HTTP filters for an nginx
gateway, written in Verus.

- `src/` — the library. Each filter is a set of functions from what the proxy
  reports (request path, header values, context id) to what the proxy is to do
  (headers to set, and whether to answer a request locally).
  - `config` — the policy and the `key = value` policy file format.
  - `policy` — route classification and per-route policy.
  - `metadata` — request and trace ids: kept when sent, generated otherwise.
  - `error_response` — the JSON body of a `401` answer.
  - `gateway` — the authenticating gateway filter.
  - `route_tag` — the route-tagging filter.
  - `auth_filter`, `header_filter`, `observe_filter` — the plugin chain.
  - `headers` — headers, local answers and decisions.
  - `text` — trimming, searching, prefix tests and decimal rendering.
- `app/` — the proxy-wasm glue: reads headers from the proxy, calls the
  library, and performs its decisions.
- `tests/` — tests of the library on concrete inputs.
