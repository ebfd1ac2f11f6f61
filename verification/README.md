# ncm_api

Request building for the NetEase Cloud Music web API, verified with Verus.

- `src/query.rs` — `Query` (parameters and per-call options), `Params`
  (a string map with unique keys), `CryptoType`, `RequestOption`.
- `src/json.rs` — `JsonValue`, the payload values, and their model `JsonView`.
- `src/text.rs` — hexadecimal rendering, integer parsing, comma lists,
  `_`-segment extraction.
- `src/api.rs` — `ApiClient`: every endpoint takes a `Query`, reads its
  parameters from it and builds the path, payload and options of a call
  (`ApiCall`), the options (cookie included) being those of the query; MD5
  and JSON serialisation come from `md-5` and `serde_json`.
- `src/error.rs` — `NcmError`.
- `src/laws.rs` — properties across operations.
- `app/lib.rs` — the asynchronous HTTP client (reqwest) that sends the calls.
