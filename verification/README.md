# consul

A client for the HTTP API of a Consul agent (agent, catalog, health and
key-value endpoints).

- `src/` is verified with Verus. It builds every request the client sends
  (method, URL, body), parses URLs through the `url` crate that `hyper`
  re-exports, and decides what each reply comes to (`ConsulError` or a value).
  `src/laws.rs` holds the properties proved of the request addresses and
  queries.
- `app/` sends the requests with `hyper`, reads the replies, and turns JSON
  bodies into the library's data types with `rustc_serialize`
  (`AgentCalls`, `CatalogCalls`, `HealthCalls`, `KeystoreCalls`).
- `tests/` runs the library on concrete requests and replies.
