# eth_rpc_module

A proxyable, fail-closed Ethereum JSON-RPC client, written in Verus.

The client stores a configuration per chain (endpoint and proxy policy), so callers route by
chain id alone. A chain that requires a network proxy and has none is refused, never called in
the clear. A chain that requires verification is answered by a light-client proxy or refused,
never answered from its endpoint instead.

- `src/` is the library: every decision, with contracts that Verus proves. `src/store_laws.rs`
  and `src/call_laws.rs` state what holds of the whole, among it the two sentences above. JSON
  texts come from `serde_json`, whose calls stand in `src/json.rs` behind contracts that are
  trusted.
- `app/` is the host: files, HTTP, the Logos runtime, and reading configurations with `serde`.
- `tests/` runs the library.

## Working with no configuration at all

`config_status()` answers `{ ok, state, source, chains }`, where `state` is `unready`,
`unconfigured` or `configured`, and `source` is `default` as long as only the defaults were
applied and `external` once any caller has written. `init_defaults()` seeds endpoints for
Ethereum (1), Sepolia (11155111) and Hoodi (560048), per chain and per field, only where they are
absent. All three are run by one operator, which sees the traffic of every wallet that uses them:
set your own endpoint, or a SOCKS proxy, if that matters to you.
