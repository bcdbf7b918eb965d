# tenuo_rig

Warrant-guarded tools for an on-call agent graph. An orchestrator holds a signed
warrant, hands narrower warrants to workers and readers, and every tool call is
checked against the warrant of the agent that makes it.

- `src/` is the library, verified with Verus. `grant.rs` says what a warrant
  allows and when one narrows another; `laws.rs` states what holds of the whole.
- `src/*_api.rs`, `src/json.rs` and `src/root_key.rs` hold the calls into `tenuo`,
  `rig`, `rmcp`, `serde_json` and `hex`, each behind a small function whose
  contract is taken on trust and says what the call does.
- `app/` is the program around it: the agents, the MCP server and its transport.
- `tests/` runs the library, with the real crates linked, on concrete values.
