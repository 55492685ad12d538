# acp

A client for the [Agent Client Protocol](https://agentclientprotocol.com), in two parts.

- `src/` is the verified library. It decides: how messages are framed, where a
  request of the agent goes and what it is answered, what a terminal retains,
  what a conversation shows, which response events a prompt turn produces. Every
  function carries a contract that [Verus](https://github.com/verus-lang/verus)
  proves, and the `law_*` functions state what holds across them.
- `app/` performs: it spawns the agent process, reads and writes its streams,
  touches files and terminals, and awaits.

The calls into `serde_json`, `agent_client_protocol_schema` and `uuid` stand in
`src/wire.rs`, `src/proto_shim.rs` and `src/ids.rs`, each with the contract that
is believed of it.
