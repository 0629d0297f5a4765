# agent_node

An agent node keeps a registry of agents, starts agent processes as
sessions, relays turns of input and output, keeps a record of every session,
and offers all of this to MCP clients (over stdin) and over a REST API.

- `src/` is the library, verified with Verus: the session records
  (`history`), sessions (`session`), agents and node state (`state`), the
  shared state and its operations (`app_state`), a text-keyed map (`map`),
  the tool catalogue (`tools`), request planning (`dispatch`), identifier
  checks (`validate`), the process environment (`spawn`), reply collection
  (`output`), the Codex update report (`codex`), the configuration-file
  rules (`config`, `lines`), character
  operations (`text`) and the clock (`clock`).
- `app/` is the server around it: the HTTP routes, the MCP stdin loop,
  process handling with tokio, file access, and serde copies of the
  library's types for JSON and YAML.
- `tests/` exercises the library.
