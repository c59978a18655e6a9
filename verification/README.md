# mcp-acp-workspace

A control plane for ACP (Agent Client Protocol) sessions, offered as MCP
tools: it registers ACP connections, opens sessions in a workspace, records
prompts, permission requests and their decisions, proposed patches and their
review, and publishes agents as ACP servers.

The library under `src/` is verified with Verus:

- `types` — the records and their views (strings as `Seq<char>`).
- `table` — records kept in a vector and found by id; a vector without
  repeated ids is viewed as a map.
- `sources` — random ids (UUIDs) and the current time.
- `model` — the abstract store and what every operation does to it.
- `text` — ids, messages, status names and line counting.
- `paths` — the workspace trust boundary: which paths lie outside a workspace.
- `store` — the store itself; each operation is proved to follow `model`.
- `server` — what the MCP tools decide and compute.
- `laws` — properties that span operations, proved over `model`.

`app/` is the MCP server over stdio: it holds the store behind a lock,
turns tool arguments into library values and renders answers as JSON.
