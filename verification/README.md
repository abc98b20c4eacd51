# codex_mcp

The decision-making core of `codex mcp` and of the Codex MCP server, written
in Verus with machine-checked contracts.

Layout:

- `src/` — the verified library.
  - `cli` — `codex mcp` argument handling: merging serve flags, choosing the
    action, `key=value` overrides, server-name checks, and the text of
    `list`/`get`/`add`/`remove`.
  - `keyed_map` — an insertion-ordered string-keyed map with a sorted view.
  - `server` — server start-up options.
  - `catalog` — which MCP tools are announced for which options.
  - `tool_calls` — routing of `tools/call`, refusal messages, the code tools'
    requests and replies, the initialize handshake.
  - `proxy` — the `chatgpt.*` tools: process plans and replies.
  - `aux_agents` — the bounded registry of auxiliary agents.
  - `compact` — token estimates and the compaction report.
  - `text` — character-level string helpers.
- `tests/` — tests of the library.
- `app/` — the I/O around the library: clap parsing, configuration files,
  processes, the stdio JSON-RPC loop and the Codex session plumbing.
