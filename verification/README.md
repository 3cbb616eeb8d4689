# mcp_session

The decisions behind sessions with MCP servers, verified with Verus:

- `daemon_lease`, `lease_session`: finding the app-server daemon and leasing
  OAuth access tokens from it,
- `oauth_refresh_mode`, `oauth_runtime`: who refreshes the credentials of a
  connection, and one refresh step by step,
- `refresh_worker`: refreshing expiring tokens in the background,
- `tool_catalog`, `tool_catalog_laws`, `tool_catalog_passes`: refetching the tool
  catalogs of servers that announced a change,
- `dynamic_tool`, `tool_display`, `tool_display_laws`: history cells of dynamic
  tool calls,
- `json`, `rich_text`, `texts`: JSON values, styled lines and plain texts.

Everything that waits is a state machine: `pending` names the work to do next,
`advance` takes what came of it. Proof functions whose names start with `law_`
state what holds of every run.

`app/` holds the tasks, sockets and clocks that run the machines, and shows
cells in a terminal. The contracts rest on what `json` says of `serde_json` and
`rich_text` of `ratatui`.
