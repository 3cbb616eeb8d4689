//! Decision logic for sessions with MCP servers: OAuth refresh, tool catalogs
//! and the history cells that show dynamic tool calls.

pub mod cell_laws;
pub mod daemon_lease;
pub mod dynamic_tool;
pub mod json;
pub mod lease_laws;
pub mod lease_session;
pub mod oauth_laws;
pub mod oauth_refresh_mode;
pub mod oauth_runtime;
pub mod refresh_worker;
pub mod rich_text;
pub mod text_laws;
pub mod texts;
pub mod tool_catalog;
pub mod tool_catalog_laws;
pub mod tool_catalog_outcomes;
pub mod tool_catalog_passes;
pub mod tool_display;
pub mod tool_display_laws;
pub mod view_laws;
pub mod worker_laws;
