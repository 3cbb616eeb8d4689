//! Selects the owner of MCP OAuth refresh and credential persistence.

use vstd::prelude::*;

verus! {

/// MCP OAuth policy pinned for the lifetime of a connection.
#[derive(Clone, Copy, Debug, PartialEq, Eq, Structural)]
pub enum McpOAuthRefreshMode {
    /// Keep the client's own refresh and persistence path.
    Legacy,
    /// Let the MCP library coordinate refresh through the client's credential store.
    Coordinated,
    /// Centralize OAuth refresh in the long-running daemon and lease access
    /// tokens from it over a local socket.
    DaemonLease,
}

impl Default for McpOAuthRefreshMode {
    fn default() -> (mode: Self)
        ensures
            mode == McpOAuthRefreshMode::DaemonLease,
    {
        McpOAuthRefreshMode::DaemonLease
    }
}

} // verus!
