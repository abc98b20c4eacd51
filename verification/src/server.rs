//! Options that shape one run of the MCP server.
use vstd::prelude::*;

use crate::keyed_map::KeyedMap;

verus! {

/// Options that shape how the MCP server behaves for a single invocation.
#[derive(Debug)]
pub struct McpServerOpts {
    /// When true, expose the full Codex action surface as MCP tools.
    pub expose_all_tools: bool,
    /// Simplistic `key=value` overrides captured from the CLI, stored exactly
    /// as provided.
    pub overrides: KeyedMap<String>,
}

impl Default for McpServerOpts {
    fn default() -> (r: Self)
        ensures
            !r.expose_all_tools,
            r.overrides@.len() == 0,
    {
        McpServerOpts { expose_all_tools: false, overrides: KeyedMap::new() }
    }
}

/// Options passed to the server when it starts.
#[derive(Debug)]
pub struct McpServerRunOptions {
    pub opts: McpServerOpts,
    pub max_aux_agents: Option<usize>,
}

impl Default for McpServerRunOptions {
    /// All tools exposed, no overrides, no limit given for auxiliary agents.
    fn default() -> (r: Self)
        ensures
            r.opts.expose_all_tools,
            r.opts.overrides@.len() == 0,
            r.max_aux_agents is None,
    {
        McpServerRunOptions {
            opts: McpServerOpts { expose_all_tools: true, overrides: KeyedMap::new() },
            max_aux_agents: None,
        }
    }
}

} // verus!
