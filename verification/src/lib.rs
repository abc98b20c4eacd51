use vstd::prelude::*;

pub mod compact;
pub mod text;
pub mod keyed_map;
pub mod cli;
pub mod server;
pub mod catalog;
pub mod proxy;
pub mod aux_agents;
pub mod tool_calls;

verus! {

} // verus!
