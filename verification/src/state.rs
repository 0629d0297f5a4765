//! Agents and the node that hosts them.

use vstd::prelude::*;
use crate::map::TextMap;

verus! {

/// What an agent is doing.
#[derive(PartialEq, Eq, Structural, Debug, Clone, Copy)]
pub enum AgentStatus {
    Stopped,
    Running,
    Upgrading,
}

impl Default for AgentStatus {
    fn default() -> (s: Self)
        ensures
            s == AgentStatus::Stopped,
    {
        AgentStatus::Stopped
    }
}

/// The version a new agent starts at.
pub const INITIAL_AGENT_VERSION: &'static str = "0.1.0";

/// The version of a new node's state.
pub const NODE_STATE_VERSION: &'static str = "1.0.0";

/// An agent: its identity, version, environment and status.
#[derive(Debug)]
pub struct Agent {
    pub id: String,
    pub name: String,
    pub version: String,
    pub env: TextMap<String>,
    pub status: AgentStatus,
}

impl Agent {
    /// A stopped agent at the initial version, with an empty environment.
    pub fn new(id: &str, name: &str) -> (a: Agent)
        ensures
            a.id@ == id@,
            a.name@ == name@,
            a.version@ == INITIAL_AGENT_VERSION@,
            a.env@ == Map::<Seq<char>, String>::empty(),
            a.status == AgentStatus::Stopped,
    {
        Agent {
            id: id.to_owned(),
            name: name.to_owned(),
            version: INITIAL_AGENT_VERSION.to_owned(),
            env: TextMap::new(),
            status: AgentStatus::Stopped,
        }
    }
}

impl Default for Agent {
    fn default() -> (a: Self)
        ensures
            a.id@ == "default"@,
            a.name@ == "default"@,
            a.version@ == INITIAL_AGENT_VERSION@,
            a.env@ == Map::<Seq<char>, String>::empty(),
            a.status == AgentStatus::Stopped,
    {
        Agent::new("default", "default")
    }
}

/// The state of a node: its version and its agents by id.
#[derive(Debug)]
pub struct NodeState {
    pub version: String,
    pub agents: TextMap<Agent>,
}

impl NodeState {
    /// A node at the current state version, with no agents.
    pub fn new() -> (s: NodeState)
        ensures
            s.version@ == NODE_STATE_VERSION@,
            s.agents@ == Map::<Seq<char>, Agent>::empty(),
    {
        NodeState { version: NODE_STATE_VERSION.to_owned(), agents: TextMap::new() }
    }
}

impl Default for NodeState {
    fn default() -> (s: Self)
        ensures
            s.version@ == Seq::<char>::empty(),
            s.agents@ == Map::<Seq<char>, Agent>::empty(),
    {
        NodeState { version: String::new(), agents: TextMap::new() }
    }
}

} // verus!
