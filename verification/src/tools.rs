//! The catalogue of tools that the node offers to MCP clients: each tool's
//! name, description and the schema of its arguments.

use vstd::prelude::*;

verus! {

/// The JSON type of a tool argument.
#[derive(PartialEq, Eq, Structural, Debug, Clone, Copy)]
pub enum SchemaKind {
    /// A JSON string.
    Text,
    /// A JSON number.
    Number,
}

/// One argument of a tool: its name, type and description.
#[derive(Debug)]
pub struct SchemaProperty {
    pub name: String,
    pub kind: SchemaKind,
    pub description: String,
}

/// The arguments of a tool, as a JSON object schema: its properties and the
/// names of those that are required.
#[derive(Debug)]
pub struct ToolSchema {
    pub properties: Vec<SchemaProperty>,
    pub required: Vec<String>,
}

/// A tool offered to MCP clients.
#[derive(Debug)]
pub struct McpTool {
    pub name: String,
    pub description: String,
    pub input_schema: ToolSchema,
}

/// The properties of a schema, as (name, type, description).
pub open spec fn property_views(ps: Seq<SchemaProperty>) -> Seq<(Seq<char>, SchemaKind, Seq<char>)> {
    ps.map_values(|p: SchemaProperty| (p.name@, p.kind, p.description@))
}

/// The names of the required properties.
pub open spec fn required_views(rs: Seq<String>) -> Seq<Seq<char>> {
    rs.map_values(|r: String| r@)
}

/// Every required name is the name of a property.
pub open spec fn requires_only_declared(s: ToolSchema) -> bool {
    forall|i: int|
        0 <= i < s.required@.len() ==> exists|j: int|
            0 <= j < s.properties@.len() && (#[trigger] s.properties@[j]).name@ == (
            #[trigger] s.required@[i])@
}

/// `t` has the given name, description, properties and required names.
pub open spec fn describes(
    t: McpTool,
    name: Seq<char>,
    description: Seq<char>,
    properties: Seq<(Seq<char>, SchemaKind, Seq<char>)>,
    required: Seq<Seq<char>>,
) -> bool {
    &&& t.name@ == name
    &&& t.description@ == description
    &&& property_views(t.input_schema.properties@) == properties
    &&& required_views(t.input_schema.required@) == required
}

/// A property with the given name, type and description.
fn property(name: &str, kind: SchemaKind, description: &str) -> (p: SchemaProperty)
    ensures
        p.name@ == name@,
        p.kind == kind,
        p.description@ == description@,
{
    SchemaProperty { name: name.to_owned(), kind, description: description.to_owned() }
}

/// The `system_get_agents` tool.
pub open spec fn is_system_get_agents(t: McpTool) -> bool {
    describes(
        t,
        "system_get_agents"@,
        "List all registered agents"@,
        Seq::<(Seq<char>, SchemaKind, Seq<char>)>::empty(),
        Seq::<Seq<char>>::empty(),
    )
}

/// The `system_upgrade_agent` tool.
pub open spec fn is_system_upgrade_agent(t: McpTool) -> bool {
    describes(
        t,
        "system_upgrade_agent"@,
        "Upgrade agent to a new version"@,
        seq![("agent_id"@, SchemaKind::Text, "Agent ID"@), ("version"@, SchemaKind::Text, "Target version"@)],
        seq!["agent_id"@],
    )
}

/// The `system_set_env` tool.
pub open spec fn is_system_set_env(t: McpTool) -> bool {
    describes(
        t,
        "system_set_env"@,
        "Set environment variable for agent"@,
        seq![("agent_id"@, SchemaKind::Text, "Agent ID"@), ("key"@, SchemaKind::Text, "Environment variable key"@), ("value"@, SchemaKind::Text, "Environment variable value"@)],
        seq!["agent_id"@, "key"@, "value"@],
    )
}

/// The `session_start` tool.
pub open spec fn is_session_start(t: McpTool) -> bool {
    describes(
        t,
        "session_start"@,
        "Start a new agent session"@,
        seq![("agent_id"@, SchemaKind::Text, "Agent ID"@), ("cwd"@, SchemaKind::Text, "Working directory"@), ("command"@, SchemaKind::Text, "Command to run"@)],
        seq!["agent_id"@],
    )
}

/// The `session_execute_turn` tool.
pub open spec fn is_session_execute_turn(t: McpTool) -> bool {
    describes(
        t,
        "session_execute_turn"@,
        "Execute a turn in an existing session"@,
        seq![("session_id"@, SchemaKind::Text, "Session ID"@), ("input"@, SchemaKind::Text, "Input prompt"@)],
        seq!["session_id"@, "input"@],
    )
}

/// The `session_resolve_action` tool.
pub open spec fn is_session_resolve_action(t: McpTool) -> bool {
    describes(
        t,
        "session_resolve_action"@,
        "Resolve and execute an action"@,
        seq![("session_id"@, SchemaKind::Text, "Session ID"@), ("action"@, SchemaKind::Text, "Action to resolve"@)],
        seq!["session_id"@, "action"@],
    )
}

/// The `session_get_history` tool.
pub open spec fn is_session_get_history(t: McpTool) -> bool {
    describes(
        t,
        "session_get_history"@,
        "Get session history"@,
        seq![("session_id"@, SchemaKind::Text, "Session ID"@), ("limit"@, SchemaKind::Number, "Max turns to return"@)],
        Seq::<Seq<char>>::empty(),
    )
}

/// The `codex_exec` tool.
pub open spec fn is_codex_exec(t: McpTool) -> bool {
    describes(
        t,
        "codex_exec"@,
        "Execute Codex AI to perform coding tasks"@,
        seq![("prompt"@, SchemaKind::Text, "Prompt for Codex"@), ("model"@, SchemaKind::Text, "Model to use (optional)"@)],
        seq!["prompt"@],
    )
}

/// The `codex_update` tool.
pub open spec fn is_codex_update(t: McpTool) -> bool {
    describes(
        t,
        "codex_update"@,
        "Update Codex CLI to the latest version"@,
        Seq::<(Seq<char>, SchemaKind, Seq<char>)>::empty(),
        Seq::<Seq<char>>::empty(),
    )
}

/// The `codex_config` tool.
pub open spec fn is_codex_config(t: McpTool) -> bool {
    describes(
        t,
        "codex_config"@,
        "Get or set Codex configuration"@,
        seq![("key"@, SchemaKind::Text, "Config key (e.g. model, personality)"@), ("value"@, SchemaKind::Text, "New value (omit to get current value)"@)],
        Seq::<Seq<char>>::empty(),
    )
}

/// The `system_get_sessions` tool.
pub open spec fn is_system_get_sessions(t: McpTool) -> bool {
    describes(
        t,
        "system_get_sessions"@,
        "List all active sessions"@,
        Seq::<(Seq<char>, SchemaKind, Seq<char>)>::empty(),
        Seq::<Seq<char>>::empty(),
    )
}

/// The `system_kill_session` tool.
pub open spec fn is_system_kill_session(t: McpTool) -> bool {
    describes(
        t,
        "system_kill_session"@,
        "Kill a running session"@,
        seq![("session_id"@, SchemaKind::Text, "Session ID to kill"@)],
        seq!["session_id"@],
    )
}

/// The `system_info` tool.
pub open spec fn is_system_info(t: McpTool) -> bool {
    describes(
        t,
        "system_info"@,
        "Get system information (version, uptime, etc.)"@,
        Seq::<(Seq<char>, SchemaKind, Seq<char>)>::empty(),
        Seq::<Seq<char>>::empty(),
    )
}

impl McpTool {
    /// The `system_get_agents` tool: list all registered agents.
    pub fn system_get_agents() -> (t: Self)
        ensures
            is_system_get_agents(t),
            requires_only_declared(t.input_schema),
    {
        let mut properties: Vec<SchemaProperty> = Vec::new();
        let mut required: Vec<String> = Vec::new();
        proof {
            assert(property_views(properties@) =~= Seq::<(Seq<char>, SchemaKind, Seq<char>)>::empty());
            assert(required_views(required@) =~= Seq::<Seq<char>>::empty());
        }
        McpTool {
            name: "system_get_agents".to_owned(),
            description: "List all registered agents".to_owned(),
            input_schema: ToolSchema { properties, required },
        }
    }

    /// The `system_upgrade_agent` tool: upgrade agent to a new version.
    pub fn system_upgrade_agent() -> (t: Self)
        ensures
            is_system_upgrade_agent(t),
            requires_only_declared(t.input_schema),
    {
        let mut properties: Vec<SchemaProperty> = Vec::new();
        properties.push(property("agent_id", SchemaKind::Text, "Agent ID"));
        properties.push(property("version", SchemaKind::Text, "Target version"));
        let mut required: Vec<String> = Vec::new();
        required.push("agent_id".to_owned());
        proof {
            assert(property_views(properties@) =~= seq![("agent_id"@, SchemaKind::Text, "Agent ID"@), ("version"@, SchemaKind::Text, "Target version"@)]);
            assert(properties@[0].name@ == required@[0]@);
            assert(required_views(required@) =~= seq!["agent_id"@]);
        }
        McpTool {
            name: "system_upgrade_agent".to_owned(),
            description: "Upgrade agent to a new version".to_owned(),
            input_schema: ToolSchema { properties, required },
        }
    }

    /// The `system_set_env` tool: set environment variable for agent.
    pub fn system_set_env() -> (t: Self)
        ensures
            is_system_set_env(t),
            requires_only_declared(t.input_schema),
    {
        let mut properties: Vec<SchemaProperty> = Vec::new();
        properties.push(property("agent_id", SchemaKind::Text, "Agent ID"));
        properties.push(property("key", SchemaKind::Text, "Environment variable key"));
        properties.push(property("value", SchemaKind::Text, "Environment variable value"));
        let mut required: Vec<String> = Vec::new();
        required.push("agent_id".to_owned());
        required.push("key".to_owned());
        required.push("value".to_owned());
        proof {
            assert(property_views(properties@) =~= seq![("agent_id"@, SchemaKind::Text, "Agent ID"@), ("key"@, SchemaKind::Text, "Environment variable key"@), ("value"@, SchemaKind::Text, "Environment variable value"@)]);
            assert(properties@[0].name@ == required@[0]@);
            assert(properties@[1].name@ == required@[1]@);
            assert(properties@[2].name@ == required@[2]@);
            assert(required_views(required@) =~= seq!["agent_id"@, "key"@, "value"@]);
        }
        McpTool {
            name: "system_set_env".to_owned(),
            description: "Set environment variable for agent".to_owned(),
            input_schema: ToolSchema { properties, required },
        }
    }

    /// The `session_start` tool: start a new agent session.
    pub fn session_start() -> (t: Self)
        ensures
            is_session_start(t),
            requires_only_declared(t.input_schema),
    {
        let mut properties: Vec<SchemaProperty> = Vec::new();
        properties.push(property("agent_id", SchemaKind::Text, "Agent ID"));
        properties.push(property("cwd", SchemaKind::Text, "Working directory"));
        properties.push(property("command", SchemaKind::Text, "Command to run"));
        let mut required: Vec<String> = Vec::new();
        required.push("agent_id".to_owned());
        proof {
            assert(property_views(properties@) =~= seq![("agent_id"@, SchemaKind::Text, "Agent ID"@), ("cwd"@, SchemaKind::Text, "Working directory"@), ("command"@, SchemaKind::Text, "Command to run"@)]);
            assert(properties@[0].name@ == required@[0]@);
            assert(required_views(required@) =~= seq!["agent_id"@]);
        }
        McpTool {
            name: "session_start".to_owned(),
            description: "Start a new agent session".to_owned(),
            input_schema: ToolSchema { properties, required },
        }
    }

    /// The `session_execute_turn` tool: execute a turn in an existing session.
    pub fn session_execute_turn() -> (t: Self)
        ensures
            is_session_execute_turn(t),
            requires_only_declared(t.input_schema),
    {
        let mut properties: Vec<SchemaProperty> = Vec::new();
        properties.push(property("session_id", SchemaKind::Text, "Session ID"));
        properties.push(property("input", SchemaKind::Text, "Input prompt"));
        let mut required: Vec<String> = Vec::new();
        required.push("session_id".to_owned());
        required.push("input".to_owned());
        proof {
            assert(property_views(properties@) =~= seq![("session_id"@, SchemaKind::Text, "Session ID"@), ("input"@, SchemaKind::Text, "Input prompt"@)]);
            assert(properties@[0].name@ == required@[0]@);
            assert(properties@[1].name@ == required@[1]@);
            assert(required_views(required@) =~= seq!["session_id"@, "input"@]);
        }
        McpTool {
            name: "session_execute_turn".to_owned(),
            description: "Execute a turn in an existing session".to_owned(),
            input_schema: ToolSchema { properties, required },
        }
    }

    /// The `session_resolve_action` tool: resolve and execute an action.
    pub fn session_resolve_action() -> (t: Self)
        ensures
            is_session_resolve_action(t),
            requires_only_declared(t.input_schema),
    {
        let mut properties: Vec<SchemaProperty> = Vec::new();
        properties.push(property("session_id", SchemaKind::Text, "Session ID"));
        properties.push(property("action", SchemaKind::Text, "Action to resolve"));
        let mut required: Vec<String> = Vec::new();
        required.push("session_id".to_owned());
        required.push("action".to_owned());
        proof {
            assert(property_views(properties@) =~= seq![("session_id"@, SchemaKind::Text, "Session ID"@), ("action"@, SchemaKind::Text, "Action to resolve"@)]);
            assert(properties@[0].name@ == required@[0]@);
            assert(properties@[1].name@ == required@[1]@);
            assert(required_views(required@) =~= seq!["session_id"@, "action"@]);
        }
        McpTool {
            name: "session_resolve_action".to_owned(),
            description: "Resolve and execute an action".to_owned(),
            input_schema: ToolSchema { properties, required },
        }
    }

    /// The `session_get_history` tool: get session history.
    pub fn session_get_history() -> (t: Self)
        ensures
            is_session_get_history(t),
            requires_only_declared(t.input_schema),
    {
        let mut properties: Vec<SchemaProperty> = Vec::new();
        properties.push(property("session_id", SchemaKind::Text, "Session ID"));
        properties.push(property("limit", SchemaKind::Number, "Max turns to return"));
        let mut required: Vec<String> = Vec::new();
        proof {
            assert(property_views(properties@) =~= seq![("session_id"@, SchemaKind::Text, "Session ID"@), ("limit"@, SchemaKind::Number, "Max turns to return"@)]);
            assert(required_views(required@) =~= Seq::<Seq<char>>::empty());
        }
        McpTool {
            name: "session_get_history".to_owned(),
            description: "Get session history".to_owned(),
            input_schema: ToolSchema { properties, required },
        }
    }

    /// The `codex_exec` tool: execute Codex AI to perform coding tasks.
    pub fn codex_exec() -> (t: Self)
        ensures
            is_codex_exec(t),
            requires_only_declared(t.input_schema),
    {
        let mut properties: Vec<SchemaProperty> = Vec::new();
        properties.push(property("prompt", SchemaKind::Text, "Prompt for Codex"));
        properties.push(property("model", SchemaKind::Text, "Model to use (optional)"));
        let mut required: Vec<String> = Vec::new();
        required.push("prompt".to_owned());
        proof {
            assert(property_views(properties@) =~= seq![("prompt"@, SchemaKind::Text, "Prompt for Codex"@), ("model"@, SchemaKind::Text, "Model to use (optional)"@)]);
            assert(properties@[0].name@ == required@[0]@);
            assert(required_views(required@) =~= seq!["prompt"@]);
        }
        McpTool {
            name: "codex_exec".to_owned(),
            description: "Execute Codex AI to perform coding tasks".to_owned(),
            input_schema: ToolSchema { properties, required },
        }
    }

    /// The `codex_update` tool: update Codex CLI to the latest version.
    pub fn codex_update() -> (t: Self)
        ensures
            is_codex_update(t),
            requires_only_declared(t.input_schema),
    {
        let mut properties: Vec<SchemaProperty> = Vec::new();
        let mut required: Vec<String> = Vec::new();
        proof {
            assert(property_views(properties@) =~= Seq::<(Seq<char>, SchemaKind, Seq<char>)>::empty());
            assert(required_views(required@) =~= Seq::<Seq<char>>::empty());
        }
        McpTool {
            name: "codex_update".to_owned(),
            description: "Update Codex CLI to the latest version".to_owned(),
            input_schema: ToolSchema { properties, required },
        }
    }

    /// The `codex_config` tool: get or set Codex configuration.
    pub fn codex_config() -> (t: Self)
        ensures
            is_codex_config(t),
            requires_only_declared(t.input_schema),
    {
        let mut properties: Vec<SchemaProperty> = Vec::new();
        properties.push(property("key", SchemaKind::Text, "Config key (e.g. model, personality)"));
        properties.push(property("value", SchemaKind::Text, "New value (omit to get current value)"));
        let mut required: Vec<String> = Vec::new();
        proof {
            assert(property_views(properties@) =~= seq![("key"@, SchemaKind::Text, "Config key (e.g. model, personality)"@), ("value"@, SchemaKind::Text, "New value (omit to get current value)"@)]);
            assert(required_views(required@) =~= Seq::<Seq<char>>::empty());
        }
        McpTool {
            name: "codex_config".to_owned(),
            description: "Get or set Codex configuration".to_owned(),
            input_schema: ToolSchema { properties, required },
        }
    }

    /// The `system_get_sessions` tool: list all active sessions.
    pub fn system_get_sessions() -> (t: Self)
        ensures
            is_system_get_sessions(t),
            requires_only_declared(t.input_schema),
    {
        let mut properties: Vec<SchemaProperty> = Vec::new();
        let mut required: Vec<String> = Vec::new();
        proof {
            assert(property_views(properties@) =~= Seq::<(Seq<char>, SchemaKind, Seq<char>)>::empty());
            assert(required_views(required@) =~= Seq::<Seq<char>>::empty());
        }
        McpTool {
            name: "system_get_sessions".to_owned(),
            description: "List all active sessions".to_owned(),
            input_schema: ToolSchema { properties, required },
        }
    }

    /// The `system_kill_session` tool: kill a running session.
    pub fn system_kill_session() -> (t: Self)
        ensures
            is_system_kill_session(t),
            requires_only_declared(t.input_schema),
    {
        let mut properties: Vec<SchemaProperty> = Vec::new();
        properties.push(property("session_id", SchemaKind::Text, "Session ID to kill"));
        let mut required: Vec<String> = Vec::new();
        required.push("session_id".to_owned());
        proof {
            assert(property_views(properties@) =~= seq![("session_id"@, SchemaKind::Text, "Session ID to kill"@)]);
            assert(properties@[0].name@ == required@[0]@);
            assert(required_views(required@) =~= seq!["session_id"@]);
        }
        McpTool {
            name: "system_kill_session".to_owned(),
            description: "Kill a running session".to_owned(),
            input_schema: ToolSchema { properties, required },
        }
    }

    /// The `system_info` tool: get system information (version, uptime, etc.).
    pub fn system_info() -> (t: Self)
        ensures
            is_system_info(t),
            requires_only_declared(t.input_schema),
    {
        let mut properties: Vec<SchemaProperty> = Vec::new();
        let mut required: Vec<String> = Vec::new();
        proof {
            assert(property_views(properties@) =~= Seq::<(Seq<char>, SchemaKind, Seq<char>)>::empty());
            assert(required_views(required@) =~= Seq::<Seq<char>>::empty());
        }
        McpTool {
            name: "system_info".to_owned(),
            description: "Get system information (version, uptime, etc.)".to_owned(),
            input_schema: ToolSchema { properties, required },
        }
    }
}

/// The names of the catalogue's tools, in order.
pub open spec fn catalogue_names() -> Seq<Seq<char>> {
    seq!["system_get_agents"@, "system_upgrade_agent"@, "system_set_env"@, "system_get_sessions"@, "system_kill_session"@, "system_info"@, "session_start"@, "session_execute_turn"@, "session_resolve_action"@, "session_get_history"@, "codex_exec"@, "codex_update"@, "codex_config"@]
}

/// The tool names of a list of tools.
pub open spec fn tool_names(ts: Seq<McpTool>) -> Seq<Seq<char>> {
    ts.map_values(|t: McpTool| t.name@)
}

/// Every tool that the node offers, in the order it lists them.
pub fn get_all_tools() -> (tools: Vec<McpTool>)
    ensures
        tools@.len() == 13,
        tool_names(tools@) == catalogue_names(),
        is_system_get_agents(tools@[0]),
        is_system_upgrade_agent(tools@[1]),
        is_system_set_env(tools@[2]),
        is_system_get_sessions(tools@[3]),
        is_system_kill_session(tools@[4]),
        is_system_info(tools@[5]),
        is_session_start(tools@[6]),
        is_session_execute_turn(tools@[7]),
        is_session_resolve_action(tools@[8]),
        is_session_get_history(tools@[9]),
        is_codex_exec(tools@[10]),
        is_codex_update(tools@[11]),
        is_codex_config(tools@[12]),
        forall|i: int| 0 <= i < tools@.len() ==> requires_only_declared(#[trigger] tools@[i].input_schema),
{
    let mut tools: Vec<McpTool> = Vec::new();
    tools.push(McpTool::system_get_agents());
    tools.push(McpTool::system_upgrade_agent());
    tools.push(McpTool::system_set_env());
    tools.push(McpTool::system_get_sessions());
    tools.push(McpTool::system_kill_session());
    tools.push(McpTool::system_info());
    tools.push(McpTool::session_start());
    tools.push(McpTool::session_execute_turn());
    tools.push(McpTool::session_resolve_action());
    tools.push(McpTool::session_get_history());
    tools.push(McpTool::codex_exec());
    tools.push(McpTool::codex_update());
    tools.push(McpTool::codex_config());
    proof {
        assert(tool_names(tools@) =~= catalogue_names());
    }
    tools
}

/// No two tools of the catalogue share a name.
pub proof fn law_catalogue_names_distinct()
    ensures
        catalogue_names().no_duplicates(),
{
    reveal_strlit("system_get_agents");
    reveal_strlit("system_upgrade_agent");
    reveal_strlit("system_set_env");
    reveal_strlit("system_get_sessions");
    reveal_strlit("system_kill_session");
    reveal_strlit("system_info");
    reveal_strlit("session_start");
    reveal_strlit("session_execute_turn");
    reveal_strlit("session_resolve_action");
    reveal_strlit("session_get_history");
    reveal_strlit("codex_exec");
    reveal_strlit("codex_update");
    reveal_strlit("codex_config");
    let names = catalogue_names();
    assert(names[0].len() != names[1].len());
    assert(names[0].len() != names[2].len());
    assert(names[0].len() != names[3].len());
    assert(names[0].len() != names[4].len());
    assert(names[0].len() != names[5].len());
    assert(names[0].len() != names[6].len());
    assert(names[0].len() != names[7].len());
    assert(names[0].len() != names[8].len());
    assert(names[0].len() != names[9].len());
    assert(names[0].len() != names[10].len());
    assert(names[0].len() != names[11].len());
    assert(names[0].len() != names[12].len());
    assert(names[1].len() != names[2].len());
    assert(names[1].len() != names[3].len());
    assert(names[1].len() != names[4].len());
    assert(names[1].len() != names[5].len());
    assert(names[1].len() != names[6].len());
    assert(names[1][1] != names[7][1]);
    assert(names[1].len() != names[8].len());
    assert(names[1].len() != names[9].len());
    assert(names[1].len() != names[10].len());
    assert(names[1].len() != names[11].len());
    assert(names[1].len() != names[12].len());
    assert(names[2].len() != names[3].len());
    assert(names[2].len() != names[4].len());
    assert(names[2].len() != names[5].len());
    assert(names[2].len() != names[6].len());
    assert(names[2].len() != names[7].len());
    assert(names[2].len() != names[8].len());
    assert(names[2].len() != names[9].len());
    assert(names[2].len() != names[10].len());
    assert(names[2].len() != names[11].len());
    assert(names[2].len() != names[12].len());
    assert(names[3][7] != names[4][7]);
    assert(names[3].len() != names[5].len());
    assert(names[3].len() != names[6].len());
    assert(names[3].len() != names[7].len());
    assert(names[3].len() != names[8].len());
    assert(names[3][1] != names[9][1]);
    assert(names[3].len() != names[10].len());
    assert(names[3].len() != names[11].len());
    assert(names[3].len() != names[12].len());
    assert(names[4].len() != names[5].len());
    assert(names[4].len() != names[6].len());
    assert(names[4].len() != names[7].len());
    assert(names[4].len() != names[8].len());
    assert(names[4][1] != names[9][1]);
    assert(names[4].len() != names[10].len());
    assert(names[4].len() != names[11].len());
    assert(names[4].len() != names[12].len());
    assert(names[5].len() != names[6].len());
    assert(names[5].len() != names[7].len());
    assert(names[5].len() != names[8].len());
    assert(names[5].len() != names[9].len());
    assert(names[5].len() != names[10].len());
    assert(names[5].len() != names[11].len());
    assert(names[5].len() != names[12].len());
    assert(names[6].len() != names[7].len());
    assert(names[6].len() != names[8].len());
    assert(names[6].len() != names[9].len());
    assert(names[6].len() != names[10].len());
    assert(names[6].len() != names[11].len());
    assert(names[6].len() != names[12].len());
    assert(names[7].len() != names[8].len());
    assert(names[7].len() != names[9].len());
    assert(names[7].len() != names[10].len());
    assert(names[7].len() != names[11].len());
    assert(names[7].len() != names[12].len());
    assert(names[8].len() != names[9].len());
    assert(names[8].len() != names[10].len());
    assert(names[8].len() != names[11].len());
    assert(names[8].len() != names[12].len());
    assert(names[9].len() != names[10].len());
    assert(names[9].len() != names[11].len());
    assert(names[9].len() != names[12].len());
    assert(names[10].len() != names[11].len());
    assert(names[10].len() != names[12].len());
    assert(names[11][6] != names[12][6]);
}

/// The `system_get_agents` tool: "List all registered agents"; its arguments are no arguments, and the required ones none.
pub proof fn law_schema_system_get_agents(t: McpTool)
    requires
        is_system_get_agents(t),
    ensures
        t.name@ == "system_get_agents"@,
        t.description@ == "List all registered agents"@,
        t.input_schema.properties@.len() == 0,
        t.input_schema.required@.len() == 0,
{
    assert(property_views(t.input_schema.properties@).len() == t.input_schema.properties@.len());
    assert(required_views(t.input_schema.required@).len() == t.input_schema.required@.len());
}

/// The `system_upgrade_agent` tool: "Upgrade agent to a new version"; its arguments are `agent_id`, `version`, and the required ones `agent_id`.
pub proof fn law_schema_system_upgrade_agent(t: McpTool)
    requires
        is_system_upgrade_agent(t),
    ensures
        t.name@ == "system_upgrade_agent"@,
        t.description@ == "Upgrade agent to a new version"@,
        t.input_schema.properties@.len() == 2,
        t.input_schema.properties@[0].name@ == "agent_id"@,
        t.input_schema.properties@[0].kind == SchemaKind::Text,
        t.input_schema.properties@[0].description@ == "Agent ID"@,
        t.input_schema.properties@[1].name@ == "version"@,
        t.input_schema.properties@[1].kind == SchemaKind::Text,
        t.input_schema.properties@[1].description@ == "Target version"@,
        t.input_schema.required@.len() == 1,
        t.input_schema.required@[0]@ == "agent_id"@,
{
    assert(property_views(t.input_schema.properties@).len() == t.input_schema.properties@.len());
    assert(required_views(t.input_schema.required@).len() == t.input_schema.required@.len());
    assert(property_views(t.input_schema.properties@)[0] == (t.input_schema.properties@[0].name@, t.input_schema.properties@[0].kind, t.input_schema.properties@[0].description@));
    assert(property_views(t.input_schema.properties@)[1] == (t.input_schema.properties@[1].name@, t.input_schema.properties@[1].kind, t.input_schema.properties@[1].description@));
    assert(required_views(t.input_schema.required@)[0] == t.input_schema.required@[0]@);
}

/// The `system_set_env` tool: "Set environment variable for agent"; its arguments are `agent_id`, `key`, `value`, and the required ones `agent_id`, `key`, `value`.
pub proof fn law_schema_system_set_env(t: McpTool)
    requires
        is_system_set_env(t),
    ensures
        t.name@ == "system_set_env"@,
        t.description@ == "Set environment variable for agent"@,
        t.input_schema.properties@.len() == 3,
        t.input_schema.properties@[0].name@ == "agent_id"@,
        t.input_schema.properties@[0].kind == SchemaKind::Text,
        t.input_schema.properties@[0].description@ == "Agent ID"@,
        t.input_schema.properties@[1].name@ == "key"@,
        t.input_schema.properties@[1].kind == SchemaKind::Text,
        t.input_schema.properties@[1].description@ == "Environment variable key"@,
        t.input_schema.properties@[2].name@ == "value"@,
        t.input_schema.properties@[2].kind == SchemaKind::Text,
        t.input_schema.properties@[2].description@ == "Environment variable value"@,
        t.input_schema.required@.len() == 3,
        t.input_schema.required@[0]@ == "agent_id"@,
        t.input_schema.required@[1]@ == "key"@,
        t.input_schema.required@[2]@ == "value"@,
{
    assert(property_views(t.input_schema.properties@).len() == t.input_schema.properties@.len());
    assert(required_views(t.input_schema.required@).len() == t.input_schema.required@.len());
    assert(property_views(t.input_schema.properties@)[0] == (t.input_schema.properties@[0].name@, t.input_schema.properties@[0].kind, t.input_schema.properties@[0].description@));
    assert(property_views(t.input_schema.properties@)[1] == (t.input_schema.properties@[1].name@, t.input_schema.properties@[1].kind, t.input_schema.properties@[1].description@));
    assert(property_views(t.input_schema.properties@)[2] == (t.input_schema.properties@[2].name@, t.input_schema.properties@[2].kind, t.input_schema.properties@[2].description@));
    assert(required_views(t.input_schema.required@)[0] == t.input_schema.required@[0]@);
    assert(required_views(t.input_schema.required@)[1] == t.input_schema.required@[1]@);
    assert(required_views(t.input_schema.required@)[2] == t.input_schema.required@[2]@);
}

/// The `session_start` tool: "Start a new agent session"; its arguments are `agent_id`, `cwd`, `command`, and the required ones `agent_id`.
pub proof fn law_schema_session_start(t: McpTool)
    requires
        is_session_start(t),
    ensures
        t.name@ == "session_start"@,
        t.description@ == "Start a new agent session"@,
        t.input_schema.properties@.len() == 3,
        t.input_schema.properties@[0].name@ == "agent_id"@,
        t.input_schema.properties@[0].kind == SchemaKind::Text,
        t.input_schema.properties@[0].description@ == "Agent ID"@,
        t.input_schema.properties@[1].name@ == "cwd"@,
        t.input_schema.properties@[1].kind == SchemaKind::Text,
        t.input_schema.properties@[1].description@ == "Working directory"@,
        t.input_schema.properties@[2].name@ == "command"@,
        t.input_schema.properties@[2].kind == SchemaKind::Text,
        t.input_schema.properties@[2].description@ == "Command to run"@,
        t.input_schema.required@.len() == 1,
        t.input_schema.required@[0]@ == "agent_id"@,
{
    assert(property_views(t.input_schema.properties@).len() == t.input_schema.properties@.len());
    assert(required_views(t.input_schema.required@).len() == t.input_schema.required@.len());
    assert(property_views(t.input_schema.properties@)[0] == (t.input_schema.properties@[0].name@, t.input_schema.properties@[0].kind, t.input_schema.properties@[0].description@));
    assert(property_views(t.input_schema.properties@)[1] == (t.input_schema.properties@[1].name@, t.input_schema.properties@[1].kind, t.input_schema.properties@[1].description@));
    assert(property_views(t.input_schema.properties@)[2] == (t.input_schema.properties@[2].name@, t.input_schema.properties@[2].kind, t.input_schema.properties@[2].description@));
    assert(required_views(t.input_schema.required@)[0] == t.input_schema.required@[0]@);
}

/// The `session_execute_turn` tool: "Execute a turn in an existing session"; its arguments are `session_id`, `input`, and the required ones `session_id`, `input`.
pub proof fn law_schema_session_execute_turn(t: McpTool)
    requires
        is_session_execute_turn(t),
    ensures
        t.name@ == "session_execute_turn"@,
        t.description@ == "Execute a turn in an existing session"@,
        t.input_schema.properties@.len() == 2,
        t.input_schema.properties@[0].name@ == "session_id"@,
        t.input_schema.properties@[0].kind == SchemaKind::Text,
        t.input_schema.properties@[0].description@ == "Session ID"@,
        t.input_schema.properties@[1].name@ == "input"@,
        t.input_schema.properties@[1].kind == SchemaKind::Text,
        t.input_schema.properties@[1].description@ == "Input prompt"@,
        t.input_schema.required@.len() == 2,
        t.input_schema.required@[0]@ == "session_id"@,
        t.input_schema.required@[1]@ == "input"@,
{
    assert(property_views(t.input_schema.properties@).len() == t.input_schema.properties@.len());
    assert(required_views(t.input_schema.required@).len() == t.input_schema.required@.len());
    assert(property_views(t.input_schema.properties@)[0] == (t.input_schema.properties@[0].name@, t.input_schema.properties@[0].kind, t.input_schema.properties@[0].description@));
    assert(property_views(t.input_schema.properties@)[1] == (t.input_schema.properties@[1].name@, t.input_schema.properties@[1].kind, t.input_schema.properties@[1].description@));
    assert(required_views(t.input_schema.required@)[0] == t.input_schema.required@[0]@);
    assert(required_views(t.input_schema.required@)[1] == t.input_schema.required@[1]@);
}

/// The `session_resolve_action` tool: "Resolve and execute an action"; its arguments are `session_id`, `action`, and the required ones `session_id`, `action`.
pub proof fn law_schema_session_resolve_action(t: McpTool)
    requires
        is_session_resolve_action(t),
    ensures
        t.name@ == "session_resolve_action"@,
        t.description@ == "Resolve and execute an action"@,
        t.input_schema.properties@.len() == 2,
        t.input_schema.properties@[0].name@ == "session_id"@,
        t.input_schema.properties@[0].kind == SchemaKind::Text,
        t.input_schema.properties@[0].description@ == "Session ID"@,
        t.input_schema.properties@[1].name@ == "action"@,
        t.input_schema.properties@[1].kind == SchemaKind::Text,
        t.input_schema.properties@[1].description@ == "Action to resolve"@,
        t.input_schema.required@.len() == 2,
        t.input_schema.required@[0]@ == "session_id"@,
        t.input_schema.required@[1]@ == "action"@,
{
    assert(property_views(t.input_schema.properties@).len() == t.input_schema.properties@.len());
    assert(required_views(t.input_schema.required@).len() == t.input_schema.required@.len());
    assert(property_views(t.input_schema.properties@)[0] == (t.input_schema.properties@[0].name@, t.input_schema.properties@[0].kind, t.input_schema.properties@[0].description@));
    assert(property_views(t.input_schema.properties@)[1] == (t.input_schema.properties@[1].name@, t.input_schema.properties@[1].kind, t.input_schema.properties@[1].description@));
    assert(required_views(t.input_schema.required@)[0] == t.input_schema.required@[0]@);
    assert(required_views(t.input_schema.required@)[1] == t.input_schema.required@[1]@);
}

/// The `session_get_history` tool: "Get session history"; its arguments are `session_id`, `limit`, and the required ones none.
pub proof fn law_schema_session_get_history(t: McpTool)
    requires
        is_session_get_history(t),
    ensures
        t.name@ == "session_get_history"@,
        t.description@ == "Get session history"@,
        t.input_schema.properties@.len() == 2,
        t.input_schema.properties@[0].name@ == "session_id"@,
        t.input_schema.properties@[0].kind == SchemaKind::Text,
        t.input_schema.properties@[0].description@ == "Session ID"@,
        t.input_schema.properties@[1].name@ == "limit"@,
        t.input_schema.properties@[1].kind == SchemaKind::Number,
        t.input_schema.properties@[1].description@ == "Max turns to return"@,
        t.input_schema.required@.len() == 0,
{
    assert(property_views(t.input_schema.properties@).len() == t.input_schema.properties@.len());
    assert(required_views(t.input_schema.required@).len() == t.input_schema.required@.len());
    assert(property_views(t.input_schema.properties@)[0] == (t.input_schema.properties@[0].name@, t.input_schema.properties@[0].kind, t.input_schema.properties@[0].description@));
    assert(property_views(t.input_schema.properties@)[1] == (t.input_schema.properties@[1].name@, t.input_schema.properties@[1].kind, t.input_schema.properties@[1].description@));
}

/// The `codex_exec` tool: "Execute Codex AI to perform coding tasks"; its arguments are `prompt`, `model`, and the required ones `prompt`.
pub proof fn law_schema_codex_exec(t: McpTool)
    requires
        is_codex_exec(t),
    ensures
        t.name@ == "codex_exec"@,
        t.description@ == "Execute Codex AI to perform coding tasks"@,
        t.input_schema.properties@.len() == 2,
        t.input_schema.properties@[0].name@ == "prompt"@,
        t.input_schema.properties@[0].kind == SchemaKind::Text,
        t.input_schema.properties@[0].description@ == "Prompt for Codex"@,
        t.input_schema.properties@[1].name@ == "model"@,
        t.input_schema.properties@[1].kind == SchemaKind::Text,
        t.input_schema.properties@[1].description@ == "Model to use (optional)"@,
        t.input_schema.required@.len() == 1,
        t.input_schema.required@[0]@ == "prompt"@,
{
    assert(property_views(t.input_schema.properties@).len() == t.input_schema.properties@.len());
    assert(required_views(t.input_schema.required@).len() == t.input_schema.required@.len());
    assert(property_views(t.input_schema.properties@)[0] == (t.input_schema.properties@[0].name@, t.input_schema.properties@[0].kind, t.input_schema.properties@[0].description@));
    assert(property_views(t.input_schema.properties@)[1] == (t.input_schema.properties@[1].name@, t.input_schema.properties@[1].kind, t.input_schema.properties@[1].description@));
    assert(required_views(t.input_schema.required@)[0] == t.input_schema.required@[0]@);
}

/// The `codex_update` tool: "Update Codex CLI to the latest version"; its arguments are no arguments, and the required ones none.
pub proof fn law_schema_codex_update(t: McpTool)
    requires
        is_codex_update(t),
    ensures
        t.name@ == "codex_update"@,
        t.description@ == "Update Codex CLI to the latest version"@,
        t.input_schema.properties@.len() == 0,
        t.input_schema.required@.len() == 0,
{
    assert(property_views(t.input_schema.properties@).len() == t.input_schema.properties@.len());
    assert(required_views(t.input_schema.required@).len() == t.input_schema.required@.len());
}

/// The `codex_config` tool: "Get or set Codex configuration"; its arguments are `key`, `value`, and the required ones none.
pub proof fn law_schema_codex_config(t: McpTool)
    requires
        is_codex_config(t),
    ensures
        t.name@ == "codex_config"@,
        t.description@ == "Get or set Codex configuration"@,
        t.input_schema.properties@.len() == 2,
        t.input_schema.properties@[0].name@ == "key"@,
        t.input_schema.properties@[0].kind == SchemaKind::Text,
        t.input_schema.properties@[0].description@ == "Config key (e.g. model, personality)"@,
        t.input_schema.properties@[1].name@ == "value"@,
        t.input_schema.properties@[1].kind == SchemaKind::Text,
        t.input_schema.properties@[1].description@ == "New value (omit to get current value)"@,
        t.input_schema.required@.len() == 0,
{
    assert(property_views(t.input_schema.properties@).len() == t.input_schema.properties@.len());
    assert(required_views(t.input_schema.required@).len() == t.input_schema.required@.len());
    assert(property_views(t.input_schema.properties@)[0] == (t.input_schema.properties@[0].name@, t.input_schema.properties@[0].kind, t.input_schema.properties@[0].description@));
    assert(property_views(t.input_schema.properties@)[1] == (t.input_schema.properties@[1].name@, t.input_schema.properties@[1].kind, t.input_schema.properties@[1].description@));
}

/// The `system_get_sessions` tool: "List all active sessions"; its arguments are no arguments, and the required ones none.
pub proof fn law_schema_system_get_sessions(t: McpTool)
    requires
        is_system_get_sessions(t),
    ensures
        t.name@ == "system_get_sessions"@,
        t.description@ == "List all active sessions"@,
        t.input_schema.properties@.len() == 0,
        t.input_schema.required@.len() == 0,
{
    assert(property_views(t.input_schema.properties@).len() == t.input_schema.properties@.len());
    assert(required_views(t.input_schema.required@).len() == t.input_schema.required@.len());
}

/// The `system_kill_session` tool: "Kill a running session"; its arguments are `session_id`, and the required ones `session_id`.
pub proof fn law_schema_system_kill_session(t: McpTool)
    requires
        is_system_kill_session(t),
    ensures
        t.name@ == "system_kill_session"@,
        t.description@ == "Kill a running session"@,
        t.input_schema.properties@.len() == 1,
        t.input_schema.properties@[0].name@ == "session_id"@,
        t.input_schema.properties@[0].kind == SchemaKind::Text,
        t.input_schema.properties@[0].description@ == "Session ID to kill"@,
        t.input_schema.required@.len() == 1,
        t.input_schema.required@[0]@ == "session_id"@,
{
    assert(property_views(t.input_schema.properties@).len() == t.input_schema.properties@.len());
    assert(required_views(t.input_schema.required@).len() == t.input_schema.required@.len());
    assert(property_views(t.input_schema.properties@)[0] == (t.input_schema.properties@[0].name@, t.input_schema.properties@[0].kind, t.input_schema.properties@[0].description@));
    assert(required_views(t.input_schema.required@)[0] == t.input_schema.required@[0]@);
}

/// The `system_info` tool: "Get system information (version, uptime, etc.)"; its arguments are no arguments, and the required ones none.
pub proof fn law_schema_system_info(t: McpTool)
    requires
        is_system_info(t),
    ensures
        t.name@ == "system_info"@,
        t.description@ == "Get system information (version, uptime, etc.)"@,
        t.input_schema.properties@.len() == 0,
        t.input_schema.required@.len() == 0,
{
    assert(property_views(t.input_schema.properties@).len() == t.input_schema.properties@.len());
    assert(required_views(t.input_schema.required@).len() == t.input_schema.required@.len());
}

} // verus!
