//! Deciding what a request asks of the node: which MCP method a JSON-RPC
//! request names, and which action a tool call comes to, with its arguments
//! read and defaulted.

use vstd::prelude::*;
use crate::map::{key_seq, TextMap};
use crate::state::{Agent, AgentStatus, INITIAL_AGENT_VERSION};
use crate::text::text_eq;
use crate::tools::{catalogue_names, law_catalogue_names_distinct};

verus! {

/// The MCP protocol version the node speaks.
pub const PROTOCOL_VERSION: &'static str = "2024-11-05";

/// The name the node gives itself to MCP clients.
pub const SERVER_NAME: &'static str = "agent-node";

/// The version the node reports.
pub const SERVER_VERSION: &'static str = "0.1.0";

/// JSON-RPC error code for parameters that do not parse.
pub const INVALID_PARAMS: i64 = -32602;

/// JSON-RPC error code for an unknown method.
pub const METHOD_NOT_FOUND: i64 = -32601;

/// Error text when a tool names an agent that is not registered.
pub const AGENT_NOT_FOUND: &'static str = "Agent not found";

/// Error text when a tool names a session that is not running.
pub const SESSION_NOT_FOUND: &'static str = "Session not found";

/// Error text when a tool names a session that has no record.
pub const HISTORY_NOT_FOUND: &'static str = "History not found";

/// The MCP methods the node answers.
#[derive(PartialEq, Eq, Structural, Debug, Clone, Copy)]
pub enum McpMethod {
    Initialize,
    ListTools,
    CallTool,
    NotFound,
}

/// Which method a JSON-RPC method name asks for.
pub open spec fn method_for(name: Seq<char>) -> McpMethod {
    if name == "initialize"@ {
        McpMethod::Initialize
    } else if name == "tools/list"@ {
        McpMethod::ListTools
    } else if name == "tools/call"@ {
        McpMethod::CallTool
    } else {
        McpMethod::NotFound
    }
}

/// Which method a JSON-RPC method name asks for.
pub fn route_mcp_method(method: &str) -> (m: McpMethod)
    ensures
        m == method_for(method@),
{
    if text_eq(method, "initialize") {
        McpMethod::Initialize
    } else if text_eq(method, "tools/list") {
        McpMethod::ListTools
    } else if text_eq(method, "tools/call") {
        McpMethod::CallTool
    } else {
        McpMethod::NotFound
    }
}

/// The error message for tool-call parameters that do not parse.
pub fn invalid_params_message(detail: &str) -> (m: String)
    ensures
        m@ == "Invalid params: "@ + detail@,
{
    let mut m = "Invalid params: ".to_owned();
    m.append(detail);
    m
}

/// The text a tool call answers with: its output, or its error after `Error: `.
pub fn tool_call_text(result: Result<String, String>) -> (text: String)
    ensures
        match result {
            Ok(out) => text@ == out@,
            Err(e) => text@ == "Error: "@ + e@,
        },
{
    match result {
        Ok(out) => out,
        Err(e) => {
            let mut text = "Error: ".to_owned();
            text.append(e.as_str());
            text
        },
    }
}

/// One argument of a request, as the node reads it: a string, a
/// non-negative integer, an object (each field's string, or `None` when the
/// field is not a string), or anything else.
#[derive(Debug)]
pub enum ArgValue {
    Text(String),
    Count(u64),
    Fields(TextMap<Option<String>>),
    Other,
}

/// The string argument `key`, or `default` when there is no string under it.
pub open spec fn arg_or(args: Map<Seq<char>, ArgValue>, key: Seq<char>, default: Seq<char>) -> Seq<
    char,
> {
    if args.contains_key(key) {
        match args[key] {
            ArgValue::Text(s) => s@,
            _ => default,
        }
    } else {
        default
    }
}

/// The string argument `key`, if there is a string under it.
pub open spec fn arg_opt(args: Map<Seq<char>, ArgValue>, key: Seq<char>) -> Option<Seq<char>> {
    if args.contains_key(key) {
        match args[key] {
            ArgValue::Text(s) => Some(s@),
            _ => None,
        }
    } else {
        None
    }
}

/// The non-negative integer argument `key`, if there is one.
pub open spec fn arg_count(args: Map<Seq<char>, ArgValue>, key: Seq<char>) -> Option<u64> {
    if args.contains_key(key) {
        match args[key] {
            ArgValue::Count(n) => Some(n),
            _ => None,
        }
    } else {
        None
    }
}

/// The characters of an optional string.
pub open spec fn opt_view(o: Option<String>) -> Option<Seq<char>> {
    match o {
        Some(s) => Some(s@),
        None => None,
    }
}

/// The string argument `key` of a request, or `default` when there is no
/// string under it.
pub fn get_string_arg(args: &TextMap<ArgValue>, key: &str, default: &str) -> (v: String)
    ensures
        v@ == arg_or(args@, key@, default@),
{
    match args.get(key) {
        Some(ArgValue::Text(v)) => v.clone(),
        _ => default.to_owned(),
    }
}

/// The string argument `key` of a request, if there is a string under it.
pub fn get_optional_string_arg(args: &TextMap<ArgValue>, key: &str) -> (v: Option<String>)
    ensures
        opt_view(v) == arg_opt(args@, key@),
{
    match args.get(key) {
        Some(ArgValue::Text(v)) => Some(v.clone()),
        _ => None,
    }
}

/// The non-negative integer argument `key` of a request, if there is one.
pub fn get_count_arg(args: &TextMap<ArgValue>, key: &str) -> (v: Option<u64>)
    ensures
        v == arg_count(args@, key@),
{
    match args.get(key) {
        Some(ArgValue::Count(n)) => Some(*n),
        _ => None,
    }
}

/// What a tool call asks the node to do.
#[derive(Debug)]
pub enum ToolRequest {
    /// List the registered agents.
    ListAgents,
    /// Set an environment variable of an agent.
    SetEnv { agent_id: String, key: String, value: String },
    /// Set the version of an agent.
    UpgradeAgent { agent_id: String, version: String },
    /// Start a session of an agent, running `command`.
    StartSession { agent_id: String, command: String, cwd: Option<String> },
    /// Send input to a session and read its reply.
    ExecuteTurn { session_id: String, input: String },
    /// Send an action to a session for it to resolve and carry out, and read its reply.
    ResolveAction { session_id: String, action: String },
    /// Give the record of a session, with at most `limit` of its latest turns.
    GetHistory { session_id: String, limit: Option<u64> },
    /// Run Codex on a prompt.
    CodexExec { prompt: String },
    /// Update the Codex CLI.
    CodexUpdate,
    /// Read or set a Codex configuration key.
    CodexConfig { key: String, value: Option<String> },
    /// List the open sessions.
    ListSessions,
    /// Stop a session.
    KillSession { session_id: String },
    /// Describe the node.
    SystemInfo,
    /// The call lacks a required argument; the message says which.
    Rejected(String),
    /// No tool has this name; the message says so.
    UnknownTool(String),
}

/// `r` is what a call of tool `name` with arguments `args` asks for.
pub open spec fn planned(name: Seq<char>, args: Map<Seq<char>, ArgValue>, r: ToolRequest) -> bool {
    if name == "system_get_agents"@ {
        r is ListAgents
    } else if name == "system_set_env"@ {
        r matches ToolRequest::SetEnv { agent_id, key, value } && agent_id@ == arg_or(
            args,
            "agent_id"@,
            ""@,
        ) && key@ == arg_or(args, "key"@, ""@) && value@ == arg_or(args, "value"@, ""@)
    } else if name == "system_upgrade_agent"@ {
        r matches ToolRequest::UpgradeAgent { agent_id, version } && agent_id@ == arg_or(
            args,
            "agent_id"@,
            ""@,
        ) && version@ == arg_or(args, "version"@, "latest"@)
    } else if name == "session_start"@ {
        r matches ToolRequest::StartSession { agent_id, command, cwd } && agent_id@ == arg_or(
            args,
            "agent_id"@,
            "default"@,
        ) && command@ == arg_or(args, "command"@, "bash"@) && opt_view(cwd) == arg_opt(
            args,
            "cwd"@,
        )
    } else if name == "session_execute_turn"@ {
        r matches ToolRequest::ExecuteTurn { session_id, input } && session_id@ == arg_or(
            args,
            "session_id"@,
            ""@,
        ) && input@ == arg_or(args, "input"@, ""@)
    } else if name == "session_resolve_action"@ {
        if arg_or(args, "session_id"@, ""@).len() == 0 {
            r matches ToolRequest::Rejected(m) && m@ == "session_id is required"@
        } else if arg_or(args, "action"@, ""@).len() == 0 {
            r matches ToolRequest::Rejected(m) && m@ == "action is required"@
        } else {
            r matches ToolRequest::ResolveAction { session_id, action } && session_id@ == arg_or(
                args,
                "session_id"@,
                ""@,
            ) && action@ == arg_or(args, "action"@, ""@)
        }
    } else if name == "session_get_history"@ {
        r matches ToolRequest::GetHistory { session_id, limit } && session_id@ == arg_or(
            args,
            "session_id"@,
            ""@,
        ) && limit == arg_count(args, "limit"@)
    } else if name == "codex_exec"@ {
        if arg_or(args, "prompt"@, ""@).len() == 0 {
            r matches ToolRequest::Rejected(m) && m@ == "Prompt is required"@
        } else {
            r matches ToolRequest::CodexExec { prompt } && prompt@ == arg_or(args, "prompt"@, ""@)
        }
    } else if name == "codex_update"@ {
        r is CodexUpdate
    } else if name == "codex_config"@ {
        r matches ToolRequest::CodexConfig { key, value } && key@ == arg_or(args, "key"@, ""@)
            && opt_view(value) == arg_opt(args, "value"@)
    } else if name == "system_get_sessions"@ {
        r is ListSessions
    } else if name == "system_kill_session"@ {
        if arg_or(args, "session_id"@, ""@).len() == 0 {
            r matches ToolRequest::Rejected(m) && m@ == "session_id is required"@
        } else {
            r matches ToolRequest::KillSession { session_id } && session_id@ == arg_or(
                args,
                "session_id"@,
                ""@,
            )
        }
    } else if name == "system_info"@ {
        r is SystemInfo
    } else {
        r matches ToolRequest::UnknownTool(m) && m@ == "Unknown tool: "@ + name
    }
}

/// Reads a call of tool `name` with arguments `args` into the action it asks
/// for; calls that lack a required prompt, session id or action are refused
/// with a message, and names that no tool has are reported unknown.
pub fn plan_tool_call(name: &str, args: &TextMap<ArgValue>) -> (r: ToolRequest)
    ensures
        planned(name@, args@, r),
{
    if text_eq(name, "system_get_agents") {
        ToolRequest::ListAgents
    } else if text_eq(name, "system_set_env") {
        ToolRequest::SetEnv {
            agent_id: get_string_arg(args, "agent_id", ""),
            key: get_string_arg(args, "key", ""),
            value: get_string_arg(args, "value", ""),
        }
    } else if text_eq(name, "system_upgrade_agent") {
        ToolRequest::UpgradeAgent {
            agent_id: get_string_arg(args, "agent_id", ""),
            version: get_string_arg(args, "version", "latest"),
        }
    } else if text_eq(name, "session_start") {
        ToolRequest::StartSession {
            agent_id: get_string_arg(args, "agent_id", "default"),
            command: get_string_arg(args, "command", "bash"),
            cwd: get_optional_string_arg(args, "cwd"),
        }
    } else if text_eq(name, "session_execute_turn") {
        ToolRequest::ExecuteTurn {
            session_id: get_string_arg(args, "session_id", ""),
            input: get_string_arg(args, "input", ""),
        }
    } else if text_eq(name, "session_resolve_action") {
        let session_id = get_string_arg(args, "session_id", "");
        let action = get_string_arg(args, "action", "");
        if session_id.as_str().is_empty() {
            ToolRequest::Rejected("session_id is required".to_owned())
        } else if action.as_str().is_empty() {
            ToolRequest::Rejected("action is required".to_owned())
        } else {
            ToolRequest::ResolveAction { session_id, action }
        }
    } else if text_eq(name, "session_get_history") {
        ToolRequest::GetHistory {
            session_id: get_string_arg(args, "session_id", ""),
            limit: get_count_arg(args, "limit"),
        }
    } else if text_eq(name, "codex_exec") {
        let prompt = get_string_arg(args, "prompt", "");
        if prompt.as_str().is_empty() {
            ToolRequest::Rejected("Prompt is required".to_owned())
        } else {
            ToolRequest::CodexExec { prompt }
        }
    } else if text_eq(name, "codex_update") {
        ToolRequest::CodexUpdate
    } else if text_eq(name, "codex_config") {
        ToolRequest::CodexConfig {
            key: get_string_arg(args, "key", ""),
            value: get_optional_string_arg(args, "value"),
        }
    } else if text_eq(name, "system_get_sessions") {
        ToolRequest::ListSessions
    } else if text_eq(name, "system_kill_session") {
        let session_id = get_string_arg(args, "session_id", "");
        if session_id.as_str().is_empty() {
            ToolRequest::Rejected("session_id is required".to_owned())
        } else {
            ToolRequest::KillSession { session_id }
        }
    } else if text_eq(name, "system_info") {
        ToolRequest::SystemInfo
    } else {
        let mut m = "Unknown tool: ".to_owned();
        m.append(name);
        ToolRequest::UnknownTool(m)
    }
}

/// Every tool of the published catalogue is handled: a call of it is never
/// reported as a call of an unknown tool.
pub proof fn law_catalogued_tools_are_handled(
    name: Seq<char>,
    args: Map<Seq<char>, ArgValue>,
    r: ToolRequest,
)
    requires
        catalogue_names().contains(name),
        planned(name, args, r),
    ensures
        !(r is UnknownTool),
{
    let names = catalogue_names();
    let i = choose|i: int| 0 <= i < names.len() && names[i] == name;
    assert(0 <= i < 13);
}

/// `env` holds the fields of an object argument: each field's string, or
/// the empty string for a field that is not a string.
pub open spec fn env_of_fields(env: Map<Seq<char>, String>, fields: Map<Seq<char>, Option<String>>) -> bool {
    &&& env.dom() == fields.dom()
    &&& forall|k: Seq<char>| #[trigger]
        fields.contains_key(k) ==> env[k]@ == match fields[k] {
            Some(v) => v@,
            None => Seq::<char>::empty(),
        }
}

/// The fields of an object argument as environment variables; a field that
/// is not a string becomes the empty string.
pub fn env_from_fields(fields: &TextMap<Option<String>>) -> (env: TextMap<String>)
    ensures
        env_of_fields(env@, fields@),
{
    let es = fields.entries();
    let mut env: TextMap<String> = TextMap::new();
    let mut i: usize = 0;
    while i < es.len()
        invariant
            i <= es.len(),
            key_seq(es@).no_duplicates(),
            forall|j: int| 0 <= j < es@.len() ==> #[trigger] fields@[es@[j].0@] == es@[j].1,
            forall|k: Seq<char>| #[trigger] fields@.contains_key(k) <==> key_seq(es@).contains(k),
            env@.dom() == key_seq(es@).take(i as int).to_set(),
            forall|k: Seq<char>| #[trigger]
                env@.contains_key(k) ==> env@[k]@ == match fields@[k] {
                    Some(v) => v@,
                    None => Seq::<char>::empty(),
                },
        decreases es.len() - i,
    {
        let k = es[i].0.clone();
        let v = match &es[i].1 {
            Some(v) => v.clone(),
            None => String::new(),
        };
        env.insert(k, v);
        proof {
            let ks = key_seq(es@);
            assert(ks[i as int] == es@[i as int].0@);
            assert(ks.take(i + 1) =~= ks.take(i as int).push(ks[i as int]));
            ks.take(i as int).lemma_push_to_set_commute(ks[i as int]);
        }
        i = i + 1;
    }
    proof {
        let ks = key_seq(es@);
        assert(ks.take(es@.len() as int) =~= ks);
        assert(env@.dom() =~= fields@.dom());
    }
    env
}

/// What a request to start a session asks for.
#[derive(Debug)]
pub struct SessionPlan {
    pub agent_id: String,
    pub command: String,
    pub cwd: Option<String>,
    pub env: TextMap<String>,
}

/// Reads a request to start a session: the agent (default `default`), the
/// command (default `bash`), the working directory if given, and the
/// variables of the `env` object (none when there is no object).
pub fn plan_session_request(payload: &TextMap<ArgValue>) -> (p: SessionPlan)
    ensures
        p.agent_id@ == arg_or(payload@, "agent_id"@, "default"@),
        p.command@ == arg_or(payload@, "command"@, "bash"@),
        opt_view(p.cwd) == arg_opt(payload@, "cwd"@),
        match (if payload@.contains_key("env"@) {
            Some(payload@["env"@])
        } else {
            None
        }) {
            Some(ArgValue::Fields(f)) => env_of_fields(p.env@, f@),
            _ => p.env@ == Map::<Seq<char>, String>::empty(),
        },
{
    let env = match payload.get("env") {
        Some(ArgValue::Fields(f)) => env_from_fields(f),
        _ => TextMap::new(),
    };
    SessionPlan {
        agent_id: get_string_arg(payload, "agent_id", "default"),
        command: get_string_arg(payload, "command", "bash"),
        cwd: get_optional_string_arg(payload, "cwd"),
        env,
    }
}

/// Reads a request to register an agent: its id (default `default`) and
/// name (default `Agent`); the agent starts stopped, at the initial version,
/// with an empty environment.
pub fn plan_new_agent(payload: &TextMap<ArgValue>) -> (a: Agent)
    ensures
        a.id@ == arg_or(payload@, "id"@, "default"@),
        a.name@ == arg_or(payload@, "name"@, "Agent"@),
        a.version@ == INITIAL_AGENT_VERSION@,
        a.env@ == Map::<Seq<char>, String>::empty(),
        a.status == AgentStatus::Stopped,
{
    let id = get_string_arg(payload, "id", "default");
    let name = get_string_arg(payload, "name", "Agent");
    Agent::new(id.as_str(), name.as_str())
}

/// Reads a request to upgrade an agent: the agent id (default empty) and
/// the version (default `latest`).
pub fn plan_upgrade_request(payload: &TextMap<ArgValue>) -> (r: (String, String))
    ensures
        r.0@ == arg_or(payload@, "agent_id"@, ""@),
        r.1@ == arg_or(payload@, "version"@, "latest"@),
{
    (get_string_arg(payload, "agent_id", ""), get_string_arg(payload, "version", "latest"))
}

/// Reads a request to set an agent's variable: the agent id, the key and
/// the value (each empty by default).
pub fn plan_env_request(payload: &TextMap<ArgValue>) -> (r: (String, String, String))
    ensures
        r.0@ == arg_or(payload@, "agent_id"@, ""@),
        r.1@ == arg_or(payload@, "key"@, ""@),
        r.2@ == arg_or(payload@, "value"@, ""@),
{
    (
        get_string_arg(payload, "agent_id", ""),
        get_string_arg(payload, "key", ""),
        get_string_arg(payload, "value", ""),
    )
}

/// The tool names differ from one another.
pub proof fn lemma_tool_names_differ()
    ensures
        "system_get_agents"@ != "system_upgrade_agent"@,
        "system_get_agents"@ != "system_set_env"@,
        "system_get_agents"@ != "system_get_sessions"@,
        "system_get_agents"@ != "system_kill_session"@,
        "system_get_agents"@ != "system_info"@,
        "system_get_agents"@ != "session_start"@,
        "system_get_agents"@ != "session_execute_turn"@,
        "system_get_agents"@ != "session_resolve_action"@,
        "system_get_agents"@ != "session_get_history"@,
        "system_get_agents"@ != "codex_exec"@,
        "system_get_agents"@ != "codex_update"@,
        "system_get_agents"@ != "codex_config"@,
        "system_upgrade_agent"@ != "system_set_env"@,
        "system_upgrade_agent"@ != "system_get_sessions"@,
        "system_upgrade_agent"@ != "system_kill_session"@,
        "system_upgrade_agent"@ != "system_info"@,
        "system_upgrade_agent"@ != "session_start"@,
        "system_upgrade_agent"@ != "session_execute_turn"@,
        "system_upgrade_agent"@ != "session_resolve_action"@,
        "system_upgrade_agent"@ != "session_get_history"@,
        "system_upgrade_agent"@ != "codex_exec"@,
        "system_upgrade_agent"@ != "codex_update"@,
        "system_upgrade_agent"@ != "codex_config"@,
        "system_set_env"@ != "system_get_sessions"@,
        "system_set_env"@ != "system_kill_session"@,
        "system_set_env"@ != "system_info"@,
        "system_set_env"@ != "session_start"@,
        "system_set_env"@ != "session_execute_turn"@,
        "system_set_env"@ != "session_resolve_action"@,
        "system_set_env"@ != "session_get_history"@,
        "system_set_env"@ != "codex_exec"@,
        "system_set_env"@ != "codex_update"@,
        "system_set_env"@ != "codex_config"@,
        "system_get_sessions"@ != "system_kill_session"@,
        "system_get_sessions"@ != "system_info"@,
        "system_get_sessions"@ != "session_start"@,
        "system_get_sessions"@ != "session_execute_turn"@,
        "system_get_sessions"@ != "session_resolve_action"@,
        "system_get_sessions"@ != "session_get_history"@,
        "system_get_sessions"@ != "codex_exec"@,
        "system_get_sessions"@ != "codex_update"@,
        "system_get_sessions"@ != "codex_config"@,
        "system_kill_session"@ != "system_info"@,
        "system_kill_session"@ != "session_start"@,
        "system_kill_session"@ != "session_execute_turn"@,
        "system_kill_session"@ != "session_resolve_action"@,
        "system_kill_session"@ != "session_get_history"@,
        "system_kill_session"@ != "codex_exec"@,
        "system_kill_session"@ != "codex_update"@,
        "system_kill_session"@ != "codex_config"@,
        "system_info"@ != "session_start"@,
        "system_info"@ != "session_execute_turn"@,
        "system_info"@ != "session_resolve_action"@,
        "system_info"@ != "session_get_history"@,
        "system_info"@ != "codex_exec"@,
        "system_info"@ != "codex_update"@,
        "system_info"@ != "codex_config"@,
        "session_start"@ != "session_execute_turn"@,
        "session_start"@ != "session_resolve_action"@,
        "session_start"@ != "session_get_history"@,
        "session_start"@ != "codex_exec"@,
        "session_start"@ != "codex_update"@,
        "session_start"@ != "codex_config"@,
        "session_execute_turn"@ != "session_resolve_action"@,
        "session_execute_turn"@ != "session_get_history"@,
        "session_execute_turn"@ != "codex_exec"@,
        "session_execute_turn"@ != "codex_update"@,
        "session_execute_turn"@ != "codex_config"@,
        "session_resolve_action"@ != "session_get_history"@,
        "session_resolve_action"@ != "codex_exec"@,
        "session_resolve_action"@ != "codex_update"@,
        "session_resolve_action"@ != "codex_config"@,
        "session_get_history"@ != "codex_exec"@,
        "session_get_history"@ != "codex_update"@,
        "session_get_history"@ != "codex_config"@,
        "codex_exec"@ != "codex_update"@,
        "codex_exec"@ != "codex_config"@,
        "codex_update"@ != "codex_config"@,
{
    law_catalogue_names_distinct();
    let n = catalogue_names();
    assert(n[0] == "system_get_agents"@);
    assert(n[1] == "system_upgrade_agent"@);
    assert(n[2] == "system_set_env"@);
    assert(n[3] == "system_get_sessions"@);
    assert(n[4] == "system_kill_session"@);
    assert(n[5] == "system_info"@);
    assert(n[6] == "session_start"@);
    assert(n[7] == "session_execute_turn"@);
    assert(n[8] == "session_resolve_action"@);
    assert(n[9] == "session_get_history"@);
    assert(n[10] == "codex_exec"@);
    assert(n[11] == "codex_update"@);
    assert(n[12] == "codex_config"@);
}

/// A `system_set_env` call sets the variable named by its `key` argument of the agent named by `agent_id` to its `value` argument; each is empty when not given as a string.
pub proof fn law_plan_system_set_env(args: Map<Seq<char>, ArgValue>, r: ToolRequest)
    requires
        planned("system_set_env"@, args, r),
    ensures
        r is SetEnv,
        r matches ToolRequest::SetEnv { agent_id, key, value } ==> {
            &&& args.contains_key("agent_id"@) ==> (args["agent_id"@] matches ArgValue::Text(s) ==> agent_id@ == s@)
            &&& !(args.contains_key("agent_id"@) && args["agent_id"@] is Text) ==> agent_id@ == ""@
            &&& args.contains_key("key"@) ==> (args["key"@] matches ArgValue::Text(s) ==> key@ == s@)
            &&& !(args.contains_key("key"@) && args["key"@] is Text) ==> key@ == ""@
            &&& args.contains_key("value"@) ==> (args["value"@] matches ArgValue::Text(s) ==> value@ == s@)
            &&& !(args.contains_key("value"@) && args["value"@] is Text) ==> value@ == ""@
        },
{
    lemma_tool_names_differ();
}

/// A `system_upgrade_agent` call upgrades the agent named by its `agent_id` argument to the version given as its `version` argument, and to `latest` only when no version string is given.
pub proof fn law_plan_system_upgrade_agent(args: Map<Seq<char>, ArgValue>, r: ToolRequest)
    requires
        planned("system_upgrade_agent"@, args, r),
    ensures
        r is UpgradeAgent,
        r matches ToolRequest::UpgradeAgent { agent_id, version } ==> {
            &&& args.contains_key("agent_id"@) ==> (args["agent_id"@] matches ArgValue::Text(s) ==> agent_id@ == s@)
            &&& !(args.contains_key("agent_id"@) && args["agent_id"@] is Text) ==> agent_id@ == ""@
            &&& args.contains_key("version"@) ==> (args["version"@] matches ArgValue::Text(s) ==> version@ == s@)
            &&& !(args.contains_key("version"@) && args["version"@] is Text) ==> version@ == "latest"@
        },
{
    lemma_tool_names_differ();
}

/// A `session_start` call starts the agent named by `agent_id` (or `default`) running the given `command` (or `bash`), in the given `cwd` if one is given.
pub proof fn law_plan_session_start(args: Map<Seq<char>, ArgValue>, r: ToolRequest)
    requires
        planned("session_start"@, args, r),
    ensures
        r is StartSession,
        r matches ToolRequest::StartSession { agent_id, command, cwd } ==> {
            &&& args.contains_key("agent_id"@) ==> (args["agent_id"@] matches ArgValue::Text(s) ==> agent_id@ == s@)
            &&& !(args.contains_key("agent_id"@) && args["agent_id"@] is Text) ==> agent_id@ == "default"@
            &&& args.contains_key("command"@) ==> (args["command"@] matches ArgValue::Text(s) ==> command@ == s@)
            &&& !(args.contains_key("command"@) && args["command"@] is Text) ==> command@ == "bash"@
            &&& args.contains_key("cwd"@) ==> (args["cwd"@] matches ArgValue::Text(s) ==> cwd matches Some(c) && c@ == s@)
            &&& !(args.contains_key("cwd"@) && args["cwd"@] is Text) ==> cwd is None
        },
{
    lemma_tool_names_differ();
}

/// A `session_execute_turn` call sends its `input` argument to the session named by `session_id`.
pub proof fn law_plan_session_execute_turn(args: Map<Seq<char>, ArgValue>, r: ToolRequest)
    requires
        planned("session_execute_turn"@, args, r),
    ensures
        r is ExecuteTurn,
        r matches ToolRequest::ExecuteTurn { session_id, input } ==> {
            &&& args.contains_key("session_id"@) ==> (args["session_id"@] matches ArgValue::Text(s) ==> session_id@ == s@)
            &&& !(args.contains_key("session_id"@) && args["session_id"@] is Text) ==> session_id@ == ""@
            &&& args.contains_key("input"@) ==> (args["input"@] matches ArgValue::Text(s) ==> input@ == s@)
            &&& !(args.contains_key("input"@) && args["input"@] is Text) ==> input@ == ""@
        },
{
    lemma_tool_names_differ();
}

/// A `session_get_history` call asks for the record of the session named by `session_id`, limited by its integer `limit` argument when one is given.
pub proof fn law_plan_session_get_history(args: Map<Seq<char>, ArgValue>, r: ToolRequest)
    requires
        planned("session_get_history"@, args, r),
    ensures
        r is GetHistory,
        r matches ToolRequest::GetHistory { session_id, limit } ==> {
            &&& args.contains_key("session_id"@) ==> (args["session_id"@] matches ArgValue::Text(s) ==> session_id@ == s@)
            &&& !(args.contains_key("session_id"@) && args["session_id"@] is Text) ==> session_id@ == ""@
            &&& args.contains_key("limit"@) ==> (args["limit"@] matches ArgValue::Count(n) ==> limit == Some(n))
            &&& !(args.contains_key("limit"@) && args["limit"@] is Count) ==> limit is None
        },
{
    lemma_tool_names_differ();
}

/// A `codex_config` call reads the key given as `key`, or sets it when a `value` string is given.
pub proof fn law_plan_codex_config(args: Map<Seq<char>, ArgValue>, r: ToolRequest)
    requires
        planned("codex_config"@, args, r),
    ensures
        r is CodexConfig,
        r matches ToolRequest::CodexConfig { key, value } ==> {
            &&& args.contains_key("key"@) ==> (args["key"@] matches ArgValue::Text(s) ==> key@ == s@)
            &&& !(args.contains_key("key"@) && args["key"@] is Text) ==> key@ == ""@
            &&& args.contains_key("value"@) ==> (args["value"@] matches ArgValue::Text(s) ==> value matches Some(c) && c@ == s@)
            &&& !(args.contains_key("value"@) && args["value"@] is Text) ==> value is None
        },
{
    lemma_tool_names_differ();
}

/// The string given under `key` in a request's arguments, if one is.
pub open spec fn given_text(args: Map<Seq<char>, ArgValue>, key: Seq<char>) -> Option<Seq<char>> {
    if args.contains_key(key) {
        match args[key] {
            ArgValue::Text(s) => Some(s@),
            _ => None,
        }
    } else {
        None
    }
}

/// A non-empty string is given under `key`.
pub open spec fn given_nonempty(args: Map<Seq<char>, ArgValue>, key: Seq<char>) -> bool {
    given_text(args, key) is Some && given_text(args, key)->0.len() > 0
}

/// A `codex_exec` call runs Codex on its `prompt` argument, and is refused
/// when no non-empty prompt string is given.
pub proof fn law_plan_codex_exec(args: Map<Seq<char>, ArgValue>, r: ToolRequest)
    requires
        planned("codex_exec"@, args, r),
    ensures
        given_nonempty(args, "prompt"@) ==> (r matches ToolRequest::CodexExec { prompt }
            && prompt@ == given_text(args, "prompt"@)->0),
        !given_nonempty(args, "prompt"@) ==> (r matches ToolRequest::Rejected(m) && m@
            == "Prompt is required"@),
{
    lemma_tool_names_differ();
    reveal_strlit("");
}

/// A `system_kill_session` call stops the session named by its `session_id`
/// argument, and is refused when no non-empty session id string is given.
pub proof fn law_plan_system_kill_session(args: Map<Seq<char>, ArgValue>, r: ToolRequest)
    requires
        planned("system_kill_session"@, args, r),
    ensures
        given_nonempty(args, "session_id"@) ==> (r matches ToolRequest::KillSession { session_id }
            && session_id@ == given_text(args, "session_id"@)->0),
        !given_nonempty(args, "session_id"@) ==> (r matches ToolRequest::Rejected(m) && m@
            == "session_id is required"@),
{
    lemma_tool_names_differ();
    reveal_strlit("");
}

/// A `session_resolve_action` call sends its `action` argument to the
/// session named by `session_id`, and is refused when either is not given as
/// a non-empty string.
pub proof fn law_plan_session_resolve_action(args: Map<Seq<char>, ArgValue>, r: ToolRequest)
    requires
        planned("session_resolve_action"@, args, r),
    ensures
        given_nonempty(args, "session_id"@) && given_nonempty(args, "action"@) ==> (
        r matches ToolRequest::ResolveAction { session_id, action } && session_id@ == given_text(
            args,
            "session_id"@,
        )->0 && action@ == given_text(args, "action"@)->0),
        !given_nonempty(args, "session_id"@) ==> (r matches ToolRequest::Rejected(m) && m@
            == "session_id is required"@),
        given_nonempty(args, "session_id"@) && !given_nonempty(args, "action"@) ==> (
        r matches ToolRequest::Rejected(m) && m@ == "action is required"@),
{
    lemma_tool_names_differ();
    reveal_strlit("");
}

/// The tools without arguments ask for their one action, whatever the arguments.
pub proof fn law_plan_tools_without_arguments(args: Map<Seq<char>, ArgValue>, r: ToolRequest)
    ensures
        planned("system_get_agents"@, args, r) ==> r is ListAgents,
        planned("system_get_sessions"@, args, r) ==> r is ListSessions,
        planned("system_info"@, args, r) ==> r is SystemInfo,
        planned("codex_update"@, args, r) ==> r is CodexUpdate,
{
    lemma_tool_names_differ();
}

/// A call of a name outside the catalogue is reported as a call of an unknown
/// tool, with the message `Unknown tool: <name>`.
pub proof fn law_plan_unknown_tool(name: Seq<char>, args: Map<Seq<char>, ArgValue>, r: ToolRequest)
    requires
        !catalogue_names().contains(name),
        planned(name, args, r),
    ensures
        r matches ToolRequest::UnknownTool(m) && m@ == "Unknown tool: "@ + name,
{
    let n = catalogue_names();
    assert(n[0] == "system_get_agents"@);
    assert(n[1] == "system_upgrade_agent"@);
    assert(n[2] == "system_set_env"@);
    assert(n[3] == "system_get_sessions"@);
    assert(n[4] == "system_kill_session"@);
    assert(n[5] == "system_info"@);
    assert(n[6] == "session_start"@);
    assert(n[7] == "session_execute_turn"@);
    assert(n[8] == "session_resolve_action"@);
    assert(n[9] == "session_get_history"@);
    assert(n[10] == "codex_exec"@);
    assert(n[11] == "codex_update"@);
    assert(n[12] == "codex_config"@);
}

} // verus!
