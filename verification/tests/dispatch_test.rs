use agent_node::dispatch::{
    env_from_fields, get_count_arg, get_optional_string_arg, get_string_arg,
    invalid_params_message, plan_env_request, plan_new_agent, plan_session_request, plan_tool_call,
    plan_upgrade_request, route_mcp_method, tool_call_text, ArgValue, McpMethod, ToolRequest,
};
use agent_node::get_all_tools;
use agent_node::map::TextMap;

fn args(pairs: &[(&str, &str)]) -> TextMap<ArgValue> {
    let mut m = TextMap::new();
    for (k, v) in pairs {
        m.insert(k.to_string(), ArgValue::Text(v.to_string()));
    }
    m
}

#[test]
fn string_args_and_defaults() {
    let a = args(&[("agent_id", "x")]);
    assert_eq!(get_string_arg(&a, "agent_id", "d"), "x");
    assert_eq!(get_string_arg(&a, "other", "d"), "d");
    assert_eq!(get_optional_string_arg(&a, "agent_id"), Some("x".to_string()));
    assert_eq!(get_optional_string_arg(&a, "other"), None);
}

#[test]
fn mcp_methods_are_routed() {
    assert_eq!(route_mcp_method("initialize"), McpMethod::Initialize);
    assert_eq!(route_mcp_method("tools/list"), McpMethod::ListTools);
    assert_eq!(route_mcp_method("tools/call"), McpMethod::CallTool);
    assert_eq!(route_mcp_method("tools/other"), McpMethod::NotFound);
}

#[test]
fn tool_results_become_text() {
    assert_eq!(tool_call_text(Ok("fine".to_string())), "fine");
    assert_eq!(tool_call_text(Err("bad".to_string())), "Error: bad");
    assert_eq!(invalid_params_message("missing field"), "Invalid params: missing field");
}

#[test]
fn tool_calls_are_planned_with_defaults() {
    match plan_tool_call("system_upgrade_agent", &args(&[("agent_id", "a")])) {
        ToolRequest::UpgradeAgent { agent_id, version } => {
            assert_eq!(agent_id, "a");
            assert_eq!(version, "latest");
        }
        other => panic!("unexpected {:?}", other),
    }
    match plan_tool_call("session_start", &args(&[])) {
        ToolRequest::StartSession { agent_id, command, cwd } => {
            assert_eq!(agent_id, "default");
            assert_eq!(command, "bash");
            assert_eq!(cwd, None);
        }
        other => panic!("unexpected {:?}", other),
    }
    match plan_tool_call("system_set_env", &args(&[("key", "K"), ("value", "V")])) {
        ToolRequest::SetEnv { agent_id, key, value } => {
            assert_eq!(agent_id, "");
            assert_eq!(key, "K");
            assert_eq!(value, "V");
        }
        other => panic!("unexpected {:?}", other),
    }
    match plan_tool_call("codex_config", &args(&[("key", "model")])) {
        ToolRequest::CodexConfig { key, value } => {
            assert_eq!(key, "model");
            assert_eq!(value, None);
        }
        other => panic!("unexpected {:?}", other),
    }
    match plan_tool_call("session_execute_turn", &args(&[("session_id", "s"), ("input", "hi")])) {
        ToolRequest::ExecuteTurn { session_id, input } => {
            assert_eq!(session_id, "s");
            assert_eq!(input, "hi");
        }
        other => panic!("unexpected {:?}", other),
    }
    assert!(matches!(plan_tool_call("system_get_agents", &args(&[])), ToolRequest::ListAgents));
    assert!(matches!(plan_tool_call("system_get_sessions", &args(&[])), ToolRequest::ListSessions));
    assert!(matches!(plan_tool_call("system_info", &args(&[])), ToolRequest::SystemInfo));
    assert!(matches!(plan_tool_call("codex_update", &args(&[])), ToolRequest::CodexUpdate));
    assert!(matches!(
        plan_tool_call("session_get_history", &args(&[("session_id", "q")])),
        ToolRequest::GetHistory { session_id, limit: None } if session_id == "q"
    ));
    let mut with_limit = args(&[("session_id", "q")]);
    with_limit.insert("limit".to_string(), ArgValue::Count(2));
    assert!(matches!(
        plan_tool_call("session_get_history", &with_limit),
        ToolRequest::GetHistory { session_id, limit: Some(2) } if session_id == "q"
    ));
    assert!(matches!(
        plan_tool_call("session_resolve_action", &args(&[("session_id", "s"), ("action", "approve")])),
        ToolRequest::ResolveAction { session_id, action } if session_id == "s" && action == "approve"
    ));
    assert!(matches!(
        plan_tool_call("codex_exec", &args(&[("prompt", "go")])),
        ToolRequest::CodexExec { prompt } if prompt == "go"
    ));
    assert!(matches!(
        plan_tool_call("system_kill_session", &args(&[("session_id", "k")])),
        ToolRequest::KillSession { session_id } if session_id == "k"
    ));
}

#[test]
fn tool_calls_are_refused() {
    match plan_tool_call("codex_exec", &args(&[])) {
        ToolRequest::Rejected(m) => assert_eq!(m, "Prompt is required"),
        other => panic!("unexpected {:?}", other),
    }
    match plan_tool_call("system_kill_session", &args(&[("session_id", "")])) {
        ToolRequest::Rejected(m) => assert_eq!(m, "session_id is required"),
        other => panic!("unexpected {:?}", other),
    }
    match plan_tool_call("no_such_tool", &args(&[])) {
        ToolRequest::UnknownTool(m) => assert_eq!(m, "Unknown tool: no_such_tool"),
        other => panic!("unexpected {:?}", other),
    }
    match plan_tool_call("session_resolve_action", &args(&[("session_id", "s")])) {
        ToolRequest::Rejected(m) => assert_eq!(m, "action is required"),
        other => panic!("unexpected {:?}", other),
    }
    match plan_tool_call("session_resolve_action", &args(&[("action", "go")])) {
        ToolRequest::Rejected(m) => assert_eq!(m, "session_id is required"),
        other => panic!("unexpected {:?}", other),
    }
}

#[test]
fn every_catalogued_tool_is_handled() {
    for tool in get_all_tools() {
        let request = plan_tool_call(&tool.name, &args(&[]));
        assert!(!matches!(request, ToolRequest::UnknownTool(_)), "{}", tool.name);
    }
}

#[test]
fn non_string_arguments_use_defaults() {
    let mut a: TextMap<ArgValue> = TextMap::new();
    a.insert("agent_id".to_string(), ArgValue::Count(5));
    a.insert("limit".to_string(), ArgValue::Text("3".to_string()));
    assert_eq!(get_string_arg(&a, "agent_id", "d"), "d");
    assert_eq!(get_count_arg(&a, "limit"), None);
    a.insert("limit".to_string(), ArgValue::Count(3));
    assert_eq!(get_count_arg(&a, "limit"), Some(3));
}

#[test]
fn rest_requests_are_planned_with_defaults() {
    let agent = plan_new_agent(&args(&[]));
    assert_eq!(agent.id, "default");
    assert_eq!(agent.name, "Agent");
    let agent = plan_new_agent(&args(&[("id", "a1"), ("name", "N")]));
    assert_eq!(agent.id, "a1");
    assert_eq!(agent.name, "N");
    assert_eq!(plan_upgrade_request(&args(&[])), ("".to_string(), "latest".to_string()));
    assert_eq!(
        plan_env_request(&args(&[("agent_id", "a"), ("key", "K")])),
        ("a".to_string(), "K".to_string(), "".to_string())
    );

    let mut fields: TextMap<Option<String>> = TextMap::new();
    fields.insert("TEST".to_string(), Some("value".to_string()));
    fields.insert("NUM".to_string(), None);
    let env = env_from_fields(&fields);
    assert_eq!(env.get("TEST").unwrap(), "value");
    assert_eq!(env.get("NUM").unwrap(), "");

    let mut payload = args(&[("cwd", "/tmp")]);
    payload.insert("env".to_string(), ArgValue::Fields(fields));
    let plan = plan_session_request(&payload);
    assert_eq!(plan.agent_id, "default");
    assert_eq!(plan.command, "bash");
    assert_eq!(plan.cwd.as_deref(), Some("/tmp"));
    assert_eq!(plan.env.len(), 2);
    let plan = plan_session_request(&args(&[("env", "not an object")]));
    assert!(plan.env.is_empty());
    assert_eq!(plan.cwd, None);
}
