use agent_node::get_all_tools;
use agent_node::tools::{McpTool, SchemaKind};
use std::collections::HashSet;

#[test]
fn catalogue_lists_thirteen_distinct_tools_in_order() {
    let tools = get_all_tools();
    let names: Vec<&str> = tools.iter().map(|t| t.name.as_str()).collect();
    assert_eq!(
        names,
        vec![
            "system_get_agents",
            "system_upgrade_agent",
            "system_set_env",
            "system_get_sessions",
            "system_kill_session",
            "system_info",
            "session_start",
            "session_execute_turn",
            "session_resolve_action",
            "session_get_history",
            "codex_exec",
            "codex_update",
            "codex_config",
        ]
    );
    let distinct: HashSet<&str> = names.iter().copied().collect();
    assert_eq!(distinct.len(), 13);
}

#[test]
fn required_arguments_are_declared() {
    for t in get_all_tools() {
        for r in &t.input_schema.required {
            assert!(t.input_schema.properties.iter().any(|p| &p.name == r), "{} {}", t.name, r);
        }
    }
}

#[test]
fn set_env_schema() {
    let t = McpTool::system_set_env();
    assert_eq!(t.description, "Set environment variable for agent");
    let props: Vec<(&str, SchemaKind, &str)> = t
        .input_schema
        .properties
        .iter()
        .map(|p| (p.name.as_str(), p.kind, p.description.as_str()))
        .collect();
    assert_eq!(
        props,
        vec![
            ("agent_id", SchemaKind::Text, "Agent ID"),
            ("key", SchemaKind::Text, "Environment variable key"),
            ("value", SchemaKind::Text, "Environment variable value"),
        ]
    );
    assert_eq!(t.input_schema.required, vec!["agent_id", "key", "value"]);
    let h = McpTool::session_get_history();
    assert_eq!(h.input_schema.properties[1].kind, SchemaKind::Number);
    assert!(h.input_schema.required.is_empty());
}
