use agent_node::map::TextMap;
use agent_node::spawn::spawn_environment;

#[test]
fn path_is_inherited_and_can_be_overridden() {
    let mut env: TextMap<String> = TextMap::new();
    env.insert("TEST".to_string(), "value".to_string());
    let vars = spawn_environment(Some("/usr/bin".to_string()), &env);
    assert_eq!(vars.get("PATH").unwrap(), "/usr/bin");
    assert_eq!(vars.get("TEST").unwrap(), "value");
    assert_eq!(vars.len(), 2);

    env.insert("PATH".to_string(), "/opt".to_string());
    let vars = spawn_environment(Some("/usr/bin".to_string()), &env);
    assert_eq!(vars.get("PATH").unwrap(), "/opt");

    let vars = spawn_environment(None, &TextMap::new());
    assert!(vars.is_empty());
}
