use agent_node::map::TextMap;
use agent_node::{Agent, AppState, Session, SessionHistory};

#[test]
fn agents_are_registered_by_id() {
    let mut st = AppState::new();
    st.add_agent(Agent::new("a1", "First"));
    st.add_agent(Agent::new("a2", "Second"));
    st.add_agent(Agent::new("a1", "Replaced"));
    assert_eq!(st.get_agent("a1").unwrap().name, "Replaced");
    assert!(st.get_agent("zz").is_none());
    let mut names: Vec<&str> = st.list_agents().iter().map(|a| a.name.as_str()).collect();
    names.sort();
    assert_eq!(names, vec!["Replaced", "Second"]);
}

#[test]
fn update_env_and_upgrade() {
    let mut st = AppState::default();
    st.add_agent(Agent::new("a1", "First"));
    assert_eq!(st.update_agent_env("a1", "K", "V"), Some(()));
    assert_eq!(st.update_agent_env("missing", "K", "V"), None);
    assert_eq!(st.get_agent("a1").unwrap().env.get("K").unwrap(), "V");
    assert_eq!(st.upgrade_agent("a1", "2.0"), Some(()));
    assert_eq!(st.upgrade_agent("missing", "2.0"), None);
    let agent = st.get_agent("a1").unwrap();
    assert_eq!(agent.version, "2.0");
    assert_eq!(agent.name, "First");
    assert_eq!(agent.env.get("K").unwrap(), "V");
}

#[test]
fn sessions_add_get_remove() {
    let mut st = AppState::new();
    st.add_session(Session::with_time("s1", "a", "/w", 3, 100));
    assert_eq!(st.get_session("s1").unwrap().pid, 3);
    assert_eq!(st.list_sessions().len(), 1);
    let removed = st.remove_session("s1").unwrap();
    assert_eq!(removed.created_at, 100);
    assert!(st.get_session("s1").is_none());
    assert!(st.remove_session("s1").is_none());
}

#[test]
fn started_session_is_registered_with_a_record() {
    let mut st = AppState::new();
    st.register_started_session("sid", "agent", None);
    let s = st.get_session("sid").unwrap();
    assert_eq!(s.cwd, "/");
    assert_eq!(s.pid, 0);
    assert_eq!(s.agent_id, "agent");
    let h = st.get_session_history("sid").unwrap();
    assert_eq!(h.cwd, "/");
    assert!(h.turns.is_empty());
    st.register_started_session("sid2", "agent", Some("/tmp"));
    assert_eq!(st.get_session("sid2").unwrap().cwd, "/tmp");
    assert_eq!(st.list_histories(50).len(), 2);
    assert_eq!(st.list_histories(50)[0].session_id, "sid2");
}

#[test]
fn recording_a_turn_adds_a_copy_after_the_first_record() {
    let mut st = AppState::new();
    st.add_session_history(SessionHistory::with_start("s", "a", "/", 1));
    st.record_turn("s", "in", "out");
    st.record_turn("s", "in2", "out2");
    assert_eq!(st.history.sessions.len(), 3);
    // lookups still find the first record, which has no turns
    assert!(st.get_session_history("s").unwrap().turns.is_empty());
    assert_eq!(st.history.sessions[1].turns.len(), 1);
    assert_eq!(st.history.sessions[2].turns.len(), 1);
    assert_eq!(st.history.sessions[2].turns[0].input, "in2");
    st.record_turn("unknown", "x", "y");
    assert_eq!(st.history.sessions.len(), 3);
}

#[test]
fn spawn_env_puts_agent_variables_over_the_base() {
    let mut st = AppState::new();
    let mut agent = Agent::new("a", "A");
    agent.env.insert("SHARED".to_string(), "agent".to_string());
    agent.env.insert("AGENT_ONLY".to_string(), "1".to_string());
    st.add_agent(agent);
    let mut base: TextMap<String> = TextMap::new();
    base.insert("SHARED".to_string(), "base".to_string());
    base.insert("BASE_ONLY".to_string(), "2".to_string());
    let env = st.spawn_env("a", base);
    assert_eq!(env.get("SHARED").unwrap(), "agent");
    assert_eq!(env.get("AGENT_ONLY").unwrap(), "1");
    assert_eq!(env.get("BASE_ONLY").unwrap(), "2");
    let mut base2: TextMap<String> = TextMap::new();
    base2.insert("X".to_string(), "y".to_string());
    let env2 = st.spawn_env("nobody", base2);
    assert_eq!(env2.len(), 1);
}

#[test]
fn history_reply_respects_the_limit() {
    let mut st = AppState::new();
    let mut h = SessionHistory::with_start("s", "a", "/", 1);
    h.add_turn_at("1", "x", 2);
    h.add_turn_at("2", "y", 3);
    h.add_turn_at("3", "z", 4);
    st.add_session_history(h);
    let limited = st.get_session_history_limited("s", Some(1)).unwrap();
    assert_eq!(limited.turns.len(), 1);
    assert_eq!(limited.turns[0].input, "3");
    assert_eq!(st.get_session_history_limited("s", None).unwrap().turns.len(), 3);
    assert!(st.get_session_history_limited("nobody", Some(1)).is_none());
}
