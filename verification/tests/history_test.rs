use agent_node::history::{HistoryStore, SessionHistory, Turn};

#[test]
fn test_turn_creation() {
    let turn = Turn::new("session-1", 1, "Hello", "Hi there!");
    assert_eq!(turn.session_id, "session-1");
    assert_eq!(turn.turn_id, 1);
    assert_eq!(turn.input, "Hello");
    assert_eq!(turn.output, "Hi there!");
    assert!(turn.timestamp > 0);
}

#[test]
fn test_session_history_creation() {
    let session = SessionHistory::new("session-1", "agent-1", "/tmp");
    assert_eq!(session.session_id, "session-1");
    assert_eq!(session.agent_id, "agent-1");
    assert_eq!(session.cwd, "/tmp");
    assert!(session.ended_at.is_none());
    assert!(session.turns.is_empty());
}

#[test]
fn test_add_turn() {
    let mut session = SessionHistory::new("session-1", "agent-1", "/tmp");
    session.add_turn("Hello", "Hi!");

    assert_eq!(session.turns.len(), 1);
    assert_eq!(session.turns[0].input, "Hello");
    assert_eq!(session.turns[0].output, "Hi!");
}

#[test]
fn test_multiple_turns() {
    let mut session = SessionHistory::new("session-1", "agent-1", "/tmp");
    session.add_turn("Hello", "Hi!");
    session.add_turn("How are you?", "Good, thanks!");

    assert_eq!(session.turns.len(), 2);
    assert_eq!(session.turns[0].turn_id, 1);
    assert_eq!(session.turns[1].turn_id, 2);
}

#[test]
fn test_session_end() {
    let mut session = SessionHistory::new("session-1", "agent-1", "/tmp");
    assert!(session.ended_at.is_none());

    session.end();

    assert!(session.ended_at.is_some());
}

#[test]
fn test_history_store() {
    let mut store = HistoryStore::new();

    let mut session1 = SessionHistory::new("session-1", "agent-1", "/tmp");
    session1.add_turn("Hello", "Hi!");

    let session2 = SessionHistory::new("session-2", "agent-1", "/tmp");

    store.add_session(session1);
    store.add_session(session2);

    assert_eq!(store.sessions.len(), 2);
}

#[test]
fn test_get_session() {
    let mut store = HistoryStore::new();
    let session = SessionHistory::new("session-1", "agent-1", "/tmp");
    store.add_session(session);

    let found = store.get_session("session-1");
    assert!(found.is_some());
    assert_eq!(found.unwrap().session_id, "session-1");

    let not_found = store.get_session("nonexistent");
    assert!(not_found.is_none());
}

#[test]
fn test_list_sessions() {
    let mut store = HistoryStore::new();

    for i in 1..=5 {
        let session = SessionHistory::new(&format!("session-{}", i), "agent-1", "/tmp");
        store.add_session(session);
    }

    let list = store.list_sessions(3);
    assert_eq!(list.len(), 3);
    // newest first
    assert_eq!(list[0].session_id, "session-5");
}

#[test]
fn turn_with_timestamp_keeps_every_field() {
    let turn = Turn::with_timestamp("s", 7, "in", "out", 1234);
    assert_eq!(turn.session_id, "s");
    assert_eq!(turn.turn_id, 7);
    assert_eq!(turn.input, "in");
    assert_eq!(turn.output, "out");
    assert_eq!(turn.timestamp, 1234);
}

#[test]
fn turns_carry_the_session_id_and_count_from_one() {
    let mut session = SessionHistory::with_start("abc", "agent", "/", 10);
    session.add_turn_at("a", "b", 11);
    session.add_turn_at("c", "d", 12);
    session.add_turn_at("e", "f", 13);
    for (i, t) in session.turns.iter().enumerate() {
        assert_eq!(t.turn_id as usize, i + 1);
        assert_eq!(t.session_id, "abc");
    }
    assert_eq!(session.turns[2].timestamp, 13);
    assert_eq!(session.created_at, 10);
}

#[test]
fn end_at_sets_only_the_end_time() {
    let mut session = SessionHistory::with_start("s", "a", "/w", 5);
    session.add_turn_at("x", "y", 6);
    session.end_at(99);
    assert_eq!(session.ended_at, Some(99));
    assert_eq!(session.turns.len(), 1);
    assert_eq!(session.created_at, 5);
}

#[test]
fn lookup_finds_the_first_record_of_an_id() {
    let mut store = HistoryStore::new();
    store.add_session(SessionHistory::with_start("dup", "first", "/", 1));
    store.add_session(SessionHistory::with_start("other", "x", "/", 2));
    store.add_session(SessionHistory::with_start("dup", "second", "/", 3));
    assert_eq!(store.get_session("dup").unwrap().agent_id, "first");
    assert_eq!(store.get_session("other").unwrap().agent_id, "x");
}

#[test]
fn lookup_after_add_finds_the_added_record_for_a_new_id() {
    let mut store = HistoryStore::new();
    store.add_session(SessionHistory::with_start("one", "a", "/", 1));
    store.add_session(SessionHistory::with_start("two", "b", "/", 2));
    assert_eq!(store.get_session("two").unwrap().agent_id, "b");
    assert_eq!(store.get_session("one").unwrap().agent_id, "a");
}

#[test]
fn get_session_mut_changes_the_first_record() {
    let mut store = HistoryStore::new();
    store.add_session(SessionHistory::with_start("s", "a", "/", 1));
    store.add_session(SessionHistory::with_start("s", "b", "/", 2));
    store.get_session_mut("s").unwrap().add_turn_at("i", "o", 3);
    assert_eq!(store.sessions[0].turns.len(), 1);
    assert_eq!(store.sessions[1].turns.len(), 0);
    assert!(store.get_session_mut("none").is_none());
}

#[test]
fn list_sessions_with_a_large_limit_lists_all_newest_first() {
    let mut store = HistoryStore::new();
    for i in 1..=3 {
        store.add_session(SessionHistory::with_start(&format!("s{}", i), "a", "/", i));
    }
    let list = store.list_sessions(10);
    let ids: Vec<&str> = list.iter().map(|h| h.session_id.as_str()).collect();
    assert_eq!(ids, vec!["s3", "s2", "s1"]);
    assert!(store.list_sessions(0).is_empty());
}

#[test]
fn clone_keeps_the_record() {
    let mut session = SessionHistory::with_start("s", "a", "/w", 5);
    session.add_turn_at("x", "y", 6);
    let copy = session.clone();
    assert_eq!(copy.session_id, "s");
    assert_eq!(copy.turns.len(), 1);
    assert_eq!(copy.turns[0].output, "y");
    let empty = SessionHistory::default();
    assert_eq!(empty.session_id, "");
    assert!(empty.turns.is_empty());
}

#[test]
fn latest_turns_are_kept_up_to_the_limit() {
    let mut session = SessionHistory::with_start("s", "a", "/w", 1);
    for i in 0..5 {
        session.add_turn_at(&format!("in{}", i), "out", i);
    }
    let two = session.with_latest_turns(2);
    let ids: Vec<u32> = two.turns.iter().map(|t| t.turn_id).collect();
    assert_eq!(ids, vec![4, 5]);
    assert_eq!(two.session_id, "s");
    assert_eq!(session.with_latest_turns(10).turns.len(), 5);
    assert!(session.with_latest_turns(0).turns.is_empty());
}
