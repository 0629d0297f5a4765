use agent_node::validate::{new_session_id, validate_agent_id, validate_prompt, validate_session_id};

#[test]
fn agent_ids() {
    assert_eq!(validate_agent_id(""), Err("agent_id cannot be empty".to_string()));
    assert_eq!(validate_agent_id(&"a".repeat(101)), Err("agent_id too long (max 100 chars)".to_string()));
    assert_eq!(validate_agent_id(&"a".repeat(100)), Ok(()));
    // 51 two-byte characters are 102 bytes
    assert!(validate_agent_id(&"\u{00e9}".repeat(51)).is_err());
}

#[test]
fn session_ids() {
    assert_eq!(validate_session_id(""), Err("session_id cannot be empty".to_string()));
    assert_eq!(validate_session_id("short-id"), Err("invalid session_id format".to_string()));
    assert_eq!(validate_session_id(&"a".repeat(36)), Err("invalid session_id format".to_string()));
    assert_eq!(validate_session_id("67e55044-10b1-426f-9247-bb680e5fe0c8"), Ok(()));
}

#[test]
fn prompts() {
    assert_eq!(validate_prompt(""), Err("prompt cannot be empty".to_string()));
    assert_eq!(validate_prompt(&"p".repeat(100001)), Err("prompt too long (max 100KB)".to_string()));
    assert_eq!(validate_prompt("do it"), Ok(()));
}

#[test]
fn fresh_session_ids_are_accepted_and_differ() {
    let a = new_session_id();
    let b = new_session_id();
    assert_eq!(validate_session_id(&a), Ok(()));
    assert_eq!(a.len(), 36);
    assert_eq!(&a[14..15], "4");
    assert_ne!(a, b);
}
