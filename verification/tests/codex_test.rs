use agent_node::codex::{codex_update_report, trim_white_space};

#[test]
fn trim_matches_str_trim() {
    for s in ["", "  ", " a b ", "\tx\n", "\u{3000}y\u{a0}", "\u{85}z\u{2028}", "plain"] {
        assert_eq!(trim_white_space(s), s.trim(), "{:?}", s);
    }
}

#[test]
fn update_report() {
    let r = codex_update_report(" 1.0.0\n", "done\n", "", true, Some("1.1.0\n"));
    assert_eq!(r.before, "1.0.0");
    assert_eq!(r.after, "1.1.0");
    assert_eq!(r.output, "done");
    assert_eq!(r.error, "");
    assert!(r.success);
    let r = codex_update_report("1.0.0", "", "failed ", false, None);
    assert_eq!(r.after, "unknown");
    assert_eq!(r.error, "failed");
    assert!(!r.success);
}
