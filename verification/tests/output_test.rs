use agent_node::output::{LineStep, OutputCollector, MAX_BUFFER_SIZE};

#[test]
fn lines_are_collected_with_newlines() {
    let mut c = OutputCollector::new();
    assert_eq!(c.push_line("hello"), LineStep::Continue);
    assert_eq!(c.push_line("world"), LineStep::Continue);
    assert_eq!(c.output(), "hello\nworld\n");
}

#[test]
fn turn_end_marker_stops_reading() {
    let mut c = OutputCollector::new();
    assert_eq!(c.push_line("working"), LineStep::Continue);
    assert_eq!(c.push_line("done TURN_END"), LineStep::Stop);
    assert_eq!(c.into_output(), "working\ndone TURN_END\n");

    let mut c = OutputCollector::new();
    assert_eq!(c.push_line("\u{56de}\u{5408}\u{7ed3}\u{675f}"), LineStep::Stop);
}

#[test]
fn output_is_cut_off_past_the_cap() {
    let mut c = OutputCollector::new();
    let big = "x".repeat(MAX_BUFFER_SIZE - 1);
    assert_eq!(c.push_line(&big), LineStep::Continue);
    assert_eq!(c.push_line("y"), LineStep::Continue);
    assert_eq!(c.push_line("z"), LineStep::Stop);
    let out = c.into_output();
    assert!(out.ends_with("y\n\n[Output truncated: exceeded 2MB limit]"));
    assert_eq!(out.len(), MAX_BUFFER_SIZE - 1 + 1 + 2 + "\n[Output truncated: exceeded 2MB limit]".len());
}

#[test]
fn cap_counts_bytes_not_characters() {
    let mut c = OutputCollector::new();
    let wide = "\u{00e9}".repeat(MAX_BUFFER_SIZE / 2);
    assert_eq!(c.push_line(&wide), LineStep::Continue);
    assert_eq!(c.push_line("a"), LineStep::Stop);
}
