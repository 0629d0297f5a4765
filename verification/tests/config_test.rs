use agent_node::config::{config_reply, get_config_value, set_config_value, ConfigReply};
use agent_node::lines::{join_with_newlines, split_lines};

#[test]
fn split_lines_follows_str_lines() {
    for text in ["", "a", "a\n", "a\nb", "a\r\nb\r\n", "\n", "\n\n", "x\r", "a\r\r\nb", "one\ntwo\n\nthree"] {
        let expected: Vec<String> = text.lines().map(|l| l.to_string()).collect();
        assert_eq!(split_lines(text), expected, "text {:?}", text);
    }
}

#[test]
fn join_with_newlines_puts_newlines_between() {
    let lines = vec!["a".to_string(), "".to_string(), "c".to_string()];
    assert_eq!(join_with_newlines(&lines), "a\n\nc");
    assert_eq!(join_with_newlines(&Vec::new()), "");
}

#[test]
fn set_replaces_the_first_setting_line() {
    let content = "model = \"old\"\npersonality = \"calm\"\nmodel = \"other\"\n";
    let out = set_config_value(content, "model", "new");
    assert_eq!(out, "model = \"new\"\npersonality = \"calm\"\nmodel = \"other\"");
}

#[test]
fn set_appends_a_missing_setting() {
    let out = set_config_value("a = \"1\"\r\n", "b", "2");
    assert_eq!(out, "a = \"1\"\nb = \"2\"");
    assert_eq!(set_config_value("", "k", "v"), "k = \"v\"");
}

#[test]
fn get_reads_the_second_field_without_quotes() {
    let content = "# comment\nmodel = \"gpt-5\"\nlevel = 3\n";
    assert_eq!(get_config_value(content, "model"), Some("gpt-5".to_string()));
    assert_eq!(get_config_value(content, "level"), Some("3".to_string()));
    assert_eq!(get_config_value(content, "missing"), None);
    assert_eq!(get_config_value("x = a = b", "x"), Some("a ".to_string()));
    assert_eq!(get_config_value("x = \"\"\"", "x"), Some("".to_string()));
}

#[test]
fn value_read_back_after_set() {
    let content = "model = \"a\"\r\nother = 1\n";
    let updated = set_config_value(content, "model", "b");
    assert_eq!(get_config_value(&updated, "model"), Some("b".to_string()));
    let updated = set_config_value(content, "fresh", "value");
    assert_eq!(get_config_value(&updated, "fresh"), Some("value".to_string()));
}

#[test]
fn config_reply_cases() {
    let content = "model = \"m\"\n";
    assert!(matches!(config_reply(content, "", Some("x")), ConfigReply::WholeText));
    match config_reply(content, "model", Some("n")) {
        ConfigReply::Updated(t) => assert_eq!(t, "model = \"n\""),
        _ => panic!("expected an update"),
    }
    match config_reply(content, "model", None) {
        ConfigReply::Found(v) => assert_eq!(v, "m"),
        _ => panic!("expected a value"),
    }
    match config_reply(content, "nope", None) {
        ConfigReply::Missing(m) => assert_eq!(m, "Key 'nope' not found in config"),
        _ => panic!("expected a missing key"),
    }
}

fn reference_get(content: &str, key: &str) -> Option<String> {
    for line in content.lines() {
        if line.starts_with(&format!("{} = ", key)) {
            let val = line.split("= ").nth(1).unwrap_or("").trim_matches('"');
            return Some(val.to_string());
        }
    }
    None
}

fn reference_set(content: &str, key: &str, value: &str) -> String {
    let mut lines: Vec<String> = content.lines().map(|s| s.to_string()).collect();
    if let Some(n) = lines.iter().position(|l| l.starts_with(&format!("{} = ", key))) {
        lines[n] = format!("{} = \"{}\"", key, value);
    } else {
        lines.push(format!("{} = \"{}\"", key, value));
    }
    lines.join("\n")
}

#[test]
fn agrees_with_direct_std_computation() {
    let contents = [
        "",
        "model = \"o3\"\n",
        "a = 1\r\nb = \"two\"\r\n\r\nc = x = y\n",
        "key = \"\"\"\nkey = second\n",
        "  model = \"indented\"\nmodel = real",
        "x=1\nx = \"q\"\r\r\n",
        "\u{00e9} = \"\u{00fc}\"\n",
    ];
    let keys = ["model", "a", "b", "c", "key", "x", "\u{00e9}", "missing", ""];
    for content in contents {
        for key in keys {
            assert_eq!(get_config_value(content, key), reference_get(content, key), "{:?} {:?}", content, key);
            for value in ["v", "", "with space", "q\"uote"] {
                assert_eq!(
                    set_config_value(content, key, value),
                    reference_set(content, key, value),
                    "{:?} {:?} {:?}",
                    content,
                    key,
                    value
                );
            }
        }
    }
}

#[test]
fn splitting_joined_lines_gives_them_back() {
    let lines: Vec<String> = vec!["a".into(), "b\r".into(), "".into(), "c".into()];
    let text = join_with_newlines(&lines);
    assert_eq!(split_lines(&text), vec!["a", "b", "", "c"]);
    let lines: Vec<String> = vec!["x".into(), "".into()];
    assert_eq!(split_lines(&join_with_newlines(&lines)), vec!["x"]);
}
