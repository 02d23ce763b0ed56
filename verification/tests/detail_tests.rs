use mcp_trace::detail::{
    clean_json_message, format_entry, format_message_content, layout_entry, layout_message,
};
use mcp_trace::text::char_is_control;
use mcp_trace::{App, LogEntry, LogLevel, ProxyId};

#[test]
fn json_messages_are_pretty_printed() {
    assert_eq!(format_message_content("{\"a\":1}"), "{\n  \"a\": 1\n}");
    assert_eq!(format_message_content("  [1,2]  \n"), "[\n  1,\n  2\n]");
    assert_eq!(format_message_content("null"), "null");
}

#[test]
fn direction_marks_are_removed_before_parsing() {
    for mark in ["<-", "->", "<<", ">>", "IN:", "OUT:", "REQ:", "RESP:"] {
        let message = format!(" {}  {{\"k\":true}} ", mark);
        assert_eq!(format_message_content(&message), "{\n  \"k\": true\n}", "mark {}", mark);
    }
}

#[test]
fn text_that_is_not_json_is_trimmed_only() {
    assert_eq!(format_message_content("  hello world \n"), "hello world");
    assert_eq!(format_message_content("-> not json"), "-> not json");
    assert_eq!(format_message_content("→ {\"a\":1}"), "→ {\"a\":1}");
    assert_eq!(format_message_content(""), "");
}

#[test]
fn cleaning_a_message() {
    assert_eq!(clean_json_message("  <- \t{x} "), "{x}");
    assert_eq!(clean_json_message("REQ:{x}"), "{x}");
    assert_eq!(clean_json_message("RESP: RESP: x"), "RESP: x");
    assert_eq!(clean_json_message("req: x"), "req: x");
    assert_eq!(clean_json_message("\u{1}\u{2}{x}"), "{x}");
    assert_eq!(clean_json_message("\u{1}\n\u{2}x"), "\n\u{2}x");
    assert_eq!(clean_json_message("\u{7f}\u{9f}x\u{1}"), "x\u{1}");
    assert_eq!(clean_json_message("   "), "");
    assert_eq!(clean_json_message("<-"), "");
}

#[test]
fn leading_control_characters_do_not_prevent_parsing() {
    assert_eq!(format_message_content("\u{1b}{\"a\":[]}"), "{\n  \"a\": []\n}");
}

#[test]
fn control_characters_agree_with_the_standard_library() {
    for code in 0u32..0x400 {
        if let Some(c) = char::from_u32(code) {
            assert_eq!(char_is_control(c), c.is_control(), "U+{:04X}", code);
        }
    }
}

#[test]
fn choosing_the_text_of_a_message() {
    let pretty = Some(Some("PRETTY".to_string()));
    let other = Some(Some("OTHER".to_string()));
    assert_eq!(layout_message("t", "c", pretty.clone(), other.clone()), "PRETTY");
    assert_eq!(layout_message("t", "c", pretty, None), "PRETTY");
    assert_eq!(
        layout_message("t", "c", Some(None), other.clone()),
        "JSON parse success but format failed:\nc"
    );
    assert_eq!(layout_message("t", "c", None, other), "OTHER");
    assert_eq!(layout_message("t", "c", None, Some(None)), "t");
    assert_eq!(layout_message("t", "c", None, None), "t");
}

#[test]
fn metadata_goes_above_the_message() {
    assert_eq!(
        layout_entry(Some("{}".to_string()), "body".to_string()),
        "=== METADATA ===\n{}\n\n=== MESSAGE ===\nbody"
    );
    assert_eq!(layout_entry(None, "body".to_string()), "body");
}

#[test]
fn entries_with_and_without_metadata() {
    let plain = LogEntry::new(LogLevel::Request, " {\"q\":1} ".to_string(), ProxyId(1));
    assert_eq!(format_entry(&plain), "{\n  \"q\": 1\n}");
    let metadata: serde_json::Value = serde_json::from_str("{\"method\":\"m\"}").unwrap();
    let rich = LogEntry::new(LogLevel::Request, "call".to_string(), ProxyId(1))
        .with_metadata(metadata);
    let expected = "=== METADATA ===\n{\n  \"method\": \"m\"\n}\n\n=== MESSAGE ===\ncall";
    assert_eq!(format_entry(&rich), expected);
    let app = App::new();
    assert_eq!(app.format_log_content(&rich), expected);
}
