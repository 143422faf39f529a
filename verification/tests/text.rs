use phishri::json::{
    bool_arg_or, natural_arg_or, text_arg, text_arg_or_empty, text_list_arg, JsonNumber, JsonValue,
};
use phishri::text::{
    contains, decimal, eq_ignore_ascii_case, first_line, hex, join, preview, second_segment,
    starts_with, strip_prefixes, text_le, trim, words,
};

#[test]
fn trim_removes_whitespace_at_both_ends_only() {
    assert_eq!(trim("  D05  "), "D05");
    assert_eq!(trim("\t a b \n"), "a b");
    assert_eq!(trim(""), "");
    assert_eq!(trim("   "), "");
    assert_eq!(trim("x"), "x");
    assert_eq!(trim("\u{a0}x\u{2003}"), "x");
    assert_eq!(trim(&trim("  a  b ")), trim("  a  b "));
}

#[test]
fn contains_finds_a_text_anywhere() {
    assert!(contains("/kb/CONTEXTS/TOOLS/D05.json", "/TOOLS/"));
    assert!(contains("abc", ""));
    assert!(contains("", ""));
    assert!(contains("abc", "abc"));
    assert!(contains("abc", "c"));
    assert!(!contains("abc", "abcd"));
    assert!(!contains("abc", "ac"));
    assert!(!contains("", "a"));
}

#[test]
fn starts_with_looks_at_the_beginning() {
    assert!(starts_with("D05SILENT", "D05"));
    assert!(starts_with("D05", "D05"));
    assert!(starts_with("D05", ""));
    assert!(!starts_with("D05", "D05S"));
    assert!(!starts_with("XD05", "D05"));
}

#[test]
fn eq_ignore_ascii_case_folds_ascii_letters_only() {
    assert!(eq_ignore_ascii_case("Tools", "TOOLS"));
    assert!(eq_ignore_ascii_case("", ""));
    assert!(!eq_ignore_ascii_case("TOOLS", "TOOL"));
    assert!(!eq_ignore_ascii_case("é", "É"));
    assert!(!eq_ignore_ascii_case("a_b", "a-b"));
}

#[test]
fn first_line_stops_at_the_line_feed() {
    assert_eq!(first_line("one\ntwo"), "one");
    assert_eq!(first_line("one\r\ntwo"), "one");
    assert_eq!(first_line("one"), "one");
    assert_eq!(first_line("one\r"), "one\r");
    assert_eq!(first_line(""), "");
    assert_eq!(first_line("\nrest"), "");
    assert_eq!(first_line("a\rb\nc"), "a\rb");
}

#[test]
fn second_segment_is_what_stands_between_the_first_two_dots() {
    assert_eq!(second_segment("TOOLS.DEPLOYMENT.SILENT"), "DEPLOYMENT");
    assert_eq!(second_segment("TOOLS.DEPLOYMENT"), "DEPLOYMENT");
    assert_eq!(second_segment("TOOLS"), "");
    assert_eq!(second_segment(""), "");
    assert_eq!(second_segment("TOOLS."), "");
    assert_eq!(second_segment("A..B"), "");
}

#[test]
fn strip_prefixes_takes_every_repetition() {
    assert_eq!(strip_prefixes("phishri://door/D05", "phishri://door/"), "D05");
    assert_eq!(strip_prefixes("ababc", "ab"), "c");
    assert_eq!(strip_prefixes("abc", "x"), "abc");
    assert_eq!(strip_prefixes("abc", ""), "abc");
    assert_eq!(strip_prefixes("aaa", "a"), "");
}

#[test]
fn numbers_are_written_in_decimal_and_in_hexadecimal() {
    assert_eq!(decimal(0), "0");
    assert_eq!(decimal(7), "7");
    assert_eq!(decimal(10), "10");
    assert_eq!(decimal(268), "268");
    assert_eq!(decimal(u64::MAX), "18446744073709551615");
    assert_eq!(hex(0), "0");
    assert_eq!(hex(15), "f");
    assert_eq!(hex(16), "10");
    assert_eq!(hex(0x18f3a2b4c5d), "18f3a2b4c5d");
    assert_eq!(hex(u64::MAX), "ffffffffffffffff");
}

#[test]
fn join_puts_the_separator_between_neighbours() {
    let none: Vec<String> = vec![];
    assert_eq!(join(&none, ", "), "");
    assert_eq!(join(&vec!["a".to_string()], ", "), "a");
    assert_eq!(join(&vec!["a".to_string(), "b".to_string(), "c".to_string()], ", "), "a, b, c");
}

#[test]
fn words_are_the_runs_between_whitespace() {
    assert_eq!(words("silent  install"), vec!["silent", "install"]);
    assert_eq!(words("  git\tworkflow \n"), vec!["git", "workflow"]);
    assert_eq!(words("one"), vec!["one"]);
    assert!(words("").is_empty());
    assert!(words("   ").is_empty());
}

#[test]
fn preview_keeps_the_first_characters_of_a_long_text() {
    let long = "x".repeat(81);
    assert_eq!(preview(&long, 80, 77), format!("{}...", "x".repeat(77)));
    let exact = "y".repeat(80);
    assert_eq!(preview(&exact, 80, 77), exact);
    assert_eq!(preview("short", 80, 77), "short");
    let accented = "é".repeat(81);
    assert_eq!(preview(&accented, 80, 77), format!("{}...", "é".repeat(77)));
}

#[test]
fn text_le_is_the_lexicographic_order() {
    assert!(text_le("", ""));
    assert!(text_le("", "a"));
    assert!(!text_le("a", ""));
    assert!(text_le("D05", "D05"));
    assert!(text_le("D05", "D06"));
    assert!(!text_le("D06", "D05"));
    assert!(text_le("D05", "D05A"));
    assert!(!text_le("D05A", "D05"));
    assert!(text_le("A10", "A9"));
    assert_eq!(text_le("é", "z"), "é" <= "z");
}

#[test]
fn json_parse_reads_a_document() {
    let value = JsonValue::parse(r#"{"b": [1, -2, 1.5, "x", true, null], "a": {"c": "d"}}"#).unwrap();
    let a = value.get("a").unwrap();
    assert_eq!(a.get("c").unwrap().as_text(), Some("d"));
    let items = value.get("b").unwrap().as_array().unwrap();
    assert_eq!(items.len(), 6);
    assert_eq!(items[0].as_natural(), Some(1));
    assert!(matches!(items[1], JsonValue::Number(JsonNumber::Negative(-2))));
    assert!(matches!(&items[2], JsonValue::Number(JsonNumber::Real(t)) if t == "1.5"));
    assert_eq!(items[3].as_text(), Some("x"));
    assert_eq!(items[4].as_bool(), Some(true));
    assert!(matches!(items[5], JsonValue::Null));
    assert!(value.get("missing").is_none());
    assert!(value.is_object());
}

#[test]
fn json_parse_fails_on_text_that_is_no_document() {
    assert!(JsonValue::parse("{not json").is_err());
    assert!(JsonValue::parse("").is_err());
    assert!(JsonValue::parse("{} trailing").is_err());
    let text = JsonValue::parse("\"mappings\"").unwrap();
    assert_eq!(text.as_text(), Some("mappings"));
}

#[test]
fn json_accessors_answer_only_for_their_own_kind() {
    let text = JsonValue::text("x");
    assert_eq!(text.as_text(), Some("x"));
    assert_eq!(text.as_natural(), None);
    assert_eq!(text.as_bool(), None);
    assert!(text.as_array().is_none());
    assert!(text.get("x").is_none());
    assert!(!text.is_object());
    assert_eq!(JsonValue::Number(JsonNumber::Negative(-1)).as_natural(), None);
    assert_eq!(JsonValue::natural(5).as_natural(), Some(5));
}

#[test]
fn arguments_fall_back_to_their_defaults() {
    let args = Some(
        JsonValue::parse(
            r#"{"door_code": "D05", "limit": 7, "flag": false, "codes": ["A", 1, "B"], "n": "x"}"#,
        )
        .unwrap(),
    );
    assert_eq!(text_arg(&args, "door_code"), Some("D05".to_string()));
    assert_eq!(text_arg(&args, "limit"), None);
    assert_eq!(text_arg(&args, "absent"), None);
    assert_eq!(text_arg_or_empty(&args, "absent"), "");
    assert_eq!(natural_arg_or(&args, "limit", 50), 7);
    assert_eq!(natural_arg_or(&args, "n", 50), 50);
    assert_eq!(natural_arg_or(&args, "absent", 50), 50);
    assert!(!bool_arg_or(&args, "flag", true));
    assert!(bool_arg_or(&args, "absent", true));
    assert_eq!(text_list_arg(&args, "codes"), vec!["A", "B"]);
    assert!(text_list_arg(&args, "door_code").is_empty());
    assert!(text_list_arg(&None, "codes").is_empty());
    assert_eq!(text_arg(&None, "door_code"), None);
}

#[test]
fn json_object_members_can_be_added() {
    let value = JsonValue::object(vec![JsonValue::member("a", JsonValue::natural(1))])
        .with("b", JsonValue::empty_array().and(JsonValue::text("x")).and(JsonValue::text("y")));
    assert!(matches!(JsonValue::natural(1).with("a", JsonValue::Null), JsonValue::Number(_)));
    assert!(JsonValue::empty_object().and(JsonValue::Null).is_object());
    assert_eq!(value.get("a").unwrap().as_natural(), Some(1));
    let items = value.get("b").unwrap().as_array().unwrap();
    assert_eq!(items[1].as_text(), Some("y"));
    let copy = value.clone();
    assert_eq!(copy.get("b").unwrap().as_array().unwrap().len(), 2);
}
