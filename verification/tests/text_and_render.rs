use omcp::json::JsonValue;
use omcp::render::{colorize_text, visible_length, AnsiColor, RoundedBox};
use omcp::strutil::{
    ascii_lower_string, chars_to_string, i64_to_string, parse_u16, repeat_char, rsplit_once_char,
    split_once_char, split_ws, str_eq, str_to_chars, u64_to_string,
};

#[test]
fn string_equality_is_by_characters() {
    assert!(str_eq("abc", "abc"));
    assert!(!str_eq("abc", "abd"));
    assert!(!str_eq("abc", "ab"));
    assert!(str_eq("", ""));
}

#[test]
fn splitting_at_the_first_and_last_separator() {
    assert_eq!(
        split_once_char("host:1234:x", ':'),
        Some(("host".to_string(), "1234:x".to_string()))
    );
    assert_eq!(split_once_char("nosep", ':'), None);
    assert_eq!(
        rsplit_once_char("a.b.py", '.'),
        Some(("a.b".to_string(), "py".to_string()))
    );
    assert_eq!(rsplit_once_char("nodot", '.'), None);
}

#[test]
fn port_numbers_parse_exactly() {
    assert_eq!(parse_u16("0"), Some(0));
    assert_eq!(parse_u16("11434"), Some(11434));
    assert_eq!(parse_u16("65535"), Some(65535));
    assert_eq!(parse_u16("65536"), None);
    assert_eq!(parse_u16(""), None);
    assert_eq!(parse_u16("12a"), None);
    assert_eq!(parse_u16("000080"), Some(80));
}

#[test]
fn numbers_render_in_decimal() {
    assert_eq!(u64_to_string(0), "0");
    assert_eq!(u64_to_string(907), "907");
    assert_eq!(i64_to_string(-12), "-12");
    assert_eq!(i64_to_string(i64::MIN), "-9223372036854775808");
    assert_eq!(i64_to_string(i64::MAX), "9223372036854775807");
}

#[test]
fn character_utilities_behave() {
    assert_eq!(ascii_lower_string("Hello, World"), "hello, world");
    assert_eq!(chars_to_string(&str_to_chars("round trip")), "round trip");
    assert_eq!(repeat_char('-', 4), "----");
    assert_eq!(repeat_char('-', 0), "");
}

#[test]
fn words_split_on_blank_runs() {
    assert_eq!(
        split_ws("/tools  toggle   get_time"),
        vec![
            "/tools".to_string(),
            "toggle".to_string(),
            "get_time".to_string()
        ]
    );
    assert_eq!(split_ws("   "), Vec::<String>::new());
    assert_eq!(split_ws("one"), vec!["one".to_string()]);
}

#[test]
fn colorize_wraps_in_escape_sequences() {
    assert_eq!(colorize_text("hi", AnsiColor::Green), "\u{1b}[32mhi\u{1b}[0m");
    assert_eq!(
        colorize_text("x", AnsiColor::BrightWhite),
        "\u{1b}[97mx\u{1b}[0m"
    );
}

#[test]
fn visible_length_ignores_color_escapes() {
    let colored = colorize_text("hi", AnsiColor::Green);
    assert_eq!(visible_length(&colored), 2);
    assert_eq!(visible_length("plain"), 5);
    assert_eq!(visible_length(""), 0);
}

#[test]
fn a_small_box_renders_exactly() {
    let b = RoundedBox::new("hi", None, None, false);
    let rendered = b.render_with_width(80);
    let expected = "╭──────╮\n│    │\n│hi  │\n│    │\n╰────╯";
    assert_eq!(rendered, expected);
}

#[test]
fn long_lines_wrap_to_the_terminal_width() {
    let b = RoundedBox::new("abcdefgh", None, None, false);
    let rendered = b.render_with_width(8);
    let rows: Vec<&str> = rendered.split('\n').collect();
    assert_eq!(rows.len(), 6);
    assert_eq!(rows[2], "\u{2502}abcd  \u{2502}");
    assert_eq!(rows[3], "\u{2502}efgh  \u{2502}");
}

#[test]
fn titles_are_centered_in_the_top_rule() {
    let b = RoundedBox::new("abcdef", Some("T"), None, false);
    let rendered = b.render_with_width(80);
    let top = rendered.split('\n').next().unwrap();
    assert!(top.starts_with('\u{256d}'));
    assert!(top.contains(" T "));
    assert!(top.ends_with('\u{256e}'));
}

#[test]
fn json_lookup_takes_the_first_binding() {
    let v = JsonValue::Obj(vec![
        ("k".to_string(), JsonValue::Int(1)),
        ("k".to_string(), JsonValue::Int(2)),
    ]);
    match v.get("k") {
        Some(JsonValue::Int(n)) => assert_eq!(*n, 1),
        other => panic!("unexpected: {:?}", other),
    }
    assert!(v.get("absent").is_none());
    assert!(JsonValue::Null.get("k").is_none());
}
