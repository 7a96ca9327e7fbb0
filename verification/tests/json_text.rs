use apnrs::json::{
    write_escaped_char, write_number, write_number_member, write_string, write_text_member,
};

fn string_text(s: &str) -> String {
    let mut out = String::new();
    write_string(&mut out, s);
    out
}

fn number_text(n: u64) -> String {
    let mut out = String::new();
    write_number(&mut out, n);
    out
}

#[test]
fn plain_text_is_quoted_as_it_is() {
    assert_eq!(string_text("Hi"), "\"Hi\"");
    assert_eq!(string_text(""), "\"\"");
    assert_eq!(string_text("com.example.app"), "\"com.example.app\"");
}

#[test]
fn quote_and_backslash_are_escaped() {
    assert_eq!(string_text("say \"hi\""), "\"say \\\"hi\\\"\"");
    assert_eq!(string_text("a\\b"), "\"a\\\\b\"");
}

#[test]
fn named_control_characters_have_short_escapes() {
    assert_eq!(string_text("\u{8}\u{c}\n\r\t"), "\"\\b\\f\\n\\r\\t\"");
}

#[test]
fn other_control_characters_are_written_in_hexadecimal() {
    assert_eq!(string_text("\u{0}"), "\"\\u0000\"");
    assert_eq!(string_text("\u{1}"), "\"\\u0001\"");
    assert_eq!(string_text("\u{b}"), "\"\\u000b\"");
    assert_eq!(string_text("\u{1f}"), "\"\\u001f\"");
    assert_eq!(string_text("\u{1a}"), "\"\\u001a\"");
}

#[test]
fn delete_and_characters_beyond_ascii_are_written_as_they_are() {
    assert_eq!(string_text("\u{7f}"), "\"\u{7f}\"");
    assert_eq!(string_text("caf\u{e9} \u{1f600}"), "\"caf\u{e9} \u{1f600}\"");
}

#[test]
fn write_escaped_char_appends_to_what_is_there() {
    let mut out = String::from("x");
    write_escaped_char(&mut out, '"');
    write_escaped_char(&mut out, 'y');
    write_escaped_char(&mut out, '\u{2}');
    assert_eq!(out, "x\\\"y\\u0002");
}

#[test]
fn numbers_are_written_in_decimal() {
    assert_eq!(number_text(0), "0");
    assert_eq!(number_text(7), "7");
    assert_eq!(number_text(9), "9");
    assert_eq!(number_text(10), "10");
    assert_eq!(number_text(1700000000), "1700000000");
    assert_eq!(number_text(4294967295), "4294967295");
    assert_eq!(number_text(u64::MAX), "18446744073709551615");
}

#[test]
fn members_are_separated_by_commas_after_the_first() {
    let mut out = String::from("{");
    write_text_member(&mut out, true, "a", "x");
    write_number_member(&mut out, false, "b", 12);
    write_text_member(&mut out, false, "c\"d", "");
    out.push('}');
    assert_eq!(out, "{\"a\":\"x\",\"b\":12,\"c\\\"d\":\"\"}");
}

#[test]
fn strings_are_written_as_serde_json_writes_them() {
    let mut code: u32 = 0;
    while code < 0x3000 {
        if let Some(c) = char::from_u32(code) {
            let s = format!("a{}b", c);
            let expected = serde_json::to_string(&serde_json::Value::String(s.clone())).unwrap();
            assert_eq!(string_text(&s), expected);
        }
        code += 1;
    }
    for s in ["\u{d7ff}\u{e000}", "\u{ffff}", "\u{10000}\u{10ffff}", "\\\\\"\"\n\n"] {
        let expected = serde_json::to_string(&serde_json::Value::String(s.to_string())).unwrap();
        assert_eq!(string_text(s), expected);
    }
}

#[test]
fn numbers_are_written_as_serde_json_writes_them() {
    for n in [0u64, 1, 9, 10, 11, 99, 100, 101, 65535, 1700000000, u64::MAX - 1, u64::MAX] {
        let expected = serde_json::to_string(&serde_json::Value::from(n)).unwrap();
        assert_eq!(number_text(n), expected);
    }
}

#[test]
fn written_strings_are_read_back_by_serde_json() {
    for s in ["", "Hi", "line\nbreak", "tab\there", "quote\"", "back\\slash", "\u{0}\u{1f}\u{7f}"] {
        let read: serde_json::Value = serde_json::from_str(&string_text(s)).unwrap();
        assert_eq!(read, serde_json::Value::String(s.to_string()));
    }
}
