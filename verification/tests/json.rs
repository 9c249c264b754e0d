use library_api::json::{array, number, object, string};
use library_api::timestamp::Timestamp;

#[test]
fn number_writes_decimal() {
    assert_eq!(number(0), "0");
    assert_eq!(number(7), "7");
    assert_eq!(number(10), "10");
    assert_eq!(number(1234567890), "1234567890");
    assert_eq!(number(-5), "-5");
    assert_eq!(number(i32::MAX), "2147483647");
    assert_eq!(number(i32::MIN), "-2147483648");
}

#[test]
fn string_quotes_and_escapes() {
    assert_eq!(string("Ann"), "\"Ann\"");
    assert_eq!(string(""), "\"\"");
    assert_eq!(string("a\"b\\c"), "\"a\\\"b\\\\c\"");
    assert_eq!(string("line\nbreak\ttab"), "\"line\\nbreak\\ttab\"");
    assert_eq!(string("\u{1}"), "\"\\u0001\"");
}

#[test]
fn array_joins_with_commas() {
    assert_eq!(array(&vec![]), "[]");
    assert_eq!(array(&vec!["1".to_string()]), "[1]");
    assert_eq!(array(&vec!["1".to_string(), "\"a\"".to_string(), "{}".to_string()]), "[1,\"a\",{}]");
}

#[test]
fn object_writes_members_in_order() {
    assert_eq!(object(&vec![]), "{}");
    assert_eq!(
        object(&vec![("\"b\"".to_string(), "1".to_string()), ("\"a\"".to_string(), "[]".to_string())]),
        "{\"b\":1,\"a\":[]}"
    );
}

#[test]
fn timestamp_prints_iso_form() {
    let t = Timestamp::new(2020, 1, 1, 0, 0, 0, 0).unwrap();
    assert_eq!(t.text(), "2020-01-01T00:00:00");
    let t = Timestamp::new(2024, 2, 29, 23, 59, 58, 500_000_000).unwrap();
    assert_eq!(t.text(), "2024-02-29T23:59:58.500");
    assert_eq!((t.year(), t.month(), t.day()), (2024, 2, 29));
    assert_eq!((t.hour(), t.minute(), t.second(), t.nano()), (23, 59, 58, 500_000_000));
}

#[test]
fn timestamp_rejects_what_the_calendar_lacks() {
    assert!(Timestamp::new(2023, 4, 31, 0, 0, 0, 0).is_none());
    assert!(Timestamp::new(2023, 2, 29, 0, 0, 0, 0).is_none());
    assert!(Timestamp::new(2023, 13, 1, 0, 0, 0, 0).is_none());
    assert!(Timestamp::new(2023, 1, 1, 24, 0, 0, 0).is_none());
    assert!(Timestamp::new(2023, 1, 1, 0, 60, 0, 0).is_none());
    assert!(Timestamp::new(2023, 1, 1, 0, 0, 60, 0).is_none());
}

#[test]
fn number_is_what_serde_json_writes() {
    let samples = [0, 1, -1, 9, 10, 11, 99, 100, 101, 12345, -12345, 1_000_000, i32::MAX, i32::MIN];
    for n in samples {
        assert_eq!(number(n), serde_json::to_string(&n).unwrap());
        assert_eq!(number(n), n.to_string());
    }
    for n in -1100..1100 {
        assert_eq!(number(n), n.to_string());
    }
}

#[test]
fn string_reads_back_as_the_text() {
    let samples = [
        "",
        "plain",
        "with space",
        "quote\"",
        "back\\slash",
        "sl/ash",
        "\u{8}\u{c}\n\r\t",
        "\u{0}\u{1}\u{1f}\u{7f}",
        "caf\u{e9} \u{4e2d}\u{6587} \u{1F600}",
        "{\"already\":\"json\"}",
    ];
    for text in samples {
        let literal = string(text);
        assert!(literal.starts_with('"') && literal.ends_with('"'));
        assert_eq!(serde_json::from_str::<String>(&literal).unwrap(), text);
    }
}

#[test]
fn string_escapes_control_characters_in_lower_case_hex() {
    assert_eq!(string("\u{8}"), "\"\\b\"");
    assert_eq!(string("\u{c}"), "\"\\f\"");
    assert_eq!(string("\r"), "\"\\r\"");
    assert_eq!(string("\u{1f}"), "\"\\u001f\"");
    assert_eq!(string("\u{7f}"), "\"\u{7f}\"");
    assert_eq!(string("/"), "\"/\"");
    assert_eq!(string("\u{e9}"), "\"\u{e9}\"");
}

#[test]
fn object_and_array_nest() {
    let inner = object(&vec![(string("k"), number(1))]);
    let list = array(&vec![inner.clone(), inner]);
    let outer = object(&vec![(string("items"), list), (string("n"), number(-2))]);
    assert_eq!(outer, "{\"items\":[{\"k\":1},{\"k\":1}],\"n\":-2}");
    let parsed: serde_json::Value = serde_json::from_str(&outer).unwrap();
    assert_eq!(parsed.get("n").and_then(|v| v.as_i64()), Some(-2));
    assert_eq!(parsed.get("items").and_then(|v| v.as_array()).map(|a| a.len()), Some(2));
}
