use gedis::{decimal_text, parse_decimal, parse_result, signed_decimal_text, JsonValue, ReplyValue};

#[test]
fn decimal_text_writes_digits() {
    assert_eq!(decimal_text(0), "0");
    assert_eq!(decimal_text(7), "7");
    assert_eq!(decimal_text(1234), "1234");
    assert_eq!(decimal_text(u64::MAX), "18446744073709551615");
}

#[test]
fn signed_decimal_text_writes_sign() {
    assert_eq!(signed_decimal_text(-5), "-5");
    assert_eq!(signed_decimal_text(120), "120");
    assert_eq!(signed_decimal_text(i64::MIN), "-9223372036854775808");
}

#[test]
fn parse_decimal_reads_numbers() {
    assert_eq!(parse_decimal("7001", 65535), Some(7001));
    assert_eq!(parse_decimal("+12", 65535), Some(12));
    assert_eq!(parse_decimal("", 65535), None);
    assert_eq!(parse_decimal("+", 65535), None);
    assert_eq!(parse_decimal("12a", 65535), None);
    assert_eq!(parse_decimal("-1", 65535), None);
    assert_eq!(parse_decimal("70000", 65535), None);
    assert_eq!(parse_decimal("18446744073709551615", u64::MAX), Some(u64::MAX));
    assert_eq!(parse_decimal("18446744073709551616", u64::MAX), None);
}

fn text(j: &JsonValue) -> &str {
    match j {
        JsonValue::Text(s) => s.as_str(),
        _ => panic!("not a text"),
    }
}

#[test]
fn parse_result_converts_each_reply_kind() {
    let reply = ReplyValue::Bulk(vec![
        ReplyValue::Nil,
        ReplyValue::Int(3),
        ReplyValue::Data(b"hi".to_vec()),
        ReplyValue::Okay,
        ReplyValue::Status("PONG".to_string()),
        ReplyValue::Bulk(vec![ReplyValue::Int(-1)]),
    ]);
    match parse_result(&reply) {
        JsonValue::Array(items) => {
            assert_eq!(items.len(), 6);
            assert_eq!(text(&items[0]), "");
            assert!(matches!(items[1], JsonValue::Number(3)));
            assert_eq!(text(&items[2]), "hi");
            assert_eq!(text(&items[3]), "Ok");
            assert_eq!(text(&items[4]), "PONG");
            match &items[5] {
                JsonValue::Array(inner) => assert!(matches!(inner[0], JsonValue::Number(-1))),
                _ => panic!("not an array"),
            }
        }
        _ => panic!("not an array"),
    }
}

#[test]
fn parse_result_replaces_invalid_utf8() {
    let reply = ReplyValue::Data(vec![b'a', 0xff, b'b']);
    assert_eq!(text(&parse_result(&reply)), "a\u{fffd}b");
}
