use constcodegen::scalar::{value_to_literal, value_to_rust_type, Scalar};

fn literal_of_string(s: &str) -> String {
    value_to_literal(&Scalar::String(s.to_string())).unwrap()
}

#[test]
fn string_is_typed_as_str_reference() {
    assert_eq!(value_to_rust_type(&Scalar::String("x".to_string())), Some("&str"));
}

#[test]
fn integer_is_typed_as_i64() {
    assert_eq!(value_to_rust_type(&Scalar::Integer(7)), Some("i64"));
}

#[test]
fn float_is_typed_as_f64() {
    assert_eq!(value_to_rust_type(&Scalar::Float("1.5".to_string())), Some("f64"));
}

#[test]
fn boolean_is_typed_as_bool() {
    assert_eq!(value_to_rust_type(&Scalar::Boolean(false)), Some("bool"));
}

#[test]
fn unsupported_has_no_type() {
    assert_eq!(value_to_rust_type(&Scalar::Unsupported), None);
}

#[test]
fn unsupported_has_no_literal() {
    assert_eq!(value_to_literal(&Scalar::Unsupported), None);
}

#[test]
fn string_literal_is_quoted() {
    assert_eq!(literal_of_string("x"), "\"x\"");
    assert_eq!(literal_of_string("#f00"), "\"#f00\"");
}

#[test]
fn empty_string_literal_is_two_quotes() {
    assert_eq!(literal_of_string(""), "\"\"");
}

#[test]
fn string_literal_escapes_quote_and_backslash() {
    assert_eq!(literal_of_string("a\"b"), "\"a\\\"b\"");
    assert_eq!(literal_of_string("a\\b"), "\"a\\\\b\"");
}

#[test]
fn string_literal_escapes_named_control_characters() {
    assert_eq!(literal_of_string("\u{8}"), "\"\\b\"");
    assert_eq!(literal_of_string("\t"), "\"\\t\"");
    assert_eq!(literal_of_string("\n"), "\"\\n\"");
    assert_eq!(literal_of_string("\u{c}"), "\"\\f\"");
    assert_eq!(literal_of_string("\r"), "\"\\r\"");
    assert_eq!(literal_of_string("line\nnext"), "\"line\\nnext\"");
}

#[test]
fn string_literal_escapes_other_control_characters_in_hex() {
    assert_eq!(literal_of_string("\u{0}"), "\"\\u0000\"");
    assert_eq!(literal_of_string("\u{1}"), "\"\\u0001\"");
    assert_eq!(literal_of_string("\u{b}"), "\"\\u000B\"");
    assert_eq!(literal_of_string("\u{1f}"), "\"\\u001F\"");
    assert_eq!(literal_of_string("\u{7f}"), "\"\\u007F\"");
}

#[test]
fn string_literal_keeps_other_characters() {
    assert_eq!(literal_of_string("it's"), "\"it's\"");
    assert_eq!(literal_of_string(" ~"), "\" ~\"");
    assert_eq!(literal_of_string("\u{80}"), "\"\u{80}\"");
    assert_eq!(literal_of_string("gr\u{fc}n \u{1f600}"), "\"gr\u{fc}n \u{1f600}\"");
}

#[test]
fn integer_literal_is_decimal() {
    assert_eq!(value_to_literal(&Scalar::Integer(1)), Some("1".to_string()));
    assert_eq!(value_to_literal(&Scalar::Integer(0)), Some("0".to_string()));
    assert_eq!(value_to_literal(&Scalar::Integer(9)), Some("9".to_string()));
    assert_eq!(value_to_literal(&Scalar::Integer(10)), Some("10".to_string()));
    assert_eq!(value_to_literal(&Scalar::Integer(1234567890)), Some("1234567890".to_string()));
}

#[test]
fn negative_integer_literal_has_a_minus_sign() {
    assert_eq!(value_to_literal(&Scalar::Integer(-1)), Some("-1".to_string()));
    assert_eq!(value_to_literal(&Scalar::Integer(-42)), Some("-42".to_string()));
}

#[test]
fn integer_literal_at_the_limits() {
    assert_eq!(
        value_to_literal(&Scalar::Integer(i64::MAX)),
        Some("9223372036854775807".to_string())
    );
    assert_eq!(
        value_to_literal(&Scalar::Integer(i64::MIN)),
        Some("-9223372036854775808".to_string())
    );
}

#[test]
fn boolean_literal_is_true_or_false() {
    assert_eq!(value_to_literal(&Scalar::Boolean(true)), Some("true".to_string()));
    assert_eq!(value_to_literal(&Scalar::Boolean(false)), Some("false".to_string()));
}

#[test]
fn float_literal_is_its_text() {
    assert_eq!(value_to_literal(&Scalar::Float("1.5".to_string())), Some("1.5".to_string()));
    assert_eq!(value_to_literal(&Scalar::Float("-0.0".to_string())), Some("-0.0".to_string()));
}

#[test]
fn a_value_has_a_type_exactly_when_it_has_a_literal() {
    let values = vec![
        Scalar::String("s".to_string()),
        Scalar::Integer(3),
        Scalar::Float("2.5".to_string()),
        Scalar::Boolean(true),
        Scalar::Unsupported,
    ];
    for v in &values {
        let supported = *v != Scalar::Unsupported;
        assert_eq!(value_to_rust_type(v).is_some(), supported);
        assert_eq!(value_to_literal(v).is_some(), supported);
    }
}

fn expected_escape(c: char) -> String {
    match c {
        '\u{8}' => "\\b".to_string(),
        '\t' => "\\t".to_string(),
        '\n' => "\\n".to_string(),
        '\u{c}' => "\\f".to_string(),
        '\r' => "\\r".to_string(),
        '"' => "\\\"".to_string(),
        '\\' => "\\\\".to_string(),
        c if (c as u32) <= 0x1f || (c as u32) == 0x7f => format!("\\u{:04X}", c as u32),
        c => c.to_string(),
    }
}

#[test]
fn every_character_is_escaped_by_the_rule() {
    let mut code: u32 = 0;
    while code <= 0x10ffff {
        if let Some(c) = char::from_u32(code) {
            let text = c.to_string();
            assert_eq!(literal_of_string(&text), format!("\"{}\"", expected_escape(c)));
        }
        code += if code < 0x3000 { 1 } else { 257 };
    }
}

#[test]
fn characters_are_escaped_one_by_one_in_order() {
    let text = "a\"b\\c\nd\te\u{1}f\u{7f}g\u{e9}";
    let expected: String = text.chars().map(expected_escape).collect();
    assert_eq!(literal_of_string(text), format!("\"{}\"", expected));
    assert_eq!(
        literal_of_string(text),
        "\"a\\\"b\\\\c\\nd\\te\\u0001f\\u007Fg\u{e9}\""
    );
}

fn expected_decimal(i: i64) -> String {
    let mut magnitude = (i as i128).abs();
    let mut digits = Vec::new();
    loop {
        digits.push(char::from_digit((magnitude % 10) as u32, 10).unwrap());
        magnitude /= 10;
        if magnitude == 0 {
            break;
        }
    }
    if i < 0 {
        digits.push('-');
    }
    digits.iter().rev().collect()
}

#[test]
fn integers_are_written_digit_by_digit() {
    for i in -1100i64..=1100 {
        assert_eq!(value_to_literal(&Scalar::Integer(i)), Some(expected_decimal(i)));
    }
    let mut i: i64 = 1;
    while i < i64::MAX / 7 {
        assert_eq!(value_to_literal(&Scalar::Integer(i)), Some(expected_decimal(i)));
        assert_eq!(value_to_literal(&Scalar::Integer(-i)), Some(expected_decimal(-i)));
        i = i * 7 + 3;
    }
    assert_eq!(value_to_literal(&Scalar::Integer(i64::MIN)), Some(expected_decimal(i64::MIN)));
    assert_eq!(value_to_literal(&Scalar::Integer(i64::MAX)), Some(expected_decimal(i64::MAX)));
}
