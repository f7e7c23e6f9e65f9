use emery::{IntoRuby, Outbound, RubyConversionError, RubyValue, TryFromRuby, ValueKind};

fn ready(out: Outbound) -> RubyValue {
    match out {
        Outbound::Ready(value) => value,
        _ => panic!("a value was expected"),
    }
}

fn message(out: Outbound) -> String {
    match out {
        Outbound::Raise(message) => message,
        _ => panic!("an error was expected"),
    }
}

#[test]
fn booleans_become_singletons() {
    assert_eq!(RubyValue::from(true).word, 0x14);
    assert_eq!(RubyValue::from(false).word, 0x00);
    assert_eq!(ready(true.into_ruby()).word, 0x14);
    assert_eq!(ready(false.into_ruby()).word, 0x00);
}

#[test]
fn converted_boolean_is_classified_as_itself() {
    for b in [true, false] {
        let value = RubyValue::from(b);
        let kind = value.infer_type();
        assert_eq!(kind == ValueKind::True, b);
        assert_eq!(kind == ValueKind::False, !b);
        let back: Result<bool, RubyConversionError> = TryFromRuby::try_from(&value);
        assert_eq!(back.ok(), Some(b));
    }
}

#[test]
fn integers_pick_the_boxing_by_width_and_sign() {
    assert!(matches!(7i32.into_ruby(), Outbound::Int(7)));
    assert!(matches!((-7i32).into_ruby(), Outbound::Int(-7)));
    assert!(matches!(i32::MIN.into_ruby(), Outbound::Int(-2147483648)));
    assert!(matches!(7u32.into_ruby(), Outbound::Uint(7)));
    assert!(matches!(u32::MAX.into_ruby(), Outbound::Uint(4294967295)));
    assert!(matches!(7i64.into_ruby(), Outbound::LongLong(7)));
    assert!(matches!(i64::MIN.into_ruby(), Outbound::LongLong(i64::MIN)));
    assert!(matches!(7u64.into_ruby(), Outbound::UnsignedLongLong(7)));
    assert!(matches!(u64::MAX.into_ruby(), Outbound::UnsignedLongLong(u64::MAX)));
    assert!(matches!((-7isize).into_ruby(), Outbound::Int(-7)));
    assert!(matches!(7usize.into_ruby(), Outbound::Uint(7)));
}

#[test]
fn text_becomes_a_utf8_string() {
    match "gr\u{fc}n".into_ruby() {
        Outbound::Utf8String(text) => assert_eq!(text, "gr\u{fc}n"),
        _ => panic!("a string was expected"),
    }
    match String::from("owned").into_ruby() {
        Outbound::Utf8String(text) => assert_eq!(text, "owned"),
        _ => panic!("a string was expected"),
    }
}

#[test]
fn none_becomes_nil() {
    let nothing: Option<bool> = None;
    let value = ready(nothing.into_ruby());
    assert_eq!(value.word, 0x08);
    assert_eq!(value.infer_type(), ValueKind::Nil);
    assert_eq!(RubyValue::nil().word, 0x08);
}

#[test]
fn some_converts_as_what_it_holds() {
    assert_eq!(ready(Some(true).into_ruby()).word, 0x14);
    assert!(matches!(Some(5i64).into_ruby(), Outbound::LongLong(5)));
    match Some("asd").into_ruby() {
        Outbound::Utf8String(text) => assert_eq!(text, "asd"),
        _ => panic!("a string was expected"),
    }
    let nested: Option<Option<bool>> = Some(None);
    assert_eq!(ready(nested.into_ruby()).word, 0x08);
}

#[test]
fn ok_converts_as_what_it_holds() {
    let outcome: Result<bool, RubyConversionError> = Ok(true);
    assert_eq!(ready(outcome.into_ruby()).word, 0x14);
    let outcome: Result<u32, String> = Ok(9);
    assert!(matches!(outcome.into_ruby(), Outbound::Uint(9)));
}

#[test]
fn conversion_error_is_raised_with_its_text() {
    let refused: Result<i64, RubyConversionError> = TryFromRuby::try_from(&RubyValue::new(0x14));
    assert_eq!(message(refused.into_ruby()), "Invalid Conversion of \"\" into 64-bit integer");
    let outcome: Result<bool, RubyConversionError> = Err(RubyConversionError::new("x", "bool"));
    assert_eq!(message(outcome.into_ruby()), "Invalid Conversion of \"x\" into bool");
}

#[test]
fn any_error_with_a_text_is_raised_with_it() {
    let outcome: Result<bool, String> = Err("it broke".to_string());
    assert_eq!(message(outcome.into_ruby()), "it broke");
    let outcome: Result<Option<i64>, std::fmt::Error> = Err(std::fmt::Error);
    assert_eq!(message(outcome.into_ruby()), std::fmt::Error.to_string());
    let parsed: Result<i32, std::num::ParseIntError> = "12a".parse::<i32>();
    assert_eq!(message(parsed.into_ruby()), "invalid digit found in string");
}
