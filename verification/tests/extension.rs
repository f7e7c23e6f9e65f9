use emery::extension::{
    all_white_space, is_ascii_space, is_white_space, ruby_new_string, ruby_str_all_whitespace,
    Blank, Init_libemery,
};
use emery::{
    Callback, Encodings, Entry, HostData, Outbound, RubyValue, Scope, StringData, StringHeader,
};

const UTF8: u64 = 0x5000;
const US_ASCII: u64 = 0x5100;
const LATIN1: u64 = 0x5200;

fn string_value(bytes: &[u8], encoding: u64) -> RubyValue {
    let header = StringHeader { flags: 0x05, heap_len: bytes.len(), heap_ptr: 0x7f00_8000 };
    RubyValue {
        word: 0x7f00_1000,
        host: HostData::String(StringData {
            header,
            encoding,
            encodings: Encodings { utf8: UTF8, us_ascii: US_ASCII },
            bytes: bytes.to_vec(),
        }),
    }
}

#[test]
fn white_space_is_what_the_standard_library_says() {
    for code in 0..=0x10_ffffu32 {
        if let Some(c) = char::from_u32(code) {
            assert_eq!(is_white_space(c), c.is_whitespace(), "U+{:04X}", code);
            assert_eq!(is_ascii_space(c), c.is_ascii_whitespace(), "U+{:04X}", code);
        }
    }
}

#[test]
fn text_of_white_space_only() {
    assert!(all_white_space(""));
    assert!(all_white_space(" \t\r\n"));
    assert!(all_white_space("\u{b}\u{c}\u{85}\u{a0}\u{1680}\u{2000}\u{200a}\u{2028}\u{2029}\u{202f}\u{205f}\u{3000}"));
    assert!(!all_white_space("  x"));
    assert!(!all_white_space("x  "));
    assert!(!all_white_space("\u{200b}"));
    assert!(!all_white_space(" \u{feff}"));
    assert_eq!(all_white_space(" \u{3000} "), " \u{3000} ".trim_start().is_empty());
}

#[test]
fn empty_string_is_blank() {
    assert_eq!(ruby_str_all_whitespace(&string_value(b"", UTF8)), Blank::Known(Some(true)));
    assert_eq!(ruby_str_all_whitespace(&string_value(b"", LATIN1)), Blank::Known(Some(true)));
}

#[test]
fn ascii_text_is_held_to_ascii_white_space() {
    assert_eq!(ruby_str_all_whitespace(&string_value(b" \t\r\n\x0c", UTF8)), Blank::Known(Some(true)));
    assert_eq!(ruby_str_all_whitespace(&string_value(b"   ", US_ASCII)), Blank::Known(Some(true)));
    assert_eq!(ruby_str_all_whitespace(&string_value(b"  a ", UTF8)), Blank::Known(Some(false)));
    assert_eq!(ruby_str_all_whitespace(&string_value(b" \x0b ", UTF8)), Blank::Known(Some(false)));
    assert_eq!(ruby_str_all_whitespace(&string_value(b"\0", UTF8)), Blank::Known(Some(false)));
}

#[test]
fn other_text_is_held_to_unicode_white_space() {
    let blank = " \u{3000}\u{b}\u{2003}";
    assert_eq!(ruby_str_all_whitespace(&string_value(blank.as_bytes(), UTF8)), Blank::Known(Some(true)));
    let inked = " \u{3000}\u{e9}";
    assert_eq!(ruby_str_all_whitespace(&string_value(inked.as_bytes(), UTF8)), Blank::Known(Some(false)));
}

#[test]
fn string_without_text_is_sent_for_utf8() {
    assert_eq!(
        ruby_str_all_whitespace(&string_value(&[0x20, 0xa0], LATIN1)),
        Blank::Reencode { target: UTF8 }
    );
    assert_eq!(
        ruby_str_all_whitespace(&string_value(&[0x20, 0xff], UTF8)),
        Blank::Reencode { target: UTF8 }
    );
}

#[test]
fn value_that_is_no_string_has_no_answer() {
    for word in [0x00u64, 0x08, 0x14, 0x03, 0x0c, 0x02, 0x7f00_1000] {
        assert_eq!(ruby_str_all_whitespace(&RubyValue::new(word)), Blank::Known(None));
    }
}

#[test]
fn new_string_answers_text_with_a_string() {
    match ruby_new_string(&string_value(b"anything", UTF8)) {
        Outbound::Utf8String(text) => assert_eq!(text, "asd"),
        _ => panic!("a string was expected"),
    }
    match ruby_new_string(&string_value(b"", US_ASCII)) {
        Outbound::Utf8String(text) => assert_eq!(text, "asd"),
        _ => panic!("a string was expected"),
    }
}

#[test]
fn new_string_answers_anything_else_with_nil() {
    let others = [
        RubyValue::new(0x08),
        RubyValue::new(0x14),
        RubyValue::new(0x03),
        RubyValue::new(0x7f00_1000),
        string_value(&[0xff], UTF8),
        string_value(b"abc", LATIN1),
    ];
    for value in others.iter() {
        match ruby_new_string(value) {
            Outbound::Ready(nil) => assert_eq!(nil.word, 0x08),
            _ => panic!("nil was expected"),
        }
    }
}

#[test]
fn plan_of_the_extension() {
    let blank = Callback { pointer: 0x4010, argc: 1 };
    let fresh = Callback { pointer: 0x4020, argc: 1 };
    let plan = Init_libemery(&RubyValue::new(0x7f00_2000), blank, fresh);
    let summary: Vec<(Scope, &str, Entry)> =
        plan.iter().map(|d| (d.scope, d.name.as_str(), d.entry)).collect();
    assert_eq!(
        summary,
        vec![
            (Scope::Global, "EMERY", Entry::Module),
            (Scope::Planned(0), "EMERY", Entry::Constant { value: 0x7f00_2000 }),
            (Scope::Planned(0), "all_whitespace?", Entry::ModuleFunction { callback: blank }),
            (Scope::Planned(0), "new_string", Entry::ModuleFunction { callback: fresh }),
        ]
    );
}
