//! Texts, numbers, bytes and documents.

use mcservernap::bytes::{
    append_be, append_le, ascii_text, fits_utf16, read_be, read_le, read_utf8, Utf8Fault,
};
use mcservernap::context::ServerContext;
use mcservernap::json::{text_array, ObjectWriter};
use mcservernap::random::hex_text;
use mcservernap::text::{
    append_decimal, characters, find, is_bytes_before, is_text_before, parse_u32, same_bytes,
    same_text, with_context,
};

#[test]
fn contexts_stand_before_their_causes() {
    assert_eq!(with_context("reading", "gone"), "reading: gone");
    assert_eq!(ServerContext::new("survival".to_owned()).id(), "survival");
}

#[test]
fn texts_compare_like_their_bytes() {
    assert!(same_text("ä", "ä"));
    assert!(!same_text("a", "ab"));
    assert!(is_text_before("a", "ab"));
    assert!(is_text_before("a-b", "a0"));
    assert!(!is_text_before("b", "a"));
    assert!(!is_text_before("a", "a"));
    assert!(same_bytes(&[1, 2], &[1, 2]));
    assert!(is_bytes_before(&[1], &[1, 0]));
    assert!(!is_bytes_before(&[2], &[1, 9]));
}

#[test]
fn decimals_are_written_and_read() {
    let mut text = String::new();
    append_decimal(&mut text, 0);
    append_decimal(&mut text, u64::MAX);
    assert_eq!(text, "018446744073709551615");
    for (text, expected) in [
        ("0", Some(0)),
        ("+7", Some(7)),
        ("007", Some(7)),
        ("4294967295", Some(u32::MAX)),
        ("4294967296", None),
        ("", None),
        ("+", None),
        ("-1", None),
        ("1a", None),
    ] {
        let characters = characters(text);
        assert_eq!(
            parse_u32(&characters, 0, characters.len()),
            expected,
            "{text}"
        );
        assert_eq!(text.parse::<u32>().ok(), expected, "{text}");
    }
}

#[test]
fn needles_are_found_from_the_left() {
    let text = characters("one two one");
    assert_eq!(find(&text, &characters("one"), 0), Some(0));
    assert_eq!(find(&text, &characters("one"), 1), Some(8));
    assert_eq!(find(&text, &characters("three"), 0), None);
}

#[test]
fn numbers_survive_bytes() {
    let mut bytes = Vec::new();
    append_be(&mut bytes, 0x0102, 2);
    append_le(&mut bytes, 0x0102, 2);
    assert_eq!(bytes, [1, 2, 2, 1]);
    assert_eq!(read_be(&[1, 2]), 0x0102);
    assert_eq!(read_le(&[1, 2]), 0x0201);
}

#[test]
fn utf8_is_checked() {
    assert_eq!(read_utf8("ä€😀".as_bytes()), Ok("ä€😀"));
    let fault = |valid_up_to, error_len| {
        Err(Utf8Fault {
            valid_up_to,
            error_len,
        })
    };
    assert_eq!(read_utf8(&[0xff]), fault(0, Some(1)));
    assert_eq!(read_utf8(&[0xc0, 0x80]), fault(0, Some(1)));
    assert_eq!(read_utf8(b"a\xc3\xa4\xe2\x82x"), fault(3, Some(2)));
    assert_eq!(read_utf8(b"ab\xe2\x82"), fault(2, None));
    for bytes in [&[0xff][..], b"a\xc3\xa4\xe2\x82x", b"ab\xe2\x82"] {
        assert_eq!(
            read_utf8(bytes).unwrap_err().message(),
            std::str::from_utf8(bytes).unwrap_err().to_string()
        );
    }
    assert_eq!(ascii_text(b"stop"), "stop");
    assert!(fits_utf16("😀", 2));
    assert!(!fits_utf16("😀", 1));
    assert_eq!(hex_text(&[0x00, 0x9f]), "009f");
}

#[test]
fn documents_are_written_in_order() {
    let json = ObjectWriter::new()
        .text("a\"", "b\n\u{1}")
        .number("n", 12)
        .boolean("t", true)
        .json("x", "null")
        .finish();
    assert_eq!(
        json,
        "{\"a\\\"\":\"b\\n\\u0001\",\"n\":12,\"t\":true,\"x\":null}"
    );
    assert_eq!(ObjectWriter::new().finish(), "{}");
    assert_eq!(
        text_array(&vec!["a".to_owned(), "\\".to_owned()]),
        "[\"a\",\"\\\\\"]"
    );
    assert_eq!(text_array(&Vec::new()), "[]");
}
