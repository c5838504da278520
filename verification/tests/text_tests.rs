//! Decoding of zero-terminated clipboard text payloads.

use clipwatch::text::clipboard_text;

#[test]
fn text_before_the_terminator_is_returned() {
    let payload = b"hello\0world".to_vec();
    assert_eq!(clipboard_text(&payload), Some("hello".to_string()));
}

#[test]
fn a_leading_terminator_yields_the_empty_text() {
    let payload = b"\0trailing".to_vec();
    assert_eq!(clipboard_text(&payload), Some(String::new()));
}

#[test]
fn multibyte_text_is_decoded() {
    let mut payload = "héllo ✓".as_bytes().to_vec();
    payload.push(0);
    assert_eq!(clipboard_text(&payload), Some("héllo ✓".to_string()));
}

#[test]
fn a_payload_without_terminator_yields_nothing() {
    let payload = b"no terminator".to_vec();
    assert_eq!(clipboard_text(&payload), None);
}

#[test]
fn bytes_that_are_not_utf8_yield_nothing() {
    let payload = vec![0xff, 0xfe, 0x41, 0];
    assert_eq!(clipboard_text(&payload), None);
}
