use rest_dftd4::{DFTD4Error, MESSAGE_BUFFER_LEN};

fn native_buffer(text: &[u8]) -> Vec<u8> {
    let mut b = vec![0u8; MESSAGE_BUFFER_LEN];
    b[..text.len()].copy_from_slice(text);
    b
}

#[test]
fn native_error_hands_out_its_address() {
    let mut e = DFTD4Error::C(0xdead0);
    assert_eq!(e.get_c_ptr(), 0xdead0);
    assert!(matches!(e, DFTD4Error::C(0xdead0)));
}

#[test]
fn local_error_hands_out_null() {
    let mut e = DFTD4Error::Rust("bad".to_string());
    assert_eq!(e.get_c_ptr(), 0);
}

#[test]
fn native_error_is_set_by_status() {
    let e = DFTD4Error::C(8);
    assert!(!e.check(0));
    assert!(e.check(1));
    assert!(e.check(-3));
}

#[test]
fn local_error_is_always_set() {
    let e = DFTD4Error::Rust("bad".to_string());
    assert!(e.check(0));
    assert!(e.check(1));
}

#[test]
fn native_message_stops_at_first_zero() {
    let e = DFTD4Error::C(8);
    let b = native_buffer(b"Unknown method 'x'\0trailing");
    assert_eq!(e.get_message(&b), "Unknown method 'x'");
}

#[test]
fn native_message_without_zero_takes_whole_buffer() {
    let e = DFTD4Error::C(8);
    assert_eq!(e.get_message(b"abc"), "abc");
}

#[test]
fn native_message_decodes_invalid_utf8_lossily() {
    let e = DFTD4Error::C(8);
    let b = native_buffer(b"a\xffb");
    assert_eq!(e.get_message(&b), "a\u{fffd}b");
}

#[test]
fn native_message_of_empty_buffer_is_empty() {
    let e = DFTD4Error::C(8);
    assert_eq!(e.get_message(&native_buffer(b"")), "");
}

#[test]
fn local_message_ignores_buffer() {
    let e = DFTD4Error::Rust("dimension".to_string());
    assert_eq!(e.get_message(&native_buffer(b"native")), "dimension");
}

#[test]
fn debug_text_of_set_and_clear_errors() {
    let e = DFTD4Error::C(8);
    let b = native_buffer(b"boom");
    assert_eq!(e.debug_text(1, &b), "DFTD4Error: boom");
    assert_eq!(e.debug_text(0, &b), "DFTD4Error: No error");
}

#[test]
fn display_text_of_set_and_clear_errors() {
    let e = DFTD4Error::C(8);
    let b = native_buffer(b"boom");
    assert_eq!(e.display_text(1, &b), "DFTD4Error: boom");
    assert_eq!(e.display_text(0, &b), "");
    let l = DFTD4Error::Rust("short".to_string());
    assert_eq!(l.display_text(0, &b), "DFTD4Error: short");
}
