use tre_regex::{BindingErrorCode, ErrorKind, RegexError, REG_BADPAT, REG_EBRACK};

#[test]
fn regerror_buffer_missing_bracket() {
    let e = RegexError::from_message_buffer(7, b"Missing ']'\0");
    assert_eq!(e.kind, ErrorKind::Tre(REG_EBRACK));
    assert_eq!(e.error, "Missing ']'");
}

#[test]
fn regerror_buffer_keeps_code_and_text() {
    let e = RegexError::from_message_buffer(2, b"Invalid regexp\0");
    assert_eq!(e.kind, ErrorKind::Tre(REG_BADPAT));
    assert_eq!(e.error, "Invalid regexp");
}

#[test]
fn regerror_buffer_multibyte_text() {
    let e = RegexError::from_message_buffer(1, "Kein Treffer: \u{e4}\0".as_bytes());
    assert_eq!(e.kind, ErrorKind::Tre(1));
    assert_eq!(e.error, "Kein Treffer: \u{e4}");
}

#[test]
fn regerror_buffer_without_nul() {
    let e = RegexError::from_message_buffer(7, b"Missing ']'");
    assert_eq!(e.kind, ErrorKind::Binding(BindingErrorCode::CSTRING));
    assert_eq!(
        e.error,
        "Could not convert error buffer to C string: data provided is not nul terminated"
    );
}

#[test]
fn regerror_buffer_empty() {
    let e = RegexError::from_message_buffer(7, b"");
    assert_eq!(e.kind, ErrorKind::Binding(BindingErrorCode::CSTRING));
}

#[test]
fn regerror_buffer_interior_nul() {
    let e = RegexError::from_message_buffer(7, b"a\0b\0");
    assert_eq!(e.kind, ErrorKind::Binding(BindingErrorCode::CSTRING));
    assert_eq!(
        e.error,
        "Could not convert error buffer to C string: data provided contains an interior nul byte at pos 1"
    );
}

#[test]
fn regerror_buffer_not_utf8() {
    let e = RegexError::from_message_buffer(7, b"ab\xff\0");
    assert_eq!(e.kind, ErrorKind::Binding(BindingErrorCode::ENCODING));
    assert!(e.error.starts_with("Could not encode error string to UTF-8: "));
}

#[test]
fn regerror_buffer_only_nul() {
    let e = RegexError::from_message_buffer(12, b"\0");
    assert_eq!(e.kind, ErrorKind::Tre(12));
    assert_eq!(e.error, "");
}

#[test]
fn regex_error_new_keeps_parts() {
    let e = RegexError::new(ErrorKind::Binding(BindingErrorCode::ENCODING), "bad bytes");
    assert_eq!(e.kind, ErrorKind::Binding(BindingErrorCode::ENCODING));
    assert_eq!(e.error, "bad bytes");
}

#[test]
fn vacant_error_kind_and_message() {
    let e = RegexError::vacant();
    assert_eq!(e.kind, ErrorKind::Binding(BindingErrorCode::REGEX_VACANT));
    assert_eq!(e.error, "Attempted to unwrap a vacant Regex object");
}
