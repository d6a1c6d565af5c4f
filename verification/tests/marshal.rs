use unity_bridge::marshal::{find_nul, string_in, string_out, to_c_string, DecodeError, NulError};

#[test]
fn find_nul_gives_the_first_zero() {
    assert_eq!(find_nul(&[1, 0, 2, 0]), Some(1));
    assert_eq!(find_nul(&[0]), Some(0));
    assert_eq!(find_nul(&[1, 2, 3]), None);
    assert_eq!(find_nul(&[]), None);
}

#[test]
fn to_c_string_appends_a_terminator() {
    assert_eq!(to_c_string("ab"), Ok(vec![b'a', b'b', 0u8]));
    assert_eq!(to_c_string(""), Ok(vec![0u8]));
    assert_eq!(to_c_string("é"), Ok(vec![0xc3, 0xa9, 0u8]));
}

#[test]
fn to_c_string_reports_the_first_zero() {
    assert_eq!(to_c_string("ab\0c\0"), Err(NulError { position: 2 }));
    assert_eq!(to_c_string("\0"), Err(NulError { position: 0 }));
    assert_eq!(to_c_string("é\0"), Err(NulError { position: 2 }));
}

#[test]
fn string_out_appends_a_terminator() {
    assert_eq!(string_out("abc"), vec![b'a', b'b', b'c', 0u8]);
    assert_eq!(string_out(""), vec![0u8]);
}

#[test]
fn string_out_falls_back_to_an_empty_list() {
    assert_eq!(string_out("a\0b"), vec![b'[', b']', 0u8]);
}

#[test]
fn string_out_ends_in_its_only_zero() {
    for text in ["", "plain", "with\0zero", "[]"] {
        let buffer = string_out(text);
        assert_eq!(find_nul(&buffer), Some(buffer.len() - 1));
    }
}

#[test]
fn string_in_reads_up_to_the_terminator() {
    let bytes: &[u8] = b"plugin\0rest";
    assert_eq!(string_in(Some(bytes)), Ok("plugin".to_string()));
    let empty: &[u8] = b"\0";
    assert_eq!(string_in(Some(empty)), Ok(String::new()));
}

#[test]
fn string_in_decodes_utf8() {
    let bytes: &[u8] = &[0xe2, 0x82, 0xac, 0x31, 0x00];
    assert_eq!(string_in(Some(bytes)), Ok("€1".to_string()));
}

#[test]
fn string_in_undoes_string_out() {
    let buffer = string_out("round trip");
    assert_eq!(string_in(Some(&buffer)), Ok("round trip".to_string()));
}

#[test]
fn string_in_rejects_a_null_pointer() {
    assert_eq!(string_in(None), Err(DecodeError::NullPointer));
}

#[test]
fn string_in_rejects_unterminated_bytes() {
    let bytes: &[u8] = b"plugin";
    assert_eq!(string_in(Some(bytes)), Err(DecodeError::MissingTerminator));
    let none: &[u8] = &[];
    assert_eq!(string_in(Some(none)), Err(DecodeError::MissingTerminator));
}

#[test]
fn string_in_rejects_invalid_utf8() {
    let bytes: &[u8] = &[0x66, 0xff, 0x00];
    match string_in(Some(bytes)) {
        Err(DecodeError::InvalidUtf8 { reason }) => {
            assert_eq!(reason, "invalid utf-8 sequence of 1 bytes from index 1");
        }
        other => panic!("unexpected result: {:?}", other),
    }
    let cut: &[u8] = &[0xe2, 0x82, 0x00];
    assert!(matches!(string_in(Some(cut)), Err(DecodeError::InvalidUtf8 { .. })));
}

#[test]
fn decode_errors_describe_themselves() {
    assert_eq!(DecodeError::NullPointer.message(), "null pointer");
    assert_eq!(DecodeError::MissingTerminator.message(), "missing nul terminator");
    let err = DecodeError::InvalidUtf8 { reason: "why".to_string() };
    assert_eq!(err.message(), "why");
}
