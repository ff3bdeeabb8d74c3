use termusic::codec::decode_text;

#[test]
fn decode_text_reads_base64() {
    assert_eq!(decode_text("aGVsbG8="), Some("hello".to_string()));
    assert_eq!(decode_text(""), Some(String::new()));
    assert_eq!(decode_text("5pyq55+l"), Some("未知".to_string()));
}

#[test]
fn decode_text_round_trip() {
    for text in ["x", "two words", "tab\tand\nnewline", "ünïcödé", "日本語のテキスト"] {
        assert_eq!(decode_text(&base64::encode(text)), Some(text.to_string()));
    }
}

#[test]
fn decode_text_refuses_what_is_not_base64() {
    assert_eq!(decode_text("a"), None);
    assert_eq!(decode_text("****"), None);
    assert_eq!(decode_text("aGVs bG8="), None);
    assert_eq!(decode_text("未知"), None);
}

#[test]
fn decode_text_refuses_bytes_that_are_not_text() {
    assert_eq!(decode_text(&base64::encode([0xc3u8, 0x28])), None);
    assert_eq!(decode_text(&base64::encode([0x80u8])), None);
    assert_eq!(decode_text(&base64::encode([0xedu8, 0xa0, 0x80])), None);
}
