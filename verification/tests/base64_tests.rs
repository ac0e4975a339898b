use cvdoc::base64_to_buffer;
use cvdoc::buffer_to_base64;
use cvdoc::DocError;

#[test]
fn encode_gives_standard_padded_text() {
    assert_eq!(buffer_to_base64(&b"hello".to_vec()), "aGVsbG8=");
    assert_eq!(buffer_to_base64(&b"".to_vec()), "");
    assert_eq!(buffer_to_base64(&vec![0xFF, 0xEF]), "/+8=");
}

#[test]
fn decode_reverses_encode() {
    let data: Vec<u8> = (0u16..=255).map(|b| b as u8).collect();
    let text = buffer_to_base64(&data);
    let back = base64_to_buffer(&text).unwrap();
    assert_eq!(back, data);
}

#[test]
fn decode_exact_value() {
    assert_eq!(base64_to_buffer("aGVsbG8=").unwrap(), b"hello".to_vec());
}

#[test]
fn malformed_base64_is_invalid_input() {
    let err = base64_to_buffer("!!!not base64!!!").unwrap_err();
    assert!(matches!(err, DocError::InvalidInput(_)));
    assert!(err.message().starts_with("Failed to decode Base64"));
    let err2 = base64_to_buffer("abc").unwrap_err();
    assert!(matches!(err2, DocError::InvalidInput(_)));
}
