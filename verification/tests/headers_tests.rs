use protin::headers::{InvalidHeaderValue, XApiKey, XApiKeyError, X_API_KEY_HEADER_NAME};

#[test]
fn header_name() {
    assert_eq!(X_API_KEY_HEADER_NAME, "x-api-key");
}

#[test]
fn missing_header() {
    assert_eq!(XApiKey::from_header_value(None), Err(XApiKeyError::MissingHeader));
}

#[test]
fn visible_ascii_header_is_read() {
    let key = XApiKey::from_header_value(Some(b"abc 123\t~")).unwrap();
    assert_eq!(key, XApiKey("abc 123\t~".to_string()));
    assert_eq!(XApiKey::from_header_value(Some(b"")).unwrap().0, "");
}

#[test]
fn non_visible_header_is_rejected() {
    assert_eq!(XApiKey::from_header_value(Some(b"ab\x7f")), Err(XApiKeyError::NotVisibleAscii));
    assert_eq!(XApiKey::from_header_value(Some(&[0xc3, 0xa9])), Err(XApiKeyError::NotVisibleAscii));
    assert_eq!(XApiKey::from_header_value(Some(b"a\nb")), Err(XApiKeyError::NotVisibleAscii));
}

#[test]
fn header_value_bytes() {
    assert_eq!(XApiKey("key-1".to_string()).to_header_value(), Ok(b"key-1".to_vec()));
    assert_eq!(XApiKey("é".to_string()).to_header_value(), Ok(vec![0xc3, 0xa9]));
    assert_eq!(XApiKey("a\nb".to_string()).to_header_value(), Err(InvalidHeaderValue));
    assert_eq!(XApiKey("a\u{7f}".to_string()).to_header_value(), Err(InvalidHeaderValue));
}

#[test]
fn visible_key_round_trips() {
    let key = XApiKey("s3cr3t key\t!".to_string());
    let value = key.to_header_value().unwrap();
    assert_eq!(XApiKey::from_header_value(Some(&value)), Ok(key));
}

#[test]
fn non_ascii_key_is_written_but_not_read_back() {
    let value = XApiKey("é".to_string()).to_header_value().unwrap();
    assert_eq!(XApiKey::from_header_value(Some(&value)), Err(XApiKeyError::NotVisibleAscii));
}
