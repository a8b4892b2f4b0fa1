use iroh_ffi::author::{
    author_secret_from_hex, iroh_author_id_to_hex, iroh_author_secret_to_hex, IrohAuthorId,
    IrohAuthorSecret,
};
use iroh_ffi::buffer::TextArg;
use iroh_ffi::error::{decimal_text, ArgName, BridgeError};

#[test]
fn secret_to_hex_is_lowercase_pairs() {
    let mut bytes = [0u8; 32];
    bytes[0] = 0xab;
    bytes[1] = 0x01;
    bytes[31] = 0xff;
    let s = iroh_author_secret_to_hex(IrohAuthorSecret { bytes });
    assert_eq!(s.len(), 64);
    assert!(s.starts_with("ab01"));
    assert!(s.ends_with("ff"));
    assert_eq!(&s[4..62], "0".repeat(58));
}

#[test]
fn id_to_hex_writes_every_byte() {
    let s = iroh_author_id_to_hex(IrohAuthorId { bytes: [0x5a; 32] });
    assert_eq!(s, "5a".repeat(32));
}

#[test]
fn secret_hex_round_trip() {
    let mut bytes = [0u8; 32];
    for (i, b) in bytes.iter_mut().enumerate() {
        *b = (i * 9) as u8;
    }
    let text = iroh_author_secret_to_hex(IrohAuthorSecret { bytes });
    let back = author_secret_from_hex(TextArg::Text(text)).unwrap();
    assert_eq!(back.bytes, bytes);
}

#[test]
fn secret_from_uppercase_hex() {
    let back = author_secret_from_hex(TextArg::Text("AB".repeat(32))).unwrap();
    assert_eq!(back.bytes, [0xab; 32]);
}

#[test]
fn secret_from_hex_rejects_null() {
    let e = author_secret_from_hex(TextArg::Null).unwrap_err();
    assert_eq!(e, BridgeError::NullArgument(ArgName::SecretHex));
    assert_eq!(e.message(), "secret_hex cannot be null");
}

#[test]
fn secret_from_hex_rejects_bad_utf8() {
    let e = author_secret_from_hex(TextArg::NotUtf8("invalid utf-8 sequence".to_string())).unwrap_err();
    assert_eq!(e.message(), "Invalid UTF-8 in secret_hex: invalid utf-8 sequence");
}

#[test]
fn secret_from_hex_rejects_non_hex() {
    let e = author_secret_from_hex(TextArg::Text("zz".repeat(32))).unwrap_err();
    assert!(matches!(e, BridgeError::InvalidHex(_)));
    assert!(e.message().starts_with("Invalid hex string: "));
    let odd = author_secret_from_hex(TextArg::Text("abc".to_string())).unwrap_err();
    assert!(matches!(odd, BridgeError::InvalidHex(_)));
}

#[test]
fn secret_from_hex_rejects_wrong_length() {
    let e = author_secret_from_hex(TextArg::Text("abcd".to_string())).unwrap_err();
    assert_eq!(e, BridgeError::InvalidSecretLength(2));
    assert_eq!(e.message(), "Invalid secret length: expected 32 bytes, got 2");
    let long = author_secret_from_hex(TextArg::Text("00".repeat(33))).unwrap_err();
    assert_eq!(long.message(), "Invalid secret length: expected 32 bytes, got 33");
    let empty = author_secret_from_hex(TextArg::Text(String::new())).unwrap_err();
    assert_eq!(empty, BridgeError::InvalidSecretLength(0));
}

#[test]
fn decimal_text_writes_digits() {
    assert_eq!(decimal_text(0), "0");
    assert_eq!(decimal_text(7), "7");
    assert_eq!(decimal_text(10), "10");
    assert_eq!(decimal_text(1234), "1234");
}

#[test]
fn every_error_has_its_message() {
    assert_eq!(BridgeError::NullArgument(ArgName::StoragePath).message(), "storage_path cannot be null");
    assert_eq!(
        BridgeError::InvalidUtf8(ArgName::CustomRelayUrl, "d".to_string()).message(),
        "Invalid UTF-8 in custom_relay_url: d"
    );
    assert_eq!(BridgeError::StaleHandle(ArgName::DocHandle).message(), "doc_handle does not refer to a live object");
    assert_eq!(BridgeError::DocsNotEnabled.message(), "docs not enabled on this node");
    assert_eq!(BridgeError::InvalidHex("x".to_string()).message(), "Invalid hex string: x");
    assert_eq!(BridgeError::Timeout.message(), "Operation timed out");
    assert_eq!(BridgeError::Native("store failed".to_string()).message(), "store failed");
    assert_eq!(BridgeError::NullArgument(ArgName::TagName).message(), "tag_name cannot be null");
}
