use bytes::Bytes;
use httpcore::ByteStr;

#[test]
fn test_byte_str_new_and_default() {
    let empty = ByteStr::new();
    assert!(empty.is_empty());
    assert_eq!(empty.len(), 0);
    assert_eq!(empty, ByteStr::default());
    assert_eq!(empty.as_str(), "");
}

#[test]
fn test_from_static() {
    let s = ByteStr::from_static("hello world");
    assert_eq!(s.len(), 11);
    assert_eq!(s.as_str(), "hello world");
    assert_eq!(s.as_bytes().as_ref(), b"hello world");
}

#[test]
fn test_from_utf8() {
    let ok = ByteStr::from_utf8(Bytes::from_static(b"valid text")).unwrap();
    assert_eq!(ok.as_str(), "valid text");

    let non_ascii = ByteStr::from_utf8(Bytes::from_static("héllo".as_bytes())).unwrap();
    assert_eq!(non_ascii.as_str(), "héllo");

    assert!(ByteStr::from_utf8(Bytes::from_static(&[0xC0])).is_err());
    assert!(ByteStr::from_utf8(Bytes::from_static(&[0xE7, 0x20])).is_err());
}

#[test]
fn test_from_utf8_unchecked() {
    let s = ByteStr::from_utf8_unchecked(Bytes::from_static(b"already checked"));
    assert_eq!(s.as_str(), "already checked");
}

#[test]
fn test_conversions_and_eq() {
    let owned = ByteStr::from_string(String::from("shared"));
    let borrowed = ByteStr::from_str("shared");
    assert_eq!(owned, borrowed);
    assert_eq!(owned.as_str(), "shared");
    assert!(owned != ByteStr::from_str("other"));
}
