use httpcore::HeaderValue;
use httpcore::Method;

#[test]
fn test_try_from() {
    assert!(HeaderValue::from_bytes(&[127]).is_err());
}

#[test]
fn test_debug() {
    let cases = &[
        ("hello", "\"hello\""),
        ("hello \"world\"", "\"hello \\\"world\\\"\""),
        ("\u{7FFF}hello", "\"\\xe7\\xbf\\xbfhello\""),
    ];

    for &(value, expected) in cases {
        let val = HeaderValue::from_bytes(value.as_bytes()).unwrap();
        let actual = val.debug_render();
        assert_eq!(expected, actual);
    }

    let mut sensitive = HeaderValue::from_static("password");
    sensitive.set_sensitive(true);
    assert_eq!("Sensitive", sensitive.debug_render());
}

#[test]
fn test_value_boundaries() {
    // "\n" is rejected, "\t" is accepted, DEL is rejected, and an opaque
    // octet is accepted but has no text form.
    assert!(HeaderValue::from_bytes(b"\n").is_err());
    assert!(HeaderValue::from_str("\n").is_err());
    let tab = HeaderValue::from_bytes(b"\t").unwrap();
    assert_eq!(tab.to_str().unwrap(), "\t");
    assert!(HeaderValue::from_bytes(&[127]).is_err());
    let opaque = HeaderValue::from_bytes(&[200]).unwrap();
    assert_eq!(opaque.as_bytes(), &[200]);
    assert!(opaque.to_str().is_err());
}

#[test]
fn test_sensitivity_excluded_from_eq_and_ord() {
    let mut a = HeaderValue::from_bytes(b"secret").unwrap();
    let b = HeaderValue::from_bytes(b"secret").unwrap();
    a.set_sensitive(true);
    assert!(a.is_sensitive());
    assert!(!b.is_sensitive());
    assert_eq!(a == b, true);
    assert_eq!(a.partial_cmp(&b), Some(std::cmp::Ordering::Equal));
    assert_eq!(b.partial_cmp(&a), Some(std::cmp::Ordering::Equal));

    a.set_sensitive(false);
    assert!(!a.is_sensitive());
    assert!(a == b);
}

#[test]
fn test_ordering_by_bytes() {
    let a = HeaderValue::from_bytes(b"abc").unwrap();
    let b = HeaderValue::from_bytes(b"abd").unwrap();
    let c = HeaderValue::from_bytes(b"abcd").unwrap();
    assert_eq!(a.partial_cmp(&b), Some(std::cmp::Ordering::Less));
    assert_eq!(b.partial_cmp(&a), Some(std::cmp::Ordering::Greater));
    assert_eq!(a.partial_cmp(&c), Some(std::cmp::Ordering::Less));
    assert_eq!(a.partial_cmp(&a), Some(std::cmp::Ordering::Equal));
}

#[test]
fn test_from_static_and_accessors() {
    let val = HeaderValue::from_static("hello");
    assert_eq!(val.as_bytes(), b"hello");
    assert_eq!(val.to_str().unwrap(), "hello");
    assert_eq!(val.len(), 5);
    assert!(!val.is_empty());
    assert!(HeaderValue::from_static("").is_empty());
}

#[test]
fn test_from_shared_buffers() {
    let src = bytes::Bytes::from_static(b"shared value");
    let val = HeaderValue::from_maybe_shared(src).unwrap();
    assert_eq!(val.as_bytes(), b"shared value");

    let bad = bytes::Bytes::from_static(b"bad\x00value");
    assert!(HeaderValue::from_maybe_shared(bad).is_err());

    let trusted = bytes::Bytes::from_static(b"known good");
    let val = HeaderValue::from_maybe_shared_unchecked(trusted);
    assert_eq!(val.as_bytes(), b"known good");
}

#[test]
fn test_from_method() {
    let m = Method::from_bytes(b"PATCH").unwrap();
    let val = HeaderValue::from_method(&m);
    assert_eq!(val.as_bytes(), b"PATCH");
    let wow = Method::from_bytes(b"wOw!!").unwrap();
    assert_eq!(HeaderValue::from_method(&wow).as_bytes(), b"wOw!!");
}

#[test]
fn test_integer_conversions() {
    assert_eq!(HeaderValue::from_u16(55).as_bytes(), b"55");
    assert_eq!(HeaderValue::from_u16(u16::MAX).as_bytes(), b"65535");
    assert_eq!(HeaderValue::from_i16(-55).as_bytes(), b"-55");
    assert_eq!(HeaderValue::from_i16(i16::MIN).as_bytes(), b"-32768");
    assert_eq!(HeaderValue::from_u32(u32::MAX).as_bytes(), b"4294967295");
    assert_eq!(HeaderValue::from_i32(i32::MIN).as_bytes(), b"-2147483648");
    assert_eq!(HeaderValue::from_u64(0).as_bytes(), b"0");
    assert_eq!(
        HeaderValue::from_u64(u64::MAX).as_bytes(),
        b"18446744073709551615"
    );
    assert_eq!(
        HeaderValue::from_i64(i64::MIN).as_bytes(),
        b"-9223372036854775808"
    );
    assert_eq!(HeaderValue::from_usize(777).as_bytes(), b"777");
    assert_eq!(HeaderValue::from_isize(-777).as_bytes(), b"-777");
    assert_eq!(HeaderValue::from_u64(55).to_str().unwrap(), "55");
}

#[test]
fn test_from_str_opaque_asymmetry() {
    // A non-ASCII string encodes to bytes above 127, which are valid
    // opaque octets on construction yet rejected by text extraction.
    let val = HeaderValue::from_str("caf\u{e9}").unwrap();
    assert_eq!(val.as_bytes(), "caf\u{e9}".as_bytes());
    assert!(val.to_str().is_err());

    // The same holds for a static literal: opaque octets are permitted
    // at construction.
    let val = HeaderValue::from_static("caf\u{e9}");
    assert_eq!(val.as_bytes(), "caf\u{e9}".as_bytes());
    assert!(val.to_str().is_err());
}

#[test]
fn test_debug_low_byte_escapes() {
    // A tab is valid and visible, so it is not escaped; opaque octets
    // render as two lowercase hex digits.
    let val = HeaderValue::from_bytes(b"a\tb").unwrap();
    assert_eq!(val.debug_render(), "\"a\tb\"");
    let val = HeaderValue::from_bytes(&[b'x', 0x85]).unwrap();
    assert_eq!(val.debug_render(), "\"x\\x85\"");
    let val = HeaderValue::from_bytes(&[0xE7]).unwrap();
    assert_eq!(val.debug_render(), "\"\\xe7\"");
}
