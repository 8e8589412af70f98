use httpcore::method::AllocatedExtension;
use httpcore::method::InlineExtension;
use httpcore::Method;

#[test]
fn test_method_eq() {
    assert_eq!(Method::get(), Method::get());
    assert_eq!(Method::get().as_str(), "GET");
    assert_eq!(&Method::get().as_str(), "GET");

    assert_eq!("GET", Method::get().as_str());
    assert_eq!("GET", &Method::get().as_str());

    assert_eq!(&Method::get(), &Method::get());
    assert_eq!(Method::get(), Method::from_bytes(b"GET").unwrap());
}

#[test]
fn test_invalid_method() {
    assert!(Method::from_bytes("".as_bytes()).is_err());
    assert!(Method::from_bytes(b"").is_err());
    assert!(Method::from_bytes(&[0xC0]).is_err()); // invalid utf-8
    assert!(Method::from_bytes(&[0x10]).is_err()); // invalid method characters
}

#[test]
fn test_is_idempotent() {
    assert!(Method::options().is_idempotent());
    assert!(Method::get().is_idempotent());
    assert!(Method::put().is_idempotent());
    assert!(Method::delete().is_idempotent());
    assert!(Method::head().is_idempotent());
    assert!(Method::trace().is_idempotent());

    assert!(!Method::post().is_idempotent());
    assert!(!Method::connect().is_idempotent());
    assert!(!Method::patch().is_idempotent());
}

#[test]
fn test_extension_method() {
    assert_eq!(Method::from_bytes(b"WOW").unwrap().as_str(), "WOW");
    assert_eq!(Method::from_bytes(b"wOw!!").unwrap().as_str(), "wOw!!");

    let long_method = "This_is_a_very_long_method.It_is_valid_but_unlikely.";
    assert_eq!(
        Method::from_bytes(long_method.as_bytes()).unwrap().as_str(),
        long_method
    );

    let longest_inline_method = [b'A'; 15];
    let from_method = Method::from_bytes(&longest_inline_method).unwrap();
    let from_inline = InlineExtension::new(&longest_inline_method).unwrap();
    assert_eq!(from_method.as_str(), from_inline.as_str());

    let shortest_allocated_method = [b'A'; 16];
    let from_method = Method::from_bytes(&shortest_allocated_method).unwrap();
    let from_allocated = AllocatedExtension::new(&shortest_allocated_method).unwrap();
    assert_eq!(from_method.as_str(), from_allocated.as_str());
}

#[test]
fn test_extension_method_chars() {
    const VALID_METHOD_CHARS: &str =
        "!#$%&'*+-.^_`|~0123456789ABCDEFGHIJKLMNOPQRSTUVWXYZabcdefghijklmnopqrstuvwxyz";

    for c in VALID_METHOD_CHARS.chars() {
        let c = c.to_string();

        assert_eq!(
            Method::from_bytes(c.as_bytes()).unwrap().as_str(),
            c.as_str(),
            "testing {c} is a valid method character"
        );
    }
}

#[test]
fn test_standard_verb_fast_path() {
    // Each of the nine standard verbs round-trips through its text view,
    // and two constructions of the same verb are equal.
    for verb in [
        "GET", "PUT", "POST", "HEAD", "PATCH", "TRACE", "DELETE", "OPTIONS", "CONNECT",
    ] {
        let a = Method::from_bytes(verb.as_bytes()).unwrap();
        let b = Method::from_bytes(verb.as_bytes()).unwrap();
        assert_eq!(a, b);
        assert_eq!(a.as_str(), verb);
    }
    assert_eq!(Method::from_bytes(b"GET").unwrap(), Method::get());
    assert_eq!(Method::from_bytes(b"PUT").unwrap(), Method::put());
    assert_eq!(Method::from_bytes(b"POST").unwrap(), Method::post());
    assert_eq!(Method::from_bytes(b"HEAD").unwrap(), Method::head());
    assert_eq!(Method::from_bytes(b"PATCH").unwrap(), Method::patch());
    assert_eq!(Method::from_bytes(b"TRACE").unwrap(), Method::trace());
    assert_eq!(Method::from_bytes(b"DELETE").unwrap(), Method::delete());
    assert_eq!(Method::from_bytes(b"OPTIONS").unwrap(), Method::options());
    assert_eq!(Method::from_bytes(b"CONNECT").unwrap(), Method::connect());
}

#[test]
fn test_inline_allocated_boundary() {
    // A 15-byte all-letter token fits inline; a 16-byte one allocates.
    // Both yield identical text views, and two separately-constructed
    // values from the same 16-byte content compare equal.
    let inline_token = [b'Q'; 15];
    let m = Method::from_bytes(&inline_token).unwrap();
    assert_eq!(m.as_str(), "QQQQQQQQQQQQQQQ");

    let allocated_token = [b'Q'; 16];
    let a = Method::from_bytes(&allocated_token).unwrap();
    let b = Method::from_bytes(&allocated_token).unwrap();
    assert_eq!(a, b);
    assert_eq!(a.as_str(), "QQQQQQQQQQQQQQQQ");
}

#[test]
fn test_method_safety() {
    assert!(Method::get().is_safe());
    assert!(Method::head().is_safe());
    assert!(Method::options().is_safe());
    assert!(Method::trace().is_safe());
    assert!(!Method::put().is_safe());
    assert!(!Method::delete().is_safe());
    assert!(!Method::post().is_safe());
    assert!(!Method::connect().is_safe());
    assert!(!Method::patch().is_safe());
    assert!(!Method::from_bytes(b"WOW").unwrap().is_safe());
    assert!(!Method::from_bytes(b"WOW").unwrap().is_idempotent());
}

#[test]
fn test_method_default() {
    assert_eq!(Method::default(), Method::get());
}

#[test]
fn test_round_trip_extension() {
    // Re-extracting the text view and re-encoding as bytes reproduces
    // the accepted token exactly.
    for token in ["a", "!#$%", "X-CUSTOM-VERB", "wOw!!", "0123456789abcdef"] {
        let m = Method::from_bytes(token.as_bytes()).unwrap();
        assert_eq!(m.as_str().as_bytes(), token.as_bytes());
    }
}
