use httpcore::StatusCode;

#[test]
fn test_from_u16_boundaries() {
    assert!(StatusCode::from_u16(99).is_err());
    assert!(StatusCode::from_u16(1000).is_err());
    assert!(StatusCode::from_u16(0).is_err());
    assert_eq!(StatusCode::from_u16(100).unwrap().as_u16(), 100);
    assert_eq!(StatusCode::from_u16(999).unwrap().as_u16(), 999);
    assert_eq!(StatusCode::from_u16(200).unwrap(), StatusCode::ok());
}

#[test]
fn test_from_bytes_boundaries() {
    assert!(StatusCode::from_bytes(b"099").is_err()); // leading zero
    assert!(StatusCode::from_bytes(b"99").is_err()); // wrong length
    assert!(StatusCode::from_bytes(b"1000").is_err()); // wrong length
    assert!(StatusCode::from_bytes(b"2x0").is_err()); // non-digit
    assert!(StatusCode::from_bytes(b"").is_err());
    assert_eq!(StatusCode::from_bytes(b"200").unwrap(), StatusCode::ok());
    assert_eq!(StatusCode::from_bytes(b"100").unwrap().as_u16(), 100);
    assert_eq!(StatusCode::from_bytes(b"999").unwrap().as_u16(), 999);
}

#[test]
fn test_classification() {
    assert!(StatusCode::from_u16(100).unwrap().is_informational());
    assert!(StatusCode::from_u16(199).unwrap().is_informational());
    assert!(StatusCode::from_u16(200).unwrap().is_success());
    assert!(StatusCode::from_u16(299).unwrap().is_success());
    assert!(StatusCode::from_u16(300).unwrap().is_redirection());
    assert!(StatusCode::from_u16(400).unwrap().is_client_error());
    assert!(StatusCode::from_u16(500).unwrap().is_server_error());
    assert!(StatusCode::from_u16(599).unwrap().is_server_error());

    // 600 is legal but unclassified: none of the five classes match.
    let unclassified = StatusCode::from_u16(600).unwrap();
    assert!(!unclassified.is_informational());
    assert!(!unclassified.is_success());
    assert!(!unclassified.is_redirection());
    assert!(!unclassified.is_client_error());
    assert!(!unclassified.is_server_error());
}

#[test]
fn test_as_str() {
    assert_eq!(StatusCode::ok().as_str(), "200");
    assert_eq!(StatusCode::from_u16(404).unwrap().as_str(), "404");
    assert_eq!(StatusCode::from_u16(100).unwrap().as_str(), "100");
    assert_eq!(StatusCode::from_u16(999).unwrap().as_str(), "999");
}

#[test]
fn test_canonical_reason() {
    assert_eq!(StatusCode::ok().canonical_reason(), Some("OK"));
    assert_eq!(
        StatusCode::from_u16(404).unwrap().canonical_reason(),
        Some("Not Found")
    );
    assert_eq!(
        StatusCode::from_u16(418).unwrap().canonical_reason(),
        Some("I'm a teapot")
    );
    assert_eq!(
        StatusCode::from_u16(511).unwrap().canonical_reason(),
        Some("Network Authentication Required")
    );
    assert_eq!(StatusCode::from_u16(299).unwrap().canonical_reason(), None);
    assert_eq!(StatusCode::from_u16(600).unwrap().canonical_reason(), None);
}

#[test]
fn test_display() {
    assert_eq!(StatusCode::ok().to_display_string(), "200 OK");
    assert_eq!(
        StatusCode::from_u16(404).unwrap().to_display_string(),
        "404 Not Found"
    );
    assert_eq!(
        StatusCode::from_u16(600).unwrap().to_display_string(),
        "600 <unknown status code>"
    );
}

#[test]
fn test_status_new_and_default() {
    assert_eq!(StatusCode::new(), StatusCode::ok());
    assert_eq!(StatusCode::default(), StatusCode::ok());
    assert_eq!(StatusCode::new().as_u16(), 200);
}
