use souko::scheme::Scheme;

#[test]
fn test_parse_scheme() {
    assert!(Scheme::from_str("foo123").is_ok());
    assert!(Scheme::from_str("fo").is_ok());
    assert!(Scheme::from_str("fo+.-").is_ok());
    assert!(Scheme::from_str("foo_bar").is_err());
    assert!(Scheme::from_str("23foo").is_err());
}

#[test]
fn test_parse() {
    assert!(Scheme::from_str("foo123").is_ok());
    assert!(Scheme::from_str("fo").is_ok());
    assert!(Scheme::from_str("fo+.-").is_ok());
    assert!(Scheme::from_str("foo_bar").is_err());
    assert!(Scheme::from_str("23foo").is_err());
}

#[test]
fn scheme_keeps_its_text() {
    let s = Scheme::from_str("git+ssh").unwrap();
    assert_eq!(s.as_str(), "git+ssh");
}

#[test]
fn scheme_rejects_empty_and_names_it() {
    let err = Scheme::from_str("").unwrap_err();
    assert_eq!(err.message(), "invalid URL scheme ``");
    let err = Scheme::from_str("a b").unwrap_err();
    assert_eq!(err.message(), "invalid URL scheme `a b`");
    assert!(Scheme::from_str("a").is_err());
}
