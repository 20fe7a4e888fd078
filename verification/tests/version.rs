use flovyn_sdk::common::version::{ParseVersionError, SemanticVersion};

#[test]
fn test_new() {
    let v = SemanticVersion::new(1, 2, 3);
    assert_eq!(v.major, 1);
    assert_eq!(v.minor, 2);
    assert_eq!(v.patch, 3);
}

#[test]
fn test_default() {
    let v = SemanticVersion::default();
    assert_eq!(v, SemanticVersion::new(1, 0, 0));
}

#[test]
fn test_display() {
    let v = SemanticVersion::new(1, 2, 3);
    assert_eq!(v.to_string(), "1.2.3");
}

#[test]
fn test_parse_valid() {
    let v: SemanticVersion = "1.2.3".parse().unwrap();
    assert_eq!(v, SemanticVersion::new(1, 2, 3));

    let v: SemanticVersion = "0.0.0".parse().unwrap();
    assert_eq!(v, SemanticVersion::new(0, 0, 0));

    let v: SemanticVersion = "100.200.300".parse().unwrap();
    assert_eq!(v, SemanticVersion::new(100, 200, 300));
}

#[test]
fn test_parse_invalid_format() {
    let result: Result<SemanticVersion, _> = "1.2".parse();
    assert!(matches!(result, Err(ParseVersionError::InvalidFormat(_))));

    let result: Result<SemanticVersion, _> = "1.2.3.4".parse();
    assert!(matches!(result, Err(ParseVersionError::InvalidFormat(_))));

    let result: Result<SemanticVersion, _> = "1".parse();
    assert!(matches!(result, Err(ParseVersionError::InvalidFormat(_))));
}

#[test]
fn test_parse_invalid_number() {
    let result: Result<SemanticVersion, _> = "a.2.3".parse();
    assert!(matches!(result, Err(ParseVersionError::InvalidNumber(_))));

    let result: Result<SemanticVersion, _> = "1.b.3".parse();
    assert!(matches!(result, Err(ParseVersionError::InvalidNumber(_))));

    let result: Result<SemanticVersion, _> = "1.2.c".parse();
    assert!(matches!(result, Err(ParseVersionError::InvalidNumber(_))));
}

#[test]
fn test_ordering() {
    let v1 = SemanticVersion::new(1, 0, 0);
    let v2 = SemanticVersion::new(2, 0, 0);
    let v3 = SemanticVersion::new(1, 1, 0);
    let v4 = SemanticVersion::new(1, 0, 1);

    assert!(v1 < v2);
    assert!(v1 < v3);
    assert!(v1 < v4);
    assert!(v3 < v2);
    assert!(v4 < v3);
}

#[test]
fn test_is_compatible_with() {
    let v1 = SemanticVersion::new(1, 0, 0);
    let v2 = SemanticVersion::new(1, 5, 3);
    let v3 = SemanticVersion::new(2, 0, 0);

    assert!(v1.is_compatible_with(&v2));
    assert!(v2.is_compatible_with(&v1));
    assert!(!v1.is_compatible_with(&v3));
}

#[test]
fn test_increment() {
    let v = SemanticVersion::new(1, 2, 3);

    assert_eq!(v.increment_major(), SemanticVersion::new(2, 0, 0));
    assert_eq!(v.increment_minor(), SemanticVersion::new(1, 3, 0));
    assert_eq!(v.increment_patch(), SemanticVersion::new(1, 2, 4));
}

#[test]
fn version_text_round_trips() {
    for v in [
        SemanticVersion::new(0, 0, 0),
        SemanticVersion::new(1, 22, 333),
        SemanticVersion::new(u32::MAX, 7, 4_000_000_000),
    ] {
        let parsed: SemanticVersion = v.to_string().parse().unwrap();
        assert_eq!(parsed, v);
    }
}

#[test]
fn parse_error_messages() {
    let e = SemanticVersion::from_str("1.2").unwrap_err();
    assert_eq!(e.to_string(), "Invalid version format: '1.2' (expected X.Y.Z)");
    let e = SemanticVersion::from_str("1.x.3").unwrap_err();
    assert_eq!(e.to_string(), "Invalid version number: 'x'");
}

#[test]
fn parse_rejects_empty_and_overflowing_components() {
    assert!(matches!(SemanticVersion::from_str("1..3"), Err(ParseVersionError::InvalidNumber(_))));
    assert!(matches!(
        SemanticVersion::from_str("4294967296.0.0"),
        Err(ParseVersionError::InvalidNumber(_))
    ));
    assert_eq!(
        SemanticVersion::from_str("4294967295.0.0").unwrap(),
        SemanticVersion::new(u32::MAX, 0, 0)
    );
}

#[test]
fn ordering_is_lexicographic_on_components() {
    assert!(SemanticVersion::new(1, 9, 9) < SemanticVersion::new(2, 0, 0));
    assert!(SemanticVersion::new(1, 2, 3) <= SemanticVersion::new(1, 2, 3));
    assert!(!(SemanticVersion::new(1, 2, 3) < SemanticVersion::new(1, 2, 3)));
    assert!(SemanticVersion::new(1, 2, 3) < SemanticVersion::new(1, 2, 3).increment_patch());
}
