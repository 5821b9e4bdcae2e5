use filen_menubar::update::{
    parse_u32, http_failure, is_newer, latest_release_url, parse_version, release_request_args,
    update_from_release, UpdateError, CURRENT_VERSION,
};

#[test]
fn test_parse_version_plain() {
    assert_eq!(parse_version("1.2.3"), Some((1, 2, 3)));
    assert_eq!(parse_version("0.1.22"), Some((0, 1, 22)));
}

#[test]
fn test_parse_version_with_v_prefix() {
    assert_eq!(parse_version("v1.2.3"), Some((1, 2, 3)));
    assert_eq!(parse_version("V0.1.23"), Some((0, 1, 23)));
}

#[test]
fn test_parse_version_with_whitespace() {
    assert_eq!(parse_version("  v1.2.3  "), Some((1, 2, 3)));
}

#[test]
fn test_parse_version_strips_prerelease_suffix() {
    assert_eq!(parse_version("v1.2.3-beta.1"), Some((1, 2, 3)));
    assert_eq!(parse_version("1.2.3+build5"), Some((1, 2, 3)));
}

#[test]
fn test_parse_version_invalid() {
    assert_eq!(parse_version(""), None);
    assert_eq!(parse_version("1.2"), None);
    assert_eq!(parse_version("not-a-version"), None);
    assert_eq!(parse_version("1.x.3"), None);
}

#[test]
fn test_is_newer_patch() {
    assert!(is_newer((0, 1, 23), (0, 1, 22)));
    assert!(!is_newer((0, 1, 22), (0, 1, 22)));
    assert!(!is_newer((0, 1, 21), (0, 1, 22)));
}

#[test]
fn test_is_newer_minor_and_major() {
    assert!(is_newer((0, 2, 0), (0, 1, 99)));
    assert!(is_newer((1, 0, 0), (0, 99, 99)));
    assert!(!is_newer((0, 9, 9), (1, 0, 0)));
}

#[test]
fn test_current_crate_version_parses() {
    assert!(parse_version(CURRENT_VERSION).is_some());
}

// Spaces around components, overflow and a missing patch digit are handled as the parser specifies.
#[test]
fn parse_version_edge_cases() {
    assert_eq!(parse_version("1. 2 .3x"), Some((1, 2, 3)));
    assert_eq!(parse_version("1.2.x"), None);
    assert_eq!(parse_version("4294967296.0.0"), None);
    assert_eq!(parse_version("1.2.3.4"), Some((1, 2, 3)));
}

#[test]
fn update_decision_from_a_release() {
    match update_from_release(
        " v0.2.0 ".to_string(),
        "https://example.invalid/r/v0.2.0".to_string(),
        "0.1.23",
    ) {
        Ok(Some(info)) => {
            assert_eq!(info.version, "0.2.0");
            assert_eq!(info.url, "https://example.invalid/r/v0.2.0");
        }
        _ => panic!("a newer release must be offered"),
    }
    assert!(matches!(
        update_from_release("v0.1.23".to_string(), "u".to_string(), "0.1.23"),
        Ok(None)
    ));
    match update_from_release("latest".to_string(), "u".to_string(), "0.1.23") {
        Err(UpdateError::ParseVersion(text)) => assert_eq!(text, "latest"),
        _ => panic!("an unparseable tag must be reported"),
    }
    match update_from_release("v1.0.0".to_string(), "u".to_string(), "dev") {
        Err(UpdateError::ParseVersion(text)) => assert_eq!(text, "dev"),
        _ => panic!("an unparseable running version must be reported"),
    }
}

#[test]
fn release_request() {
    let url = latest_release_url();
    assert_eq!(
        url,
        "https://api.github.com/repos/philippgerard/filen-menubar/releases/latest"
    );
    let args = release_request_args(&url);
    assert_eq!(args.len(), 8);
    assert_eq!(args[0], "-fsSL");
    assert_eq!(args[6], "User-Agent: filen-menubar");
    assert_eq!(args[7], url);
    match http_failure(Some(22), b"  curl: (22) 404\xff \n") {
        UpdateError::Http { code, stderr } => {
            assert_eq!(code, Some(22));
            assert_eq!(stderr, "curl: (22) 404\u{fffd}");
        }
        _ => panic!("expected an HTTP error"),
    }
}

#[test]
fn parse_u32_follows_the_unsigned_grammar() {
    assert_eq!(parse_u32("42"), Some(42));
    assert_eq!(parse_u32("+7"), Some(7));
    assert_eq!(parse_u32("007"), Some(7));
    assert_eq!(parse_u32("4294967295"), Some(u32::MAX));
    assert_eq!(parse_u32("4294967296"), None);
    assert_eq!(parse_u32(""), None);
    assert_eq!(parse_u32("+"), None);
    assert_eq!(parse_u32("-1"), None);
    assert_eq!(parse_u32("12a"), None);
    assert_eq!(parse_u32(" 1"), None);
}
