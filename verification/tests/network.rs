use filen_menubar::cli::network::is_network_error;

#[test]
fn test_is_network_error_enotfound() {
    assert!(is_network_error("getaddrinfo ENOTFOUND api.filen.io"));
    assert!(is_network_error("Error: ENOTFOUND"));
}

#[test]
fn test_is_network_error_connection_errors() {
    assert!(is_network_error("connect ECONNREFUSED 127.0.0.1:443"));
    assert!(is_network_error("read ECONNRESET"));
    assert!(is_network_error("connect ETIMEDOUT 1.2.3.4:443"));
}

#[test]
fn test_is_network_error_host_unreachable() {
    assert!(is_network_error("connect EHOSTUNREACH"));
    assert!(is_network_error("connect ENETUNREACH"));
}

#[test]
fn test_is_network_error_text_patterns() {
    assert!(is_network_error("Network error occurred"));
    assert!(is_network_error("Device is offline"));
    assert!(is_network_error("No internet connection"));
    assert!(is_network_error("DNS lookup failed"));
    assert!(is_network_error("socket hang up"));
    assert!(is_network_error("connection refused"));
    assert!(is_network_error("connection reset by peer"));
}

#[test]
fn test_is_network_error_case_insensitive() {
    assert!(is_network_error("NETWORK ERROR"));
    assert!(is_network_error("Offline Mode"));
    assert!(is_network_error("NO INTERNET"));
}

#[test]
fn test_is_network_error_false_positives() {
    assert!(!is_network_error("File not found"));
    assert!(!is_network_error("Permission denied"));
    assert!(!is_network_error("Invalid JSON"));
    assert!(!is_network_error("Authentication failed"));
}

#[test]
fn test_is_network_error_filen_specific() {
    assert!(is_network_error("socket.filen.io connection failed"));
    assert!(is_network_error("err_unhandled_error: network issue"));
    assert!(is_network_error("fetch failed"));
}

#[test]
fn test_network_error_detection() {
    let network_errors = vec![
        "getaddrinfo ENOTFOUND api.filen.io",
        "connect ECONNREFUSED 127.0.0.1:443",
        "connect ETIMEDOUT 1.2.3.4:443",
        "socket.filen.io connection failed",
        "fetch failed",
    ];

    for error in network_errors {
        assert!(
            is_network_error(error),
            "Should detect as network error: {}",
            error
        );
    }

    let other_errors = vec!["File not found", "Permission denied", "Invalid credentials"];

    for error in other_errors {
        assert!(
            !is_network_error(error),
            "Should NOT detect as network error: {}",
            error
        );
    }
}

// The lowercase wrapper is used: a pattern in capitals outside ASCII still matches.
#[test]
fn uppercase_patterns_are_matched_after_lowercasing() {
    assert!(is_network_error("ERR_UNHANDLED_ERROR while syncing"));
    assert!(is_network_error("Socket Hang Up"));
}
