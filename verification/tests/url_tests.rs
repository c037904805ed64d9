use upquack::validate::{is_valid_url, is_valid_url_with_tlds};

#[test]
fn parse_invalid_url() {
    let invalid_url = [
        "htt://example.com",      // Invalid scheme
        "https://127.0.0.1",      // IP address, not a domain with TLD
        "mailto:rms@example.net", // Invalid scheme
        "https://example",        // Missing TLD
        "https://example.xyz",    // TLD not in our valid list
        "http://localhost",       // localhost, no TLD
    ];

    for url in invalid_url {
        assert_eq!(is_valid_url(url), false, "Expected false for: {}", url);
    }
}

#[test]
fn parse_valid_url() {
    let valid_url = [
        "https://www.example.com",
        "http://subdomain.example.org",
        "https://anothersite.net",
        "http://my-app.io",
        "https://docs.google.com",
        "http://example.dev",
    ];

    for url in valid_url {
        assert_eq!(is_valid_url(url), true, "Expected true for: {}", url);
    }
}

#[test]
fn validation_policy_cases() {
    assert!(is_valid_url("http://example.com"));
    assert!(is_valid_url("https://example.org"));
    // Wrong scheme.
    assert!(!is_valid_url("ftp://example.com"));
    // Not a parseable host: 256 is no IPv4 octet, and the allow-list is
    // never consulted.  The default policy rejects it.
    assert!(!is_valid_url("http://256.256.256.256"));
    // The empty string is no absolute URL.
    assert!(!is_valid_url(""));
}

#[test]
fn configured_tld_list_is_honored() {
    let tlds: Vec<Vec<char>> = vec![".xyz".chars().collect()];
    assert!(is_valid_url_with_tlds("https://example.xyz", &tlds));
    assert!(!is_valid_url_with_tlds("https://example.com", &tlds));
    // The scheme rule still applies whatever the list says.
    assert!(!is_valid_url_with_tlds("ftp://example.xyz", &tlds));
}
