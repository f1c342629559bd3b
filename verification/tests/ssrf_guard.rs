use catbird::error::{AppError, ErrorKind};
use catbird::ssrf::{
    is_localhost_hostname, is_private_ipv4, is_private_ipv6, validate_pds_url,
    validate_pds_url_for,
};

fn reason(r: Result<(), AppError>) -> String {
    match r {
        Err(AppError::BadRequest(m)) => m,
        Err(other) => panic!("refused with {:?}, not with BadRequest", other),
        Ok(()) => panic!("accepted"),
    }
}

#[test]
fn test_valid_https_url() {
    assert!(validate_pds_url("https://bsky.social").is_ok());
    assert!(validate_pds_url("https://pds.example.com/xrpc/something").is_ok());
}

#[test]
fn test_blocks_private_ipv4() {
    // Loopback
    assert!(validate_pds_url("https://127.0.0.1").is_err());
    assert!(validate_pds_url("https://127.0.0.2").is_err());

    // Private ranges
    assert!(validate_pds_url("https://10.0.0.1").is_err());
    assert!(validate_pds_url("https://10.255.255.255").is_err());
    assert!(validate_pds_url("https://172.16.0.1").is_err());
    assert!(validate_pds_url("https://172.31.255.255").is_err());
    assert!(validate_pds_url("https://192.168.0.1").is_err());
    assert!(validate_pds_url("https://192.168.255.255").is_err());

    // Link-local
    assert!(validate_pds_url("https://169.254.0.1").is_err());
}

#[test]
fn test_blocks_private_ipv6() {
    // Loopback
    assert!(validate_pds_url("https://[::1]").is_err());

    // Unique local
    assert!(validate_pds_url("https://[fc00::1]").is_err());
    assert!(validate_pds_url("https://[fd00::1]").is_err());

    // Link-local
    assert!(validate_pds_url("https://[fe80::1]").is_err());
}

#[test]
fn test_blocks_http_for_public_urls() {
    assert!(validate_pds_url("http://bsky.social").is_err());
    assert!(validate_pds_url("http://example.com").is_err());
}

#[test]
fn test_blocks_non_http_schemes() {
    assert!(validate_pds_url("file:///etc/passwd").is_err());
    assert!(validate_pds_url("ftp://example.com").is_err());
    assert!(validate_pds_url("gopher://example.com").is_err());
}

#[test]
fn test_blocks_localhost_variants() {
    assert!(validate_pds_url("https://localhost").is_err());
    assert!(validate_pds_url("http://localhost").is_err());
    assert!(validate_pds_url("https://test.localhost").is_err());
}

#[test]
fn test_invalid_urls() {
    assert!(validate_pds_url("not-a-url").is_err());
    assert!(validate_pds_url("").is_err());
    assert!(validate_pds_url("https://").is_err());
}

#[test]
fn test_valid_public_ips() {
    // Public IPs should be allowed
    assert!(validate_pds_url("https://8.8.8.8").is_ok());
    assert!(validate_pds_url("https://1.1.1.1").is_ok());
}

#[test]
fn test_172_non_private_range() {
    // 172.0.0.0 - 172.15.255.255 is NOT private
    assert!(validate_pds_url("https://172.15.255.255").is_ok());
    // 172.32.0.0+ is NOT private
    assert!(validate_pds_url("https://172.32.0.1").is_ok());
}

#[test]
fn refusals_are_bad_requests_with_a_reason() {
    let e = validate_pds_url("https://10.0.0.1").unwrap_err();
    assert_eq!(e.kind(), ErrorKind::BadRequest);
    assert_eq!(e.status_code(), 400);
    assert_eq!(
        reason(validate_pds_url("https://10.0.0.1")),
        "Invalid PDS URL: private network not allowed"
    );
    assert_eq!(reason(validate_pds_url("not-a-url")), "Invalid PDS URL: not a URL");
    assert_eq!(
        reason(validate_pds_url("ftp://example.com")),
        "Invalid PDS URL: scheme 'ftp' not allowed"
    );
    assert_eq!(reason(validate_pds_url("http://example.com")), "Invalid PDS URL: HTTPS required");
    assert_eq!(
        reason(validate_pds_url("https://localhost")),
        "Invalid PDS URL: localhost not allowed"
    );
}

#[test]
fn metadata_service_address_is_refused() {
    assert_eq!(
        reason(validate_pds_url("http://169.254.169.254/meta")),
        "Invalid PDS URL: private network not allowed"
    );
    assert!(validate_pds_url_for("http://169.254.169.254/meta", true).is_err());
}

#[test]
fn reserved_ipv4_ranges_are_refused() {
    for url in [
        "https://100.64.0.1",
        "https://100.127.255.255",
        "https://192.0.2.1",
        "https://198.51.100.7",
        "https://203.0.113.255",
        "https://255.255.255.255",
        "https://0.0.0.0",
    ] {
        assert!(validate_pds_url(url).is_err(), "{} was accepted", url);
    }
    for url in [
        "https://100.63.255.255",
        "https://100.128.0.0",
        "https://192.0.3.1",
        "https://198.51.101.1",
        "https://203.0.114.1",
        "https://169.253.255.255",
        "https://192.167.255.255",
        "https://11.0.0.1",
        "https://126.255.255.255",
        "https://128.0.0.1",
    ] {
        assert!(validate_pds_url(url).is_ok(), "{} was refused", url);
    }
}

#[test]
fn ipv4_octets_are_judged_by_range() {
    assert!(is_private_ipv4(&[127, 0, 0, 1]));
    assert!(is_private_ipv4(&[10, 1, 2, 3]));
    assert!(is_private_ipv4(&[172, 16, 0, 0]));
    assert!(is_private_ipv4(&[172, 31, 255, 255]));
    assert!(!is_private_ipv4(&[172, 15, 255, 255]));
    assert!(!is_private_ipv4(&[172, 32, 0, 0]));
    assert!(is_private_ipv4(&[192, 168, 1, 1]));
    assert!(is_private_ipv4(&[169, 254, 169, 254]));
    assert!(is_private_ipv4(&[100, 64, 0, 0]));
    assert!(!is_private_ipv4(&[100, 128, 0, 0]));
    assert!(is_private_ipv4(&[0, 0, 0, 0]));
    assert!(!is_private_ipv4(&[0, 0, 0, 1]));
    assert!(is_private_ipv4(&[255, 255, 255, 255]));
    assert!(!is_private_ipv4(&[255, 255, 255, 254]));
    assert!(!is_private_ipv4(&[8, 8, 8, 8]));
}

#[test]
fn ipv6_segments_are_judged_by_range() {
    assert!(is_private_ipv6(&[0, 0, 0, 0, 0, 0, 0, 1]));
    assert!(is_private_ipv6(&[0, 0, 0, 0, 0, 0, 0, 0]));
    assert!(is_private_ipv6(&[0xfc00, 0, 0, 0, 0, 0, 0, 1]));
    assert!(is_private_ipv6(&[0xfdff, 0xffff, 0, 0, 0, 0, 0, 1]));
    assert!(!is_private_ipv6(&[0xfe00, 0, 0, 0, 0, 0, 0, 1]));
    assert!(is_private_ipv6(&[0xfe80, 0, 0, 0, 0, 0, 0, 1]));
    assert!(is_private_ipv6(&[0xfebf, 0, 0, 0, 0, 0, 0, 1]));
    assert!(!is_private_ipv6(&[0xfec0, 0, 0, 0, 0, 0, 0, 1]));
    assert!(!is_private_ipv6(&[0x2606, 0x4700, 0x4700, 0, 0, 0, 0, 0x1111]));
}

#[test]
fn mapped_ipv4_is_judged_as_ipv4() {
    // ::ffff:10.0.0.1 and ::ffff:192.168.1.1 are private, ::ffff:8.8.8.8 is not
    assert!(is_private_ipv6(&[0, 0, 0, 0, 0, 0xffff, 0x0a00, 0x0001]));
    assert!(is_private_ipv6(&[0, 0, 0, 0, 0, 0xffff, 0xc0a8, 0x0101]));
    assert!(!is_private_ipv6(&[0, 0, 0, 0, 0, 0xffff, 0x0808, 0x0808]));
    assert!(validate_pds_url("https://[::ffff:10.0.0.1]").is_err());
    assert!(validate_pds_url("https://[::ffff:127.0.0.1]").is_err());
    assert!(validate_pds_url("https://[::ffff:8.8.8.8]").is_ok());
    assert!(validate_pds_url("https://[2606:4700:4700::1111]").is_ok());
}

#[test]
fn local_names_are_recognised() {
    assert!(is_localhost_hostname("localhost"));
    assert!(is_localhost_hostname("localhost.localdomain"));
    assert!(is_localhost_hostname("pds.localhost"));
    assert!(is_localhost_hostname("printer.local"));
    assert!(!is_localhost_hostname("localhost.example.com"));
    assert!(!is_localhost_hostname("notlocalhost"));
    assert!(!is_localhost_hostname("bsky.social"));
}

#[test]
fn development_builds_admit_the_local_machine_by_name_only() {
    assert!(validate_pds_url_for("http://localhost:2583", true).is_ok());
    assert!(validate_pds_url_for("https://localhost", true).is_ok());
    assert!(validate_pds_url_for("http://pds.localhost", true).is_ok());
    assert!(validate_pds_url_for("http://localhost:2583", false).is_err());
    assert!(validate_pds_url_for("http://127.0.0.1:2583", true).is_err());
    assert!(validate_pds_url_for("http://bsky.social", true).is_err());
    assert!(validate_pds_url_for("https://bsky.social", true).is_ok());
}

#[test]
fn upper_case_host_names_are_judged_in_lower_case() {
    assert!(validate_pds_url("https://LOCALHOST").is_err());
    assert!(validate_pds_url("https://BSKY.SOCIAL").is_ok());
}
