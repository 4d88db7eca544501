//! Parsing of `osp://<domain>:<port>` addresses.

use osp_core::url::OSPUrl;

#[test]
fn test_url_parse() {
    let expected = OSPUrl {
        domain: "test-url.com".to_string(),
        port: 42069,
    };

    let test_val = OSPUrl::parse("osp://test-url.com:42069").unwrap();
    assert_eq!(expected, test_val);
}

#[test]
fn test_url_other_scheme_rejected() {
    assert!(OSPUrl::parse("http://test-url.com:42069").is_err());
    assert!(OSPUrl::parse("osq://test-url.com:42069").is_err());
}

#[test]
fn test_url_malformed_rejected() {
    assert!(OSPUrl::parse("osp://").is_err());
    assert!(OSPUrl::parse("osp://nohost").is_err());
    assert!(OSPUrl::parse("osp://:42069").is_err());
    assert!(OSPUrl::parse("osp://host:").is_err());
    assert!(OSPUrl::parse("osp://host:12ab").is_err());
    assert!(OSPUrl::parse("osp://host:70000").is_err());
}

#[test]
fn test_url_port_edge_values() {
    assert_eq!(OSPUrl::parse("osp://h:65535").unwrap().port, 65535);
    assert!(OSPUrl::parse("osp://h:65536").is_err());
    assert_eq!(OSPUrl::parse("osp://h:0").unwrap().port, 0);
    // leading zeros only change the spelling, not the value
    assert_eq!(OSPUrl::parse("osp://h:0042069").unwrap().port, 42069);
}
