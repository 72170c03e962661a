use ipify_cli::client::{complete_fetch, endpoint, uri, IpVersion};
use ipify_cli::error::Error;

#[test]
fn client_ip_v4_api_uri() {
    let uri = uri(IpVersion::V4);
    assert_eq!("https://api.ipify.org".parse::<hyper::Uri>().unwrap(), uri)
}

#[test]
fn client_ip_v6_api_uri() {
    let uri = uri(IpVersion::V6);
    assert_eq!("https://api6.ipify.org".parse::<hyper::Uri>().unwrap(), uri)
}

#[test]
fn main_ip_v4_api_uri() {
    let uri = uri(IpVersion::V4);
    assert_eq!("https://api.ipify.org".parse::<hyper::Uri>().unwrap(), uri)
}

#[test]
fn main_ip_v6_api_uri() {
    let uri = uri(IpVersion::V6);
    assert_eq!("https://api6.ipify.org".parse::<hyper::Uri>().unwrap(), uri)
}

#[test]
fn parse_recognizes_v4() {
    assert_eq!(IpVersion::parse("4").unwrap(), IpVersion::V4);
}

#[test]
fn parse_recognizes_v6() {
    assert_eq!(IpVersion::parse("6").unwrap(), IpVersion::V6);
}

#[test]
fn parse_rejects_other_tokens() {
    for token in ["", "5", "IPv4", "9", "44", " 4"] {
        match IpVersion::parse(token) {
            Err(Error::UnsupportedIpVersion(t)) => assert_eq!(t, token),
            _ => panic!("token {:?} must fail with UnsupportedIpVersion", token),
        }
    }
}

#[test]
fn endpoint_of_v4() {
    assert_eq!(endpoint(IpVersion::V4), "https://api.ipify.org");
}

#[test]
fn endpoint_of_v6() {
    assert_eq!(endpoint(IpVersion::V6), "https://api6.ipify.org");
}

#[test]
fn fetch_returns_ipv4_body() {
    let body = b"203.0.113.7".to_vec();
    assert_eq!(complete_fetch(Ok(body)).unwrap(), "203.0.113.7");
}

#[test]
fn fetch_returns_ipv6_body() {
    let body = b"2001:db8::1".to_vec();
    assert_eq!(complete_fetch(Ok(body)).unwrap(), "2001:db8::1");
}

#[test]
fn fetch_keeps_trailing_newline() {
    let body = b"203.0.113.7\n".to_vec();
    assert_eq!(complete_fetch(Ok(body)).unwrap(), "203.0.113.7\n");
}

#[test]
fn fetch_decodes_invalid_utf8_lossily() {
    let body = vec![0xff, 0xfe, b'a'];
    assert_eq!(complete_fetch(Ok(body)).unwrap(), "\u{fffd}\u{fffd}a");
}

#[test]
fn fetch_of_empty_body_is_empty() {
    assert_eq!(complete_fetch(Ok(Vec::new())).unwrap(), "");
}

#[test]
fn fetch_is_idempotent_on_same_outcome() {
    let first = complete_fetch(Ok(b"203.0.113.7".to_vec())).unwrap();
    let second = complete_fetch(Ok(b"203.0.113.7".to_vec())).unwrap();
    assert_eq!(first, second);
    assert_eq!(endpoint(IpVersion::V6), endpoint(IpVersion::V6));
}

#[test]
fn fetch_surfaces_transport_failure() {
    match complete_fetch(Err("connection refused".to_string())) {
        Err(Error::Transport(description)) => assert_eq!(description, "connection refused"),
        _ => panic!("a transport failure must surface as Error::Transport"),
    }
}

#[test]
fn unsupported_token_message() {
    let error = IpVersion::parse("9").unwrap_err();
    assert_eq!(error.message(), "UnsupportedIpVersion(9)");
    assert_eq!(
        error.closing_report(),
        "closed with error: UnsupportedIpVersion(9)"
    );
}

#[test]
fn transport_error_message() {
    let error = Error::Transport("tls handshake failed".to_string());
    assert_eq!(error.message(), "tls handshake failed");
    assert_eq!(
        error.closing_report(),
        "closed with error: tls handshake failed"
    );
}

#[test]
fn from_transport_keeps_description() {
    let error = Error::from_transport("dns error".to_string());
    assert_eq!(error.message(), "dns error");
}
