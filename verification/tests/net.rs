use rama::http::layer::dns::DnsResolveModeLayer;
use rama::http::request::HeaderName;
use rama::net::forwarded::ForwardedProtocol;
use rama::net::mode::{ConnectIpMode, DnsResolveIpMode};
use rama::net::protocol::Protocol;
use rama::service::layer::Layer;
use rama::utils::text::{decimal_string, parse_u16, same_text};

#[test]
fn dns_resolve_ip_modes_say_what_they_support() {
    assert!(DnsResolveIpMode::Dual.ipv4_supported());
    assert!(DnsResolveIpMode::Dual.ipv6_supported());
    assert!(DnsResolveIpMode::SingleIpV4.ipv4_supported());
    assert!(!DnsResolveIpMode::SingleIpV4.ipv6_supported());
    assert!(!DnsResolveIpMode::SingleIpV6.ipv4_supported());
    assert!(DnsResolveIpMode::SingleIpV6.ipv6_supported());
    assert!(DnsResolveIpMode::DualPreferIpV4.ipv4_supported());
    assert!(!DnsResolveIpMode::DualPreferIpV4.ipv6_supported());
    assert_eq!(DnsResolveIpMode::default(), DnsResolveIpMode::Dual);
    assert_eq!(ConnectIpMode::default(), ConnectIpMode::Dual);
}

#[test]
fn dns_resolve_mode_layer_wraps_with_its_header() {
    let layer = DnsResolveModeLayer::new(HeaderName::from_static("x-dns-resolve"));
    let svc = layer.layer("inner");
    assert_eq!(svc.header_name().as_str(), "x-dns-resolve");
    assert!(svc.header_name().is_named("x-dns-resolve"));
    assert!(!svc.header_name().is_named("x-dns"));
    assert_eq!(*svc.get_ref(), "inner");
    assert_eq!(layer.clone().layer(5u8).into_inner(), 5);
}

#[test]
fn protocols_follow_the_scheme() {
    assert_eq!(Protocol::from_scheme(None), Protocol::HTTP);
    assert_eq!(Protocol::from_scheme(Some("http")), Protocol::HTTP);
    assert_eq!(Protocol::from_scheme(Some("https")), Protocol::HTTPS);
    assert_eq!(Protocol::from_scheme(Some("ws")), Protocol::WS);
    assert_eq!(Protocol::from_scheme(Some("wss")), Protocol::WSS);
    assert_eq!(Protocol::from_scheme(Some("ftp")), Protocol::Custom("ftp".to_owned()));
    assert_eq!(Protocol::HTTP.default_port(), 80);
    assert_eq!(Protocol::WS.default_port(), 80);
    assert_eq!(Protocol::HTTPS.default_port(), 443);
    assert_eq!(Protocol::WSS.default_port(), 443);
    assert_eq!(Protocol::Custom("ftp".to_owned()).default_port(), 80);
    assert!(Protocol::HTTPS.is_secure());
    assert!(Protocol::WSS.is_secure());
    assert!(!Protocol::HTTP.is_secure());
    assert!(!Protocol::Custom("x".to_owned()).clone().is_secure());
    assert_eq!(ForwardedProtocol::HTTP.to_protocol(), Protocol::HTTP);
    assert_eq!(ForwardedProtocol::HTTPS.to_protocol(), Protocol::HTTPS);
}

#[test]
fn numbers_are_written_and_read_in_decimal() {
    assert_eq!(decimal_string(0), "0");
    assert_eq!(decimal_string(7), "7");
    assert_eq!(decimal_string(10), "10");
    assert_eq!(decimal_string(8080), "8080");
    assert_eq!(decimal_string(65535), "65535");
    assert_eq!(decimal_string(u64::MAX), "18446744073709551615");

    assert_eq!(parse_u16("8080", 0), Some(8080));
    assert_eq!(parse_u16("host:8080", 5), Some(8080));
    assert_eq!(parse_u16("65535", 0), Some(65535));
    assert_eq!(parse_u16("65536", 0), None);
    assert_eq!(parse_u16("000443", 0), Some(443));
    assert_eq!(parse_u16("99999999999999999999", 0), None);
    assert_eq!(parse_u16("", 0), None);
    assert_eq!(parse_u16("80", 2), None);
    assert_eq!(parse_u16("80", 3), None);
    assert_eq!(parse_u16("+80", 0), None);
    assert_eq!(parse_u16("8 0", 0), None);
    assert!(same_text("héllo", "héllo"));
    assert!(!same_text("hello", "hellO"));
}
