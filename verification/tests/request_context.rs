use rama::context::context::Context;
use rama::context::extensions::{Fact, FactKind};
use rama::http::request::{Parts, Request, RequestError, Uri, Version};
use rama::http::request_context::{get_request_context, RequestContext};
use rama::net::address::{Authority, Host};
use rama::net::forwarded::{Forwarded, ForwardedAuthority, ForwardedProtocol, ForwardedVersion};
use rama::net::protocol::Protocol;

#[test]
fn test_request_context_from_request() {
    let req = Request::builder()
        .uri("http://example.com:8080")
        .version(Version::HTTP_11)
        .body(())
        .unwrap();

    let ctx = Context::default();

    let req_ctx = RequestContext::from((&ctx, &req));

    assert_eq!(req_ctx.http_version, Version::HTTP_11);
    assert_eq!(req_ctx.protocol, Protocol::HTTP);
    assert_eq!(req_ctx.authority.unwrap().to_string(), "example.com:8080");
}

#[test]
fn test_request_context_from_parts() {
    let req = Request::builder()
        .uri("http://example.com:8080")
        .version(Version::HTTP_11)
        .body(())
        .unwrap();

    let (parts, _) = req.into_parts();

    let ctx = Context::default();
    let req_ctx = RequestContext::from((&ctx, &parts));

    assert_eq!(req_ctx.http_version, Version::HTTP_11);
    assert_eq!(req_ctx.protocol, Protocol::HTTP);
    assert_eq!(
        req_ctx.authority.unwrap(),
        Authority::try_from("example.com:8080").unwrap()
    );
}

#[test]
fn test_request_context_authority() {
    let ctx = RequestContext {
        http_version: Version::HTTP_11,
        protocol: Protocol::HTTP,
        authority: Some("example.com:8080".try_into().unwrap()),
    };

    assert_eq!(ctx.authority.unwrap().to_string(), "example.com:8080");
}

fn forwarded_host(host: &str, port: Option<u16>, proto: Option<ForwardedProtocol>) -> Forwarded {
    let host = ForwardedAuthority::new(Host::parse(host).unwrap(), port);
    Forwarded::new(Some(host), None, proto, None)
}

#[test]
fn forwarded_parsing() {
    for (forwarded, expected) in [
        (
            forwarded_host("192.0.2.60", None, Some(ForwardedProtocol::HTTP)),
            RequestContext {
                http_version: Version::HTTP_11,
                protocol: Protocol::HTTP,
                authority: Some("192.0.2.60:80".parse().unwrap()),
            },
        ),
        (
            forwarded_host("[2001:db8:cafe::17]", Some(4711), None),
            RequestContext {
                http_version: Version::HTTP_11,
                protocol: Protocol::HTTP,
                authority: Some("[2001:db8:cafe::17]:4711".parse().unwrap()),
            },
        ),
        (
            forwarded_host("192.0.2.60", None, None),
            RequestContext {
                http_version: Version::HTTP_11,
                protocol: Protocol::HTTP,
                authority: Some("192.0.2.60:80".parse().unwrap()),
            },
        ),
    ] {
        let mut ctx = Context::default();
        ctx.insert(Fact::Forwarded(forwarded));
        let req = Request::builder().body(()).unwrap();
        let req_ctx = RequestContext::new(&ctx, &req);
        assert_eq!(req_ctx, expected);
    }
}

#[test]
fn uri_is_read_into_scheme_host_and_port() {
    let uri = Uri::parse("https://example.com:8443/path?query=1").unwrap();
    assert_eq!(uri.scheme_str(), Some("https"));
    assert_eq!(uri.host(), Some("example.com"));
    assert_eq!(uri.port_u16(), Some(8443));

    let uri = Uri::parse("/only/a/path").unwrap();
    assert_eq!(uri.scheme_str(), None);
    assert_eq!(uri.host(), None);
    assert_eq!(uri.port_u16(), None);

    assert!(Uri::parse("http://exa mple.com").is_none());
    assert_eq!(
        Request::builder().uri("http://exa mple.com").body(()).unwrap_err(),
        RequestError::InvalidUri
    );
}

#[test]
fn forwarded_facts_count_before_the_request() {
    let host = ForwardedAuthority::new(Host::parse("proxy.example").unwrap(), None);
    let forwarded = Forwarded::new(
        Some(host),
        Some(4444),
        Some(ForwardedProtocol::HTTPS),
        Some(ForwardedVersion::HTTP_2),
    );
    let mut ctx = Context::default();
    ctx.insert(Fact::Forwarded(forwarded));
    let req = Request::builder()
        .uri("http://example.com:8080")
        .host("other.example:9999")
        .body(())
        .unwrap();
    let req_ctx = RequestContext::new(&ctx, &req);
    assert_eq!(req_ctx.http_version, Version::HTTP_2);
    assert_eq!(req_ctx.protocol, Protocol::HTTPS);
    assert_eq!(req_ctx.authority.unwrap().to_string(), "proxy.example:4444");
}

#[test]
fn host_header_counts_before_the_uri() {
    let ctx = Context::default();

    let req = Request::builder()
        .uri("https://example.com")
        .host("other.example:9999")
        .body(())
        .unwrap();
    let req_ctx = RequestContext::new(&ctx, &req);
    assert_eq!(req_ctx.protocol, Protocol::HTTPS);
    assert_eq!(req_ctx.authority.unwrap().to_string(), "other.example:9999");

    let req = Request::builder().uri("https://example.com").host("other.example").body(()).unwrap();
    let req_ctx = RequestContext::new(&ctx, &req);
    assert_eq!(req_ctx.authority.unwrap().to_string(), "other.example:443");

    let req = Request::builder().uri("ws://example.com").host("not a:host:").body(()).unwrap();
    let req_ctx = RequestContext::new(&ctx, &req);
    assert_eq!(req_ctx.protocol, Protocol::WS);
    assert_eq!(req_ctx.authority.unwrap().to_string(), "example.com:80");

    let req = Request::builder().uri("/path").body(()).unwrap();
    let req_ctx = RequestContext::new(&ctx, &req);
    assert_eq!(req_ctx.protocol, Protocol::HTTP);
    assert_eq!(req_ctx.authority, None);

    let parts = Parts {
        uri: Uri::from_parts(Some("gopher".to_owned()), Some("example.com".to_owned()), None),
        version: Version::HTTP_10,
        host: None,
    };
    let req_ctx = RequestContext::from((&ctx, &parts));
    assert_eq!(req_ctx.http_version, Version::HTTP_10);
    assert_eq!(req_ctx.protocol, Protocol::Custom("gopher".to_owned()));
    assert_eq!(req_ctx.authority.unwrap().to_string(), "example.com:80");
}

#[test]
fn the_request_context_is_made_once_and_kept() {
    let mut ctx = Context::default();
    let req = Request::builder().uri("https://example.com").body(()).unwrap();
    assert!(!ctx.contains(FactKind::RequestContext));
    let made = get_request_context(&mut ctx, &req);
    assert_eq!(made.protocol, Protocol::HTTPS);
    assert_eq!(ctx.extensions().request_context(), Some(&made));

    let other = Request::builder().uri("http://other.example:81").body(()).unwrap();
    let kept = get_request_context(&mut ctx, &other);
    assert_eq!(kept, made);
    assert_eq!(kept.authority.unwrap().to_string(), "example.com:443");
}
