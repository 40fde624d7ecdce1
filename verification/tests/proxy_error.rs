use rama::error::{IoError, IoErrorKind};
use rama::http::client::proxy_error::HttpProxyError;

#[test]
fn proxy_errors_say_what_happened() {
    assert_eq!(
        HttpProxyError::AuthRequired.to_string(),
        "http proxy error: proxy auth required (http 407)"
    );
    assert_eq!(
        HttpProxyError::Unavailable.to_string(),
        "http proxy error: proxy unavailable (http 503)"
    );
    assert_eq!(
        HttpProxyError::Transport(IoError::new(IoErrorKind::TimedOut, "timed out")).to_string(),
        "http proxy error: transport error: I/O [timed out]"
    );
    assert_eq!(
        HttpProxyError::Other("HTTP/1.1 500 Internal Server Error".to_owned()).to_string(),
        "http proxy error: first line of header = [HTTP/1.1 500 Internal Server Error]"
    );
    assert_eq!(
        HttpProxyError::Other(String::new()).to_string(),
        "http proxy error: first line of header = []"
    );
}

#[test]
fn only_a_transport_error_has_a_source() {
    assert!(HttpProxyError::AuthRequired.source().is_none());
    assert!(HttpProxyError::Unavailable.source().is_none());
    assert!(HttpProxyError::Other("x".to_owned()).source().is_none());
    let error = HttpProxyError::Transport(IoError::new(IoErrorKind::BrokenPipe, "broken pipe"));
    assert_eq!(error.source(), Some(&IoError::new(IoErrorKind::BrokenPipe, "broken pipe")));
}

#[test]
fn an_io_error_becomes_a_transport_error() {
    let error: HttpProxyError = IoError::new(IoErrorKind::ConnectionRefused, "refused").into();
    match error {
        HttpProxyError::Transport(io) => {
            assert_eq!(io.kind(), IoErrorKind::ConnectionRefused);
            assert_eq!(io.message(), "refused");
        }
        other => panic!("unexpected error: {:?}", other),
    }
}
