//! Requests, reduced to what the middleware reads of them: the version,
//! the URI's scheme, host and port, and the `Host` header.

use vstd::prelude::*;
use vstd::string::*;
use crate::utils::text::same_text;

verus! {

/// The version of HTTP that a request is written in.
#[allow(non_camel_case_types)]
#[derive(Debug, Clone, Copy, PartialEq, Eq, Structural)]
pub enum Version {
    HTTP_09,
    HTTP_10,
    HTTP_11,
    HTTP_2,
    HTTP_3,
}

/// The mathematical value of a [`Uri`].
pub struct UriView {
    pub scheme: Option<Seq<char>>,
    pub host: Option<Seq<char>>,
    pub port: Option<u16>,
}

/// What the text of a URI yields when it is read by the rules of RFC 3986
/// as HTTP applies them; nothing where the text is no URI.
pub uninterp spec fn uri_of(text: Seq<char>) -> Option<UriView>;

/// The view of an optional string.
pub open spec fn text_of(s: Option<String>) -> Option<Seq<char>> {
    match s {
        Some(t) => Some(t@),
        None => None,
    }
}

/// The target of a request: its scheme, host and port, each where the
/// URI names one.
#[derive(Debug, PartialEq, Eq)]
pub struct Uri {
    scheme: Option<String>,
    host: Option<String>,
    port: Option<u16>,
}

impl View for Uri {
    type V = UriView;

    closed spec fn view(&self) -> UriView {
        UriView { scheme: text_of(self.scheme), host: text_of(self.host), port: self.port }
    }
}

/// Reads a URI with `http::Uri`'s parser and keeps its scheme, host and
/// port. The contract claims that the outcome is a function of the text
/// alone, and gives that function the name [`uri_of`]; it claims nothing
/// of which texts are URIs.
#[verifier::external_body]
fn read_uri(text: &str) -> (uri: Option<Uri>)
    ensures
        match uri {
            Some(u) => uri_of(text@) == Some(u@),
            None => uri_of(text@) is None,
        },
{
    match text.parse::<::http::Uri>() {
        Ok(uri) => Some(Uri {
            scheme: uri.scheme_str().map(str::to_owned),
            host: uri.host().map(str::to_owned),
            port: uri.port_u16(),
        }),
        Err(_) => None,
    }
}

impl Uri {
    /// A URI of the given parts.
    pub fn from_parts(scheme: Option<String>, host: Option<String>, port: Option<u16>) -> (uri: Uri)
        ensures
            uri@ == (UriView { scheme: text_of(scheme), host: text_of(host), port }),
    {
        Uri { scheme, host, port }
    }

    /// Reads a URI from its text.
    pub fn parse(text: &str) -> (uri: Option<Uri>)
        ensures
            match uri {
                Some(u) => uri_of(text@) == Some(u@),
                None => uri_of(text@) is None,
            },
    {
        read_uri(text)
    }

    /// The scheme, if the URI names one.
    pub fn scheme_str(&self) -> (scheme: Option<&str>)
        ensures
            match scheme {
                Some(s) => self@.scheme == Some(s@),
                None => self@.scheme is None,
            },
    {
        match &self.scheme {
            Some(s) => Some(s.as_str()),
            None => None,
        }
    }

    /// The host, if the URI names one.
    pub fn host(&self) -> (host: Option<&str>)
        ensures
            match host {
                Some(h) => self@.host == Some(h@),
                None => self@.host is None,
            },
    {
        match &self.host {
            Some(h) => Some(h.as_str()),
            None => None,
        }
    }

    /// The port, if the URI names one.
    pub fn port_u16(&self) -> (port: Option<u16>)
        ensures
            port == self@.port,
    {
        self.port
    }
}

/// Copies an optional string.
pub fn clone_text(s: &Option<String>) -> (copy: Option<String>)
    ensures
        text_of(copy) == text_of(*s),
{
    match s {
        Some(t) => Some(t.clone()),
        None => None,
    }
}

impl Clone for Uri {
    fn clone(&self) -> (copy: Self)
        ensures
            copy@ == self@,
    {
        Uri { scheme: clone_text(&self.scheme), host: clone_text(&self.host), port: self.port }
    }
}

/// The head of a request.
#[derive(Debug, PartialEq, Eq)]
pub struct Parts {
    /// The target of the request.
    pub uri: Uri,
    /// The version of HTTP that the request is written in.
    pub version: Version,
    /// The value of the `Host` header, if the request carries one.
    pub host: Option<String>,
}

/// The mathematical value of a [`Parts`].
pub struct PartsView {
    pub uri: UriView,
    pub version: Version,
    pub host: Option<Seq<char>>,
}

impl View for Parts {
    type V = PartsView;

    open spec fn view(&self) -> PartsView {
        PartsView { uri: self.uri@, version: self.version, host: text_of(self.host) }
    }
}

impl Clone for Parts {
    fn clone(&self) -> (copy: Self)
        ensures
            copy@ == self@,
    {
        Parts { uri: self.uri.clone(), version: self.version, host: clone_text(&self.host) }
    }
}

/// A request: a head and a body.
#[derive(Debug)]
pub struct Request<Body> {
    head: Parts,
    body: Body,
}

impl Request<()> {
    /// A request in the making.
    pub fn builder() -> (builder: RequestBuilder)
        ensures
            builder@ == (RequestBuilderView {
                uri: Some(UriView { scheme: None, host: None, port: None }),
                version: Version::HTTP_11,
                host: None,
            }),
    {
        RequestBuilder::new()
    }
}

impl<Body> Request<Body> {
    /// The head of the request, as a value.
    pub closed spec fn head(&self) -> PartsView {
        self.head@
    }

    /// The body of the request, as a value.
    pub closed spec fn body_spec(&self) -> Body {
        self.body
    }

    /// A request of the given head and body.
    pub fn from_parts(head: Parts, body: Body) -> (request: Request<Body>)
        ensures
            request.head() == head@,
            request.body_spec() == body,
    {
        Request { head, body }
    }

    /// The target of the request.
    pub fn uri(&self) -> (uri: &Uri)
        ensures
            uri@ == self.head().uri,
    {
        &self.head.uri
    }

    /// The version of HTTP that the request is written in.
    pub fn version(&self) -> (version: Version)
        ensures
            version == self.head().version,
    {
        self.head.version
    }

    /// The value of the `Host` header, if the request carries one.
    pub fn host_header(&self) -> (host: Option<&str>)
        ensures
            match host {
                Some(h) => self.head().host == Some(h@),
                None => self.head().host is None,
            },
    {
        match &self.head.host {
            Some(h) => Some(h.as_str()),
            None => None,
        }
    }

    /// The head of the request.
    pub fn parts(&self) -> (head: &Parts)
        ensures
            head@ == self.head(),
    {
        &self.head
    }

    /// The head and the body, apart.
    pub fn into_parts(self) -> (parts: (Parts, Body))
        ensures
            parts.0@ == self.head(),
            parts.1 == self.body_spec(),
    {
        (self.head, self.body)
    }
}

/// Why a request could not be built.
#[derive(Debug, Clone, Copy, PartialEq, Eq, Structural)]
pub enum RequestError {
    /// The text given as the target of the request is no URI.
    InvalidUri,
}

/// A request in the making. Until told otherwise it is written in
/// HTTP/1.1, has a target without scheme, host and port, and carries no
/// `Host` header.
#[derive(Debug)]
pub struct RequestBuilder {
    uri: Option<Uri>,
    version: Version,
    host: Option<String>,
}

/// The mathematical value of a [`RequestBuilder`].
pub struct RequestBuilderView {
    /// The target; nothing where a text was given that is no URI.
    pub uri: Option<UriView>,
    pub version: Version,
    pub host: Option<Seq<char>>,
}

impl View for RequestBuilder {
    type V = RequestBuilderView;

    closed spec fn view(&self) -> RequestBuilderView {
        RequestBuilderView {
            uri: match self.uri {
                Some(u) => Some(u@),
                None => None,
            },
            version: self.version,
            host: text_of(self.host),
        }
    }
}

impl RequestBuilder {
    /// A request in the making, with nothing told yet.
    pub fn new() -> (builder: RequestBuilder)
        ensures
            builder@ == (RequestBuilderView {
                uri: Some(UriView { scheme: None, host: None, port: None }),
                version: Version::HTTP_11,
                host: None,
            }),
    {
        RequestBuilder { uri: Some(Uri { scheme: None, host: None, port: None }), version: Version::HTTP_11, host: None }
    }

    /// Sets the target of the request to the URI that `text` writes.
    pub fn uri(self, text: &str) -> (builder: RequestBuilder)
        ensures
            builder@ == (RequestBuilderView { uri: uri_of(text@), ..self@ }),
    {
        RequestBuilder { uri: Uri::parse(text), version: self.version, host: self.host }
    }

    /// Sets the version of the request.
    pub fn version(self, version: Version) -> (builder: RequestBuilder)
        ensures
            builder@ == (RequestBuilderView { version, ..self@ }),
    {
        RequestBuilder { uri: self.uri, version, host: self.host }
    }

    /// Sets the `Host` header of the request.
    pub fn host(self, value: &str) -> (builder: RequestBuilder)
        ensures
            builder@ == (RequestBuilderView { host: Some(value@), ..self@ }),
    {
        RequestBuilder { uri: self.uri, version: self.version, host: Some(value.to_owned()) }
    }

    /// The request with the given body. Fails exactly where a text was
    /// given as target that is no URI.
    pub fn body<Body>(self, body: Body) -> (request: Result<Request<Body>, RequestError>)
        ensures
            match self@.uri {
                Some(uri) => request is Ok && request->Ok_0.head() == (PartsView {
                    uri,
                    version: self@.version,
                    host: self@.host,
                }) && request->Ok_0.body_spec() == body,
                None => request == Err::<Request<Body>, RequestError>(RequestError::InvalidUri),
            },
    {
        match self.uri {
            Some(uri) => Ok(Request { head: Parts { uri, version: self.version, host: self.host }, body }),
            None => Err(RequestError::InvalidUri),
        }
    }
}

/// The name of a header.
#[derive(Debug, PartialEq, Eq)]
pub struct HeaderName {
    name: String,
}

impl View for HeaderName {
    type V = Seq<char>;

    closed spec fn view(&self) -> Seq<char> {
        self.name@
    }
}

impl HeaderName {
    /// The header name that `name` writes.
    pub fn from_static(name: &'static str) -> (header: HeaderName)
        ensures
            header@ == name@,
    {
        HeaderName { name: name.to_owned() }
    }

    /// The text of the name.
    pub fn as_str(&self) -> (name: &str)
        ensures
            name@ == self@,
    {
        self.name.as_str()
    }

    /// Whether this is the header that `name` writes.
    pub fn is_named(&self, name: &str) -> (same: bool)
        ensures
            same == (self@ == name@),
    {
        same_text(self.name.as_str(), name)
    }
}

impl Clone for HeaderName {
    fn clone(&self) -> (copy: Self)
        ensures
            copy@ == self@,
    {
        HeaderName { name: self.name.clone() }
    }
}

} // verus!
