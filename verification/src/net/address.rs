//! Hosts and authorities (a host with a port), and their text form.

use vstd::prelude::*;
use vstd::string::*;
use vstd::std_specs::convert::TryFromSpecImpl;
use crate::utils::text::{decimal, decimal_is_read_back, decimal_string, is_digit, parse_u16, u16_of};

verus! {

/// Whether `c` is one of the characters that structure an authority.
pub open spec fn is_delimiter(c: char) -> bool {
    c == ':' || c == '[' || c == ']'
}

/// Whether `s` is a host written plainly: a name or an IPv4 address.
pub open spec fn is_plain_host(s: Seq<char>) -> bool {
    s.len() > 0 && forall|i: int| 0 <= i < s.len() ==> !is_delimiter(#[trigger] s[i])
}

/// Whether `s` is a host written in brackets: an IPv6 address.
pub open spec fn is_bracketed_host(s: Seq<char>) -> bool {
    &&& s.len() > 2
    &&& s[0] == '['
    &&& s[s.len() - 1] == ']'
    &&& forall|i: int| 0 < i < s.len() - 1 ==> s[i] != '[' && s[i] != ']'
}

/// Whether `s` is the text of a host.
pub open spec fn is_host(s: Seq<char>) -> bool {
    is_plain_host(s) || is_bracketed_host(s)
}

/// Whether `i` is the place of the last colon of `s`.
pub open spec fn is_last_colon(s: Seq<char>, i: int) -> bool {
    &&& 0 <= i < s.len()
    &&& s[i] == ':'
    &&& forall|j: int| i < j < s.len() ==> s[j] != ':'
}

/// The mathematical value of an [`Authority`].
pub struct AuthorityView {
    pub host: Seq<char>,
    pub port: u16,
}

/// The authority that `s` writes as `host:port`, if it writes one: the
/// port is what follows the last colon, the host what precedes it.
pub open spec fn authority_of(s: Seq<char>) -> Option<AuthorityView> {
    if exists|i: int| is_last_colon(s, i) {
        let i = choose|i: int| is_last_colon(s, i);
        match u16_of(s.skip(i + 1)) {
            Some(port) => if is_host(s.take(i)) {
                Some(AuthorityView { host: s.take(i), port })
            } else {
                None
            },
            None => None,
        }
    } else {
        None
    }
}

/// The text of an authority: the host, a colon, the port in decimal.
pub open spec fn authority_text(a: AuthorityView) -> Seq<char> {
    a.host + seq![':'] + decimal(a.port as nat)
}

/// Why a text is no host or no authority.
#[derive(Debug, Clone, Copy, PartialEq, Eq, Structural)]
pub enum AddressError {
    /// The text is not the text of a host.
    InvalidHost,
    /// The text does not end in a colon and a port.
    InvalidAuthority,
}

/// A host: a name or an IP address, in its text form.
#[derive(Debug, PartialEq, Eq)]
pub struct Host {
    text: String,
}

impl View for Host {
    type V = Seq<char>;

    closed spec fn view(&self) -> Seq<char> {
        self.text@
    }
}

/// Finds the last colon of `s`.
fn find_last_colon(s: &str) -> (place: Option<usize>)
    ensures
        match place {
            Some(i) => is_last_colon(s@, i as int),
            None => forall|j: int| 0 <= j < s@.len() ==> s@[j] != ':',
        },
{
    let n = s.unicode_len();
    let mut i: usize = n;
    while i > 0
        invariant
            n == s@.len(),
            i <= n,
            forall|j: int| i <= j < n ==> s@[j] != ':',
        decreases i,
    {
        i -= 1;
        if s.get_char(i) == ':' {
            return Some(i);
        }
    }
    None
}

/// Whether `s` is the text of a host.
pub fn check_host(s: &str) -> (valid: bool)
    ensures
        valid == is_host(s@),
{
    let n = s.unicode_len();
    if n == 0 {
        return false;
    }
    let bracketed = n > 2 && s.get_char(0) == '[' && s.get_char(n - 1) == ']';
    let first: usize = if bracketed { 1 } else { 0 };
    let last: usize = if bracketed { n - 1 } else { n };
    let mut i: usize = first;
    while i < last
        invariant
            n == s@.len(),
            first <= i <= last <= n,
            bracketed ==> first == 1 && last == n - 1 && is_open_and_close(s@),
            !bracketed ==> first == 0 && last == n && !is_open_and_close(s@),
            bracketed ==> forall|j: int| first <= j < i ==> s@[j] != '[' && s@[j] != ']',
            !bracketed ==> forall|j: int| first <= j < i ==> !is_delimiter(#[trigger] s@[j]),
        decreases last - i,
    {
        let c = s.get_char(i);
        if c == '[' || c == ']' {
            return false;
        }
        if !bracketed && c == ':' {
            return false;
        }
        i += 1;
    }
    true
}

/// Whether `s` opens with a bracket and closes with one, with something
/// in between.
pub open spec fn is_open_and_close(s: Seq<char>) -> bool {
    s.len() > 2 && s[0] == '[' && s[s.len() - 1] == ']'
}

impl Host {
    #[verifier::type_invariant]
    spec fn well_formed(self) -> bool {
        is_host(self.text@)
    }

    /// Reads a host from its text. Fails exactly on texts that are no host.
    pub fn parse(s: &str) -> (host: Result<Host, AddressError>)
        ensures
            match host {
                Ok(h) => is_host(s@) && h@ == s@,
                Err(e) => !is_host(s@) && e == AddressError::InvalidHost,
            },
    {
        if check_host(s) {
            Ok(Host { text: s.to_owned() })
        } else {
            Err(AddressError::InvalidHost)
        }
    }

    /// The text of the host.
    pub fn as_str(&self) -> (s: &str)
        ensures
            s@ == self@,
            is_host(s@),
    {
        proof {
            use_type_invariant(self);
        }
        self.text.as_str()
    }

    /// The text of the host, as a new string.
    pub fn to_string(&self) -> (s: String)
        ensures
            s@ == self@,
    {
        self.text.clone()
    }
}

impl Clone for Host {
    fn clone(&self) -> (copy: Self)
        ensures
            copy@ == self@,
    {
        proof {
            use_type_invariant(self);
        }
        Host { text: self.text.clone() }
    }
}

/// A host together with a port.
#[derive(Debug, PartialEq, Eq)]
pub struct Authority {
    host: Host,
    port: u16,
}

impl View for Authority {
    type V = AuthorityView;

    closed spec fn view(&self) -> AuthorityView {
        AuthorityView { host: self.host@, port: self.port }
    }
}

impl Authority {
    /// An authority of the given host and port.
    pub fn new(host: Host, port: u16) -> (authority: Authority)
        ensures
            authority@ == (AuthorityView { host: host@, port }),
    {
        Authority { host, port }
    }

    /// Reads an authority from its text `host:port`. Fails exactly on
    /// texts that write no authority.
    pub fn parse(s: &str) -> (authority: Result<Authority, AddressError>)
        ensures
            match authority {
                Ok(a) => authority_of(s@) == Some(a@),
                Err(e) => authority_of(s@) is None && e == AddressError::InvalidAuthority,
            },
    {
        match find_last_colon(s) {
            None => Err(AddressError::InvalidAuthority),
            Some(i) => {
                proof {
                    let k = choose|k: int| is_last_colon(s@, k);
                    assert(is_last_colon(s@, i as int));
                    assert(k == i) by {
                        if k < i {
                            assert(s@[i as int] != ':');
                        } else if i < k {
                            assert(s@[k] != ':');
                        }
                    }
                }
                let n = s.unicode_len();
                let left = s.substring_char(0, i);
                assert(left@ == s@.take(i as int));
                match parse_u16(s, i + 1) {
                    None => Err(AddressError::InvalidAuthority),
                    Some(port) => match Host::parse(left) {
                        Ok(host) => Ok(Authority { host, port }),
                        Err(_) => Err(AddressError::InvalidAuthority),
                    },
                }
            },
        }
    }

    /// The host of the authority.
    pub fn host(&self) -> (host: &Host)
        ensures
            host@ == self@.host,
    {
        &self.host
    }

    /// The port of the authority.
    pub fn port(&self) -> (port: u16)
        ensures
            port == self@.port,
    {
        self.port
    }

    /// The host and the port, apart.
    pub fn into_parts(self) -> (parts: (Host, u16))
        ensures
            parts.0@ == self@.host,
            parts.1 == self@.port,
    {
        (self.host, self.port)
    }

    /// The text of the authority: the host, a colon, the port in decimal.
    pub fn to_string(&self) -> (s: String)
        ensures
            s@ == authority_text(self@),
    {
        let mut s = self.host.to_string();
        s.append(":");
        let digits = decimal_string(self.port as u64);
        s.append(digits.as_str());
        proof {
            reveal_strlit(":");
            assert(":"@ =~= seq![':']);
        }
        s
    }
}

/// Writing and reading agree: the text of an authority writes that
/// authority, whatever its host and port.
pub proof fn authority_text_is_read_back(a: AuthorityView)
    requires
        is_host(a.host),
    ensures
        authority_of(authority_text(a)) == Some(a),
{
    let digits = decimal(a.port as nat);
    let text = authority_text(a);
    let at = a.host.len() as int;
    decimal_is_read_back(a.port as nat);
    assert(text[at] == ':');
    assert forall|j: int| at < j < text.len() implies text[j] != ':' by {
        assert(text[j] == digits[j - at - 1]);
        assert(is_digit(digits[j - at - 1]));
    }
    assert(is_last_colon(text, at));
    let found = choose|i: int| is_last_colon(text, i);
    assert(found == at) by {
        if found < at {
            assert(text[at] != ':');
        } else if at < found {
            assert(text[found] != ':');
        }
    }
    assert(text.take(at) =~= a.host);
    assert(text.skip(at + 1) =~= digits);
}

impl<'a> TryFrom<&'a str> for Authority {
    type Error = AddressError;

    /// Reads an authority from its text, as [`Authority::parse`] does.
    fn try_from(s: &'a str) -> (authority: Result<Authority, AddressError>)
        ensures
            match authority {
                Ok(a) => authority_of(s@) == Some(a@),
                Err(e) => authority_of(s@) is None && e == AddressError::InvalidAuthority,
            },
    {
        Authority::parse(s)
    }
}

impl<'a> TryFromSpecImpl<&'a str> for Authority {
    open spec fn obeys_try_from_spec() -> bool {
        false
    }

    open spec fn try_from_spec(s: &'a str) -> Result<Authority, AddressError> {
        Err(AddressError::InvalidAuthority)
    }
}

impl std::str::FromStr for Authority {
    type Err = AddressError;

    /// Reads an authority from its text, as [`Authority::parse`] does.
    fn from_str(s: &str) -> (authority: Result<Authority, AddressError>)
        ensures
            match authority {
                Ok(a) => authority_of(s@) == Some(a@),
                Err(e) => authority_of(s@) is None && e == AddressError::InvalidAuthority,
            },
    {
        Authority::parse(s)
    }
}

impl Clone for Authority {
    fn clone(&self) -> (copy: Self)
        ensures
            copy@ == self@,
    {
        Authority { host: self.host.clone(), port: self.port }
    }
}

} // verus!
