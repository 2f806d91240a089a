//! The parts of a test URL that the clients use.

use vstd::prelude::*;
use crate::text::{ascii_bytes, bytes_are, decimal, push_bytes, push_decimal, push_str};

verus! {

/// What `url::Url::parse` makes of a text: `None` when it is no URL, else the
/// scheme, the host, the explicit port, the path and the query, the texts as
/// their bytes.
pub uninterp spec fn url_parse(
    input: Seq<char>,
) -> Option<(Seq<u8>, Option<Seq<u8>>, Option<u16>, Seq<u8>, Option<Seq<u8>>)>;

/// The parts of a parsed URL, as bytes.
#[derive(Debug)]
pub struct UrlParts {
    /// The scheme, lower-cased, without `:`.
    pub scheme: Vec<u8>,
    /// The host, if the URL has one.
    pub host: Option<Vec<u8>>,
    /// The port written in the URL, if any.
    pub port: Option<u16>,
    /// The path.
    pub path: Vec<u8>,
    /// The query, without `?`, if any.
    pub query: Option<Vec<u8>>,
}

/// The bytes of an optional byte vector.
pub open spec fn opt_bytes(o: Option<Vec<u8>>) -> Option<Seq<u8>> {
    match o {
        Some(v) => Some(v@),
        None => None,
    }
}

impl UrlParts {
    /// The parts as plain values.
    pub open spec fn parts(&self) -> (Seq<u8>, Option<Seq<u8>>, Option<u16>, Seq<u8>, Option<Seq<u8>>) {
        (self.scheme@, opt_bytes(self.host), self.port, self.path@, opt_bytes(self.query))
    }
}

/// Calls `url::Url::parse` and reads the scheme, host, port, path and query
/// of the result as bytes. The contract only names the result (`url_parse`):
/// what URL parsing does is not stated here.
#[verifier::external_body]
fn parse_url(input: &str) -> (r: Option<UrlParts>)
    ensures
        match r {
            Some(p) => url_parse(input@) == Some(p.parts()),
            None => url_parse(input@).is_none(),
        },
{
    match url::Url::parse(input) {
        Ok(u) => Some(UrlParts {
            scheme: u.scheme().as_bytes().to_vec(),
            host: u.host_str().map(|h| h.as_bytes().to_vec()),
            port: u.port(),
            path: u.path().as_bytes().to_vec(),
            query: u.query().map(|q| q.as_bytes().to_vec()),
        }),
        Err(_) => None,
    }
}

/// The port a scheme uses when the URL gives none.
pub open spec fn known_default_port(scheme: Seq<u8>) -> Option<u16> {
    if scheme == ascii_bytes("http"@) || scheme == ascii_bytes("ws"@) {
        Some(80)
    } else if scheme == ascii_bytes("https"@) || scheme == ascii_bytes("wss"@) {
        Some(443)
    } else if scheme == ascii_bytes("ftp"@) {
        Some(21)
    } else {
        None
    }
}

/// The explicit port, else the scheme's known default.
pub open spec fn port_or_default_of(parts: (Seq<u8>, Option<Seq<u8>>, Option<u16>, Seq<u8>, Option<Seq<u8>>)) -> Option<u16> {
    match parts.2 {
        Some(p) => Some(p),
        None => known_default_port(parts.0),
    }
}

/// `host:port` for a host and a port.
pub open spec fn host_port_text(host: Seq<u8>, port: u16) -> Seq<u8> {
    host + ascii_bytes(":"@) + decimal(port as nat)
}

/// The path followed by `?` and the query when there is one.
pub open spec fn path_and_query_of(path: Seq<u8>, query: Option<Seq<u8>>) -> Seq<u8> {
    match query {
        Some(q) => path + ascii_bytes("?"@) + q,
        None => path,
    }
}

impl UrlParts {
    /// Parses a URL.
    pub fn parse(input: &str) -> (r: Option<UrlParts>)
        ensures
            match r {
                Some(p) => url_parse(input@) == Some(p.parts()),
                None => url_parse(input@).is_none(),
            },
    {
        parse_url(input)
    }

    /// The explicit port, else the known default of the scheme
    /// (80 for http and ws, 443 for https and wss, 21 for ftp).
    pub fn port_or_known_default(&self) -> (r: Option<u16>)
        ensures
            r == port_or_default_of(self.parts()),
    {
        match self.port {
            Some(p) => Some(p),
            None => {
                proof {
                    reveal_strlit("http");
                    reveal_strlit("ws");
                    reveal_strlit("https");
                    reveal_strlit("wss");
                    reveal_strlit("ftp");
                }
                if bytes_are(self.scheme.as_slice(), "http") || bytes_are(self.scheme.as_slice(), "ws") {
                    Some(80)
                } else if bytes_are(self.scheme.as_slice(), "https") || bytes_are(
                    self.scheme.as_slice(),
                    "wss",
                ) {
                    Some(443)
                } else if bytes_are(self.scheme.as_slice(), "ftp") {
                    Some(21)
                } else {
                    None
                }
            },
        }
    }

    /// Whether the connection is made over TLS: the scheme is `https`.
    pub fn uses_tls(&self) -> (b: bool)
        ensures
            b == (self.scheme@ == ascii_bytes("https"@)),
    {
        proof {
            reveal_strlit("https");
        }
        bytes_are(self.scheme.as_slice(), "https")
    }

    /// `host:port` with the port or its known default; `None` when the URL
    /// has no host or no known port.
    pub fn host_port(&self) -> (r: Option<Vec<u8>>)
        ensures
            match r {
                Some(v) => self.host.is_some() && port_or_default_of(self.parts()).is_some()
                    && v@ == host_port_text(
                    self.host.unwrap()@,
                    port_or_default_of(self.parts()).unwrap(),
                ),
                None => self.host.is_none() || port_or_default_of(self.parts()).is_none(),
            },
    {
        let port = match self.port_or_known_default() {
            Some(p) => p,
            None => {
                return None;
            },
        };
        match &self.host {
            Some(h) => {
                let mut v: Vec<u8> = Vec::new();
                push_bytes(&mut v, h.as_slice());
                proof {
                    reveal_strlit(":");
                }
                push_str(&mut v, ":");
                push_decimal(&mut v, port as u128);
                proof {
                    assert(v@ =~= host_port_text(h@, port));
                }
                Some(v)
            },
            None => None,
        }
    }

    /// `host:port`, with an empty host when there is none and port 80 when
    /// the URL has no known port.
    pub fn host_port_or_default(&self) -> (v: Vec<u8>)
        ensures
            v@ == host_port_text(
                match self.host {
                    Some(h) => h@,
                    None => Seq::empty(),
                },
                match port_or_default_of(self.parts()) {
                    Some(p) => p,
                    None => 80,
                },
            ),
    {
        let port = match self.port_or_known_default() {
            Some(p) => p,
            None => 80,
        };
        let mut v: Vec<u8> = Vec::new();
        match &self.host {
            Some(h) => push_bytes(&mut v, h.as_slice()),
            None => {},
        }
        proof {
            reveal_strlit(":");
        }
        push_str(&mut v, ":");
        push_decimal(&mut v, port as u128);
        proof {
            let h = match opt_bytes(self.host) {
                Some(h) => h,
                None => Seq::<u8>::empty(),
            };
            assert(v@ =~= host_port_text(h, port));
        }
        v
    }

    /// The path, followed by `?` and the query when there is one.
    pub fn path_and_query(&self) -> (v: Vec<u8>)
        ensures
            v@ == path_and_query_of(self.path@, opt_bytes(self.query)),
    {
        let mut v: Vec<u8> = Vec::new();
        push_bytes(&mut v, self.path.as_slice());
        match &self.query {
            Some(q) => {
                proof {
                    reveal_strlit("?");
                }
                push_str(&mut v, "?");
                push_bytes(&mut v, q.as_slice());
                proof {
                    assert(v@ =~= self.path@ + ascii_bytes("?"@) + q@);
                }
            },
            None => {
                proof {
                    assert(v@ =~= self.path@);
                }
            },
        }
        v
    }
}

/// Without an explicit port, http and ws URLs use port 80, https and wss
/// URLs port 443 and ftp URLs port 21, and an empty scheme has no default;
/// an explicit port always wins.
pub proof fn law_default_ports(parts: (Seq<u8>, Option<Seq<u8>>, Option<u16>, Seq<u8>, Option<Seq<u8>>))
    ensures
        parts.2.is_some() ==> port_or_default_of(parts) == parts.2,
        parts.2.is_none() && parts.0 == ascii_bytes("http"@) ==> port_or_default_of(parts) == Some(80u16),
        parts.2.is_none() && parts.0 == ascii_bytes("https"@) ==> port_or_default_of(parts) == Some(443u16),
        parts.2.is_none() && parts.0 == ascii_bytes("ws"@) ==> port_or_default_of(parts) == Some(80u16),
        parts.2.is_none() && parts.0 == ascii_bytes("wss"@) ==> port_or_default_of(parts) == Some(443u16),
        parts.2.is_none() && parts.0 == ascii_bytes("ftp"@) ==> port_or_default_of(parts) == Some(21u16),
        parts.2.is_none() && parts.0.len() == 0 ==> port_or_default_of(parts) is None,
{
    reveal_strlit("http");
    reveal_strlit("ws");
    reveal_strlit("https");
    reveal_strlit("wss");
    reveal_strlit("ftp");
    assert(ascii_bytes("wss"@)[0] != ascii_bytes("ftp"@)[0]);
    assert(ascii_bytes("wss"@).len() != ascii_bytes("http"@).len());
    assert(ascii_bytes("wss"@).len() != ascii_bytes("ws"@).len());
    assert(ascii_bytes("ftp"@).len() != ascii_bytes("http"@).len());
    assert(ascii_bytes("ftp"@).len() != ascii_bytes("https"@).len());
    assert(ascii_bytes("ftp"@).len() != ascii_bytes("ws"@).len());
    assert(ascii_bytes("ws"@).len() != ascii_bytes("https"@).len());
    assert(ascii_bytes("https"@).len() != ascii_bytes("http"@).len());
    assert(ascii_bytes("https"@).len() != ascii_bytes("ws"@).len());
}

} // verus!
