use vstd::prelude::*;
use vstd::string::StringExecFns;

verus! {

/// Length in bytes of a peer ID.
pub const PEER_ID_SIZE: usize = 16;
/// Length in bytes of a peer's public key.
pub const PUBLIC_KEY_SIZE: usize = 32;

#[verifier::external_type_specification]
#[verifier::external_body]
pub struct ExParseError(url::ParseError);

/// The transport that a peer is reached over.
#[derive(Clone, Copy, Debug, PartialEq, Eq, Structural)]
pub enum Protocol {
    Dumb,
    Ws,
    Wss,
    Rtc,
}

/// Why a string is not a peer URI.
#[derive(Debug)]
pub enum PeerUriError {
    InvalidUri(url::ParseError),
    UnknownProtocol,
    MissingPeerId,
    MissingHostname,
    UnexpectedUsername,
    UnexpectedPassword,
    UnexpectedQuery,
    UnexpectedFragment,
    UnexpectedPort,
    UnexpectedPath,
    TooManyPathSegments,
    InvalidPeerId,
}

/// The protocol that a scheme names, if any.
pub open spec fn spec_protocol_of(scheme: Seq<char>) -> Option<Protocol> {
    if scheme == "dumb"@ {
        Some(Protocol::Dumb)
    } else if scheme == "ws"@ {
        Some(Protocol::Ws)
    } else if scheme == "wss"@ {
        Some(Protocol::Wss)
    } else if scheme == "rtc"@ {
        Some(Protocol::Rtc)
    } else {
        None
    }
}

/// Whether `s` holds exactly the characters of `lit`.
fn str_eq(s: &str, lit: &str) -> (r: bool)
    ensures
        r == (s@ == lit@),
{
    let n = s.unicode_len();
    if n != lit.unicode_len() {
        return false;
    }
    let mut i: usize = 0;
    while i < n
        invariant
            n == s@.len(),
            n == lit@.len(),
            i <= n,
            forall|k: int| 0 <= k < i ==> s@[k] == lit@[k],
        decreases n - i,
    {
        if s.get_char(i) != lit.get_char(i) {
            return false;
        }
        i = i + 1;
    }
    assert(s@ =~= lit@);
    true
}

impl Protocol {
    /// Reads a URI scheme as a protocol.
    pub fn from_str(s: &str) -> (r: Result<Protocol, PeerUriError>)
        ensures
            match spec_protocol_of(s@) {
                Some(p) => r == Ok::<Protocol, PeerUriError>(p),
                None => r is Err && r->Err_0 is UnknownProtocol,
            },
    {
        if str_eq(s, "dumb") {
            Ok(Protocol::Dumb)
        } else if str_eq(s, "ws") {
            Ok(Protocol::Ws)
        } else if str_eq(s, "wss") {
            Ok(Protocol::Wss)
        } else if str_eq(s, "rtc") {
            Ok(Protocol::Rtc)
        } else {
            Err(PeerUriError::UnknownProtocol)
        }
    }

    /// The scheme that names this protocol.
    pub fn as_str(&self) -> (r: &'static str)
        ensures
            r@ == spec_scheme_of(*self),
            spec_protocol_of(r@) == Some(*self),
    {
        proof {
            lemma_scheme_round_trip(*self);
        }
        match self {
            Protocol::Dumb => "dumb",
            Protocol::Ws => "ws",
            Protocol::Wss => "wss",
            Protocol::Rtc => "rtc",
        }
    }
}

/// The scheme that names protocol `p`.
pub open spec fn spec_scheme_of(p: Protocol) -> Seq<char> {
    match p {
        Protocol::Dumb => "dumb"@,
        Protocol::Ws => "ws"@,
        Protocol::Wss => "wss"@,
        Protocol::Rtc => "rtc"@,
    }
}

/// Each protocol's scheme reads back as that protocol.
pub proof fn lemma_scheme_round_trip(p: Protocol)
    ensures
        spec_protocol_of(spec_scheme_of(p)) == Some(p),
{
    reveal_strlit("dumb");
    reveal_strlit("ws");
    reveal_strlit("wss");
    reveal_strlit("rtc");
    assert("dumb"@.len() == 4 && "ws"@.len() == 2 && "wss"@.len() == 3 && "rtc"@.len() == 3);
    assert("rtc"@[0] == 'r' && "wss"@[0] == 'w');
    assert("ws"@ != "dumb"@);
    assert("wss"@ != "dumb"@);
    assert("wss"@ != "ws"@);
    assert("rtc"@ != "dumb"@);
    assert("rtc"@ != "ws"@);
    assert("rtc"@ != "wss"@);
}

pub open spec fn opt_view(o: Option<String>) -> Option<Seq<char>> {
    match o {
        Some(s) => Some(s@),
        None => None,
    }
}

/// The parts of a parsed URL that a peer URI is made of, as values.
pub ghost struct UrlPartsView {
    pub scheme: Seq<char>,
    pub username: Seq<char>,
    pub password: Option<Seq<char>>,
    pub query: Option<Seq<char>>,
    pub fragment: Option<Seq<char>>,
    pub host: Option<Seq<char>>,
    pub port: Option<u16>,
    pub path_segments: Option<Seq<Seq<char>>>,
}

/// The parts of a parsed URL that a peer URI is made of.
pub struct UrlParts {
    pub scheme: String,
    pub username: String,
    pub password: Option<String>,
    pub query: Option<String>,
    pub fragment: Option<String>,
    pub host: Option<String>,
    pub port: Option<u16>,
    /// The path split at `/`; `None` where the URL cannot have a path.
    pub path_segments: Option<Vec<String>>,
}

impl View for UrlParts {
    type V = UrlPartsView;

    open spec fn view(&self) -> UrlPartsView {
        UrlPartsView {
            scheme: self.scheme@,
            username: self.username@,
            password: opt_view(self.password),
            query: opt_view(self.query),
            fragment: opt_view(self.fragment),
            host: opt_view(self.host),
            port: self.port,
            path_segments: match self.path_segments {
                Some(v) => Some(v@.map_values(|s: String| s@)),
                None => None,
            },
        }
    }
}

/// What a peer URI holds, as values.
pub ghost struct PeerUriView {
    pub protocol: Protocol,
    pub hostname: Option<Seq<char>>,
    pub port: Option<u16>,
    pub peer_id: Option<Seq<char>>,
    pub public_key: Option<Seq<char>>,
}

/// The single non-empty path segment, if there is one; too many segments
/// is an error.
pub open spec fn spec_path_segment(segs: Option<Seq<Seq<char>>>) -> Result<Option<Seq<char>>, PeerUriError> {
    match segs {
        None => Ok(None),
        Some(s) => if s.len() == 0 {
            Ok(None)
        } else if s.len() == 1 {
            if s[0].len() == 0 {
                Ok(None)
            } else {
                Ok(Some(s[0]))
            }
        } else {
            Err(PeerUriError::TooManyPathSegments)
        },
    }
}

/// The peer URI that a URL's parts describe, or the first check it fails.
pub open spec fn spec_from_url(u: UrlPartsView) -> Result<PeerUriView, PeerUriError> {
    if u.username.len() != 0 {
        Err(PeerUriError::UnexpectedUsername)
    } else if u.password is Some {
        Err(PeerUriError::UnexpectedPassword)
    } else if u.query is Some {
        Err(PeerUriError::UnexpectedQuery)
    } else if u.fragment is Some {
        Err(PeerUriError::UnexpectedFragment)
    } else if spec_protocol_of(u.scheme) is None {
        Err(PeerUriError::UnknownProtocol)
    } else if spec_path_segment(u.path_segments) is Err {
        Err(PeerUriError::TooManyPathSegments)
    } else {
        let protocol = spec_protocol_of(u.scheme)->0;
        let path = spec_path_segment(u.path_segments)->Ok_0;
        match protocol {
            Protocol::Dumb | Protocol::Rtc => {
                if u.host is None {
                    Err(PeerUriError::MissingPeerId)
                } else if u.port is Some {
                    Err(PeerUriError::UnexpectedPort)
                } else if path is Some {
                    Err(PeerUriError::UnexpectedPath)
                } else {
                    Ok(PeerUriView { protocol, hostname: None, port: None, peer_id: u.host, public_key: None })
                }
            },
            Protocol::Ws | Protocol::Wss => {
                if u.host is None {
                    Err(PeerUriError::MissingHostname)
                } else {
                    match path {
                        None => Ok(PeerUriView { protocol, hostname: u.host, port: u.port, peer_id: None, public_key: None }),
                        Some(p) => if p.len() == 2 * PEER_ID_SIZE {
                            Ok(PeerUriView { protocol, hostname: u.host, port: u.port, peer_id: path, public_key: None })
                        } else if p.len() == 2 * PUBLIC_KEY_SIZE {
                            Ok(PeerUriView { protocol, hostname: u.host, port: u.port, peer_id: None, public_key: path })
                        } else {
                            Err(PeerUriError::InvalidPeerId)
                        },
                    }
                }
            },
        }
    }
}

/// What the url crate makes of `s`: the parts of the URL, or `None` where
/// it refuses `s`.
pub uninterp spec fn url_parts_of(s: Seq<char>) -> Option<UrlPartsView>;

/// Relies on url::Url::parse, and the parsed URL's accessors, to split `s`
/// into a URL's parts; what it returns depends on `s` alone.
#[verifier::external_body]
fn parse_url(s: &str) -> (r: Result<UrlParts, url::ParseError>)
    ensures
        match r {
            Ok(u) => url_parts_of(s@) == Some(u@),
            Err(_) => url_parts_of(s@) is None,
        },
{
    let u = url::Url::parse(s)?;
    Ok(UrlParts {
        scheme: u.scheme().to_string(),
        username: u.username().to_string(),
        password: u.password().map(String::from),
        query: u.query().map(String::from),
        fragment: u.fragment().map(String::from),
        host: u.host_str().map(String::from),
        port: u.port(),
        path_segments: u.path_segments().map(|p| p.map(String::from).collect()),
    })
}

/// Whether `r` is what `spec` describes: the same URI, or the same error.
pub open spec fn uri_result_matches(r: Result<PeerUri, PeerUriError>, spec: Result<PeerUriView, PeerUriError>) -> bool {
    match r {
        Ok(p) => spec == Ok::<PeerUriView, PeerUriError>(p@),
        Err(e) => spec == Err::<PeerUriView, PeerUriError>(e),
    }
}

/// The address of a peer: a transport and, as the transport needs, a host
/// and port, a peer ID or a public key.
#[derive(Debug, Clone)]
pub struct PeerUri {
    protocol: Protocol,
    hostname: Option<String>,
    port: Option<u16>,
    peer_id: Option<String>,
    public_key: Option<String>,
}

impl View for PeerUri {
    type V = PeerUriView;

    closed spec fn view(&self) -> PeerUriView {
        PeerUriView {
            protocol: self.protocol,
            hostname: opt_view(self.hostname),
            port: self.port,
            peer_id: opt_view(self.peer_id),
            public_key: opt_view(self.public_key),
        }
    }
}

/// The single non-empty path segment of `segs`, if there is one.
fn path_segment(segs: &Option<Vec<String>>) -> (r: Result<Option<String>, PeerUriError>)
    ensures
        match spec_path_segment(
            match segs {
                Some(v) => Some(v@.map_values(|s: String| s@)),
                None => None,
            },
        ) {
            Ok(p) => r is Ok && opt_view(r->Ok_0) == p,
            Err(_) => r is Err && r->Err_0 is TooManyPathSegments,
        },
{
    match segs {
        None => Ok(None),
        Some(v) => {
            if v.len() == 0 {
                Ok(None)
            } else if v.len() == 1 {
                if v[0].as_str().unicode_len() == 0 {
                    Ok(None)
                } else {
                    Ok(Some(v[0].clone()))
                }
            } else {
                Err(PeerUriError::TooManyPathSegments)
            }
        },
    }
}

impl PeerUri {
    /// Reads a parsed URL as a peer URI.
    ///
    /// A username, password, query or fragment is refused, and so is an
    /// unknown scheme or more than one path segment. `dumb` and `rtc` URIs
    /// carry the peer ID as their host, with no port and no path. `ws` and
    /// `wss` URIs need a host; their path, if any, is a peer ID (32 hex
    /// digits) or a public key (64 hex digits).
    pub fn from_url(url: UrlParts) -> (r: Result<PeerUri, PeerUriError>)
        ensures
            uri_result_matches(r, spec_from_url(url@)),
            r is Ok ==> uri_wf(r->Ok_0@),
    {
        proof {
            lemma_from_url_wf(url@);
        }
        if url.username.as_str().unicode_len() != 0 {
            return Err(PeerUriError::UnexpectedUsername);
        }
        if url.password.is_some() {
            return Err(PeerUriError::UnexpectedPassword);
        }
        if url.query.is_some() {
            return Err(PeerUriError::UnexpectedQuery);
        }
        if url.fragment.is_some() {
            return Err(PeerUriError::UnexpectedFragment);
        }
        let protocol = match Protocol::from_str(url.scheme.as_str()) {
            Ok(p) => p,
            Err(e) => return Err(e),
        };
        let path = match path_segment(&url.path_segments) {
            Ok(p) => p,
            Err(e) => return Err(e),
        };
        match protocol {
            Protocol::Dumb | Protocol::Rtc => {
                let peer_id = match url.host {
                    Some(h) => h,
                    None => return Err(PeerUriError::MissingPeerId),
                };
                if url.port.is_some() {
                    return Err(PeerUriError::UnexpectedPort);
                }
                if path.is_some() {
                    return Err(PeerUriError::UnexpectedPath);
                }
                Ok(PeerUri { protocol, hostname: None, port: None, peer_id: Some(peer_id), public_key: None })
            },
            Protocol::Ws | Protocol::Wss => {
                let host = match url.host {
                    Some(h) => h,
                    None => return Err(PeerUriError::MissingHostname),
                };
                let len: usize = match &path {
                    Some(p) => p.as_str().unicode_len(),
                    None => 0,
                };
                if path.is_none() {
                    Ok(PeerUri { protocol, hostname: Some(host), port: url.port, peer_id: None, public_key: None })
                } else if len == 2 * PEER_ID_SIZE {
                    Ok(PeerUri { protocol, hostname: Some(host), port: url.port, peer_id: path, public_key: None })
                } else if len == 2 * PUBLIC_KEY_SIZE {
                    Ok(PeerUri { protocol, hostname: Some(host), port: url.port, peer_id: None, public_key: path })
                } else {
                    Err(PeerUriError::InvalidPeerId)
                }
            },
        }
    }

    /// Parses `s` as a URL and reads it as a peer URI.
    pub fn from_str(s: &str) -> (r: Result<PeerUri, PeerUriError>)
        ensures
            match url_parts_of(s@) {
                None => r is Err && r->Err_0 is InvalidUri,
                Some(u) => uri_result_matches(r, spec_from_url(u)),
            },
            r is Ok ==> uri_wf(r->Ok_0@),
    {
        match parse_url(s) {
            Ok(u) => PeerUri::from_url(u),
            Err(e) => Err(PeerUriError::InvalidUri(e)),
        }
    }

    pub fn protocol(&self) -> (r: Protocol)
        ensures
            r == self@.protocol,
    {
        self.protocol
    }

    pub fn hostname(&self) -> (r: Option<&String>)
        ensures
            r is Some <==> self@.hostname is Some,
            r is Some ==> r->0@ == self@.hostname->0,
    {
        self.hostname.as_ref()
    }

    pub fn port(&self) -> (r: Option<u16>)
        ensures
            r == self@.port,
    {
        self.port
    }

    pub fn peer_id(&self) -> (r: Option<&String>)
        ensures
            r is Some <==> self@.peer_id is Some,
            r is Some ==> r->0@ == self@.peer_id->0,
    {
        self.peer_id.as_ref()
    }

    pub fn public_key(&self) -> (r: Option<&String>)
        ensures
            r is Some <==> self@.public_key is Some,
            r is Some ==> r->0@ == self@.public_key->0,
    {
        self.public_key.as_ref()
    }
}

/// What a peer URI must hold for its transport: the peer ID for `dumb`
/// and `rtc`, the host for `ws` and `wss`.
pub open spec fn uri_wf(v: PeerUriView) -> bool {
    match v.protocol {
        Protocol::Dumb | Protocol::Rtc => v.peer_id is Some,
        Protocol::Ws | Protocol::Wss => v.hostname is Some,
    }
}

/// Every URI that a URL's parts describe holds what its transport needs.
pub proof fn lemma_from_url_wf(u: UrlPartsView)
    ensures
        spec_from_url(u) is Ok ==> uri_wf(spec_from_url(u)->Ok_0),
{
}

/// The character of decimal digit `d`.
pub open spec fn digit_char(d: nat) -> char {
    ('0' as nat + d) as char
}

/// `n` in decimal, without leading zeros.
pub open spec fn decimal(n: nat) -> Seq<char>
    decreases n,
{
    if n < 10 {
        seq![digit_char(n)]
    } else {
        decimal(n / 10).push(digit_char(n % 10))
    }
}

fn digit_str(d: u16) -> (r: &'static str)
    requires
        d < 10,
    ensures
        r@ == seq![digit_char(d as nat)],
{
    proof {
        reveal_strlit("0");
        reveal_strlit("1");
        reveal_strlit("2");
        reveal_strlit("3");
        reveal_strlit("4");
        reveal_strlit("5");
        reveal_strlit("6");
        reveal_strlit("7");
        reveal_strlit("8");
        reveal_strlit("9");
    }
    let r = match d {
        0 => "0",
        1 => "1",
        2 => "2",
        3 => "3",
        4 => "4",
        5 => "5",
        6 => "6",
        7 => "7",
        8 => "8",
        _ => "9",
    };
    assert(r@ =~= seq![digit_char(d as nat)]);
    r
}

/// Appends `n` in decimal to `out`.
fn append_decimal(out: &mut String, n: u16)
    ensures
        final(out)@ == old(out)@ + decimal(n as nat),
    decreases n,
{
    if n >= 10 {
        append_decimal(out, n / 10);
    }
    out.append(digit_str(n % 10));
    proof {
        if n >= 10 {
            assert(decimal(n as nat) == decimal((n / 10) as nat).push(digit_char((n % 10) as nat)));
        }
    }
    assert(final(out)@ =~= old(out)@ + decimal(n as nat));
}

/// The text of a peer URI: `dumb://<peer id>` or `rtc://<peer id>`, and for
/// `ws` and `wss` the host, then `:<port>` and `/<peer id or public key>`
/// where present.
pub open spec fn spec_uri_string(v: PeerUriView) -> Seq<char> {
    let head = spec_scheme_of(v.protocol) + "://"@;
    match v.protocol {
        Protocol::Dumb | Protocol::Rtc => head + v.peer_id->0,
        Protocol::Ws | Protocol::Wss => {
            let port = match v.port {
                Some(p) => ":"@ + decimal(p as nat),
                None => Seq::empty(),
            };
            let path = match v.peer_id {
                Some(id) => "/"@ + id,
                None => match v.public_key {
                    Some(k) => "/"@ + k,
                    None => Seq::empty(),
                },
            };
            head + v.hostname->0 + port + path
        },
    }
}

impl PeerUri {
    /// Writes the URI as text.
    pub fn to_uri_string(&self) -> (r: String)
        requires
            uri_wf(self@),
        ensures
            r@ == spec_uri_string(self@),
    {
        let mut out = String::from_str(self.protocol.as_str());
        out.append("://");
        match self.protocol {
            Protocol::Dumb | Protocol::Rtc => {
                match &self.peer_id {
                    Some(id) => out.append(id.as_str()),
                    None => {},
                }
            },
            Protocol::Ws | Protocol::Wss => {
                match &self.hostname {
                    Some(h) => out.append(h.as_str()),
                    None => {},
                }
                match self.port {
                    Some(p) => {
                        out.append(":");
                        append_decimal(&mut out, p);
                    },
                    None => {},
                }
                match &self.peer_id {
                    Some(id) => {
                        out.append("/");
                        out.append(id.as_str());
                    },
                    None => match &self.public_key {
                        Some(k) => {
                            out.append("/");
                            out.append(k.as_str());
                        },
                        None => {},
                    },
                }
            },
        }
        assert(out@ =~= spec_uri_string(self@));
        out
    }
}

} // verus!
