use pbft::peer_uri::{PeerUri, PeerUriError, Protocol, UrlParts};

const PEER_ID: &str = "e9a3ca5c1ba4c1d2c9a3b4dc6ec15e1a";
const PUBLIC_KEY: &str = "b8d1a3d4e9a3ca5c1ba4c1d2c9a3b4dc6ec15e1ae9a3ca5c1ba4c1d2c9a3b4dc";

fn parts(scheme: &str, host: Option<&str>, port: Option<u16>, path: Vec<&str>) -> UrlParts {
    UrlParts {
        scheme: scheme.to_string(),
        username: String::new(),
        password: None,
        query: None,
        fragment: None,
        host: host.map(String::from),
        port,
        path_segments: Some(path.into_iter().map(String::from).collect()),
    }
}

#[test]
fn protocols_read_and_print() {
    assert_eq!(Protocol::from_str("ws").unwrap(), Protocol::Ws);
    assert_eq!(Protocol::from_str("wss").unwrap(), Protocol::Wss);
    assert_eq!(Protocol::from_str("dumb").unwrap(), Protocol::Dumb);
    assert_eq!(Protocol::from_str("rtc").unwrap(), Protocol::Rtc);
    assert!(matches!(Protocol::from_str("http"), Err(PeerUriError::UnknownProtocol)));
    assert!(matches!(Protocol::from_str("WS"), Err(PeerUriError::UnknownProtocol)));
    assert_eq!(Protocol::Wss.as_str(), "wss");
    assert_eq!(Protocol::Dumb.as_str(), "dumb");
}

#[test]
fn ws_uri_with_peer_id() {
    let s = format!("wss://seed.example.com:8443/{}", PEER_ID);
    let uri = PeerUri::from_str(&s).unwrap();
    assert_eq!(uri.protocol(), Protocol::Wss);
    assert_eq!(uri.hostname().unwrap(), "seed.example.com");
    assert_eq!(uri.port(), Some(8443));
    assert_eq!(uri.peer_id().unwrap(), PEER_ID);
    assert!(uri.public_key().is_none());
}

#[test]
fn ws_uri_with_public_key() {
    let s = format!("ws://node.example.com/{}", PUBLIC_KEY);
    let uri = PeerUri::from_str(&s).unwrap();
    assert_eq!(uri.protocol(), Protocol::Ws);
    assert_eq!(uri.port(), None);
    assert!(uri.peer_id().is_none());
    assert_eq!(uri.public_key().unwrap(), PUBLIC_KEY);
}

#[test]
fn ws_uri_without_path() {
    let uri = PeerUri::from_str("ws://node.example.com:8080").unwrap();
    assert_eq!(uri.hostname().unwrap(), "node.example.com");
    assert_eq!(uri.port(), Some(8080));
    assert!(uri.peer_id().is_none());
    assert!(uri.public_key().is_none());
}

#[test]
fn dumb_uri_carries_peer_id_as_host() {
    let uri = PeerUri::from_url(parts("dumb", Some(PEER_ID), None, vec![""])).unwrap();
    assert_eq!(uri.protocol(), Protocol::Dumb);
    assert_eq!(uri.peer_id().unwrap(), PEER_ID);
    assert!(uri.hostname().is_none());
    assert!(uri.port().is_none());
}

#[test]
fn uri_errors() {
    assert!(matches!(PeerUri::from_str("not a uri"), Err(PeerUriError::InvalidUri(_))));
    assert!(matches!(PeerUri::from_str("http://example.com"), Err(PeerUriError::UnknownProtocol)));
    assert!(matches!(PeerUri::from_str("ws://user@example.com"), Err(PeerUriError::UnexpectedUsername)));
    assert!(matches!(PeerUri::from_str("ws://:pw@example.com"), Err(PeerUriError::UnexpectedPassword)));
    assert!(matches!(PeerUri::from_str("ws://example.com/?a=1"), Err(PeerUriError::UnexpectedQuery)));
    assert!(matches!(PeerUri::from_str("ws://example.com/#f"), Err(PeerUriError::UnexpectedFragment)));
    assert!(matches!(PeerUri::from_str("ws://example.com/a/b"), Err(PeerUriError::TooManyPathSegments)));
    assert!(matches!(PeerUri::from_str("ws://example.com/abc"), Err(PeerUriError::InvalidPeerId)));
    assert!(matches!(
        PeerUri::from_url(parts("ws", None, None, vec![])),
        Err(PeerUriError::MissingHostname)
    ));
    assert!(matches!(
        PeerUri::from_url(parts("rtc", None, None, vec![])),
        Err(PeerUriError::MissingPeerId)
    ));
    assert!(matches!(
        PeerUri::from_url(parts("dumb", Some(PEER_ID), Some(80), vec![])),
        Err(PeerUriError::UnexpectedPort)
    ));
    assert!(matches!(
        PeerUri::from_url(parts("rtc", Some(PEER_ID), None, vec![PEER_ID])),
        Err(PeerUriError::UnexpectedPath)
    ));
}

#[test]
fn uris_print_back() {
    let s = format!("wss://seed.example.com:8443/{}", PEER_ID);
    assert_eq!(PeerUri::from_str(&s).unwrap().to_uri_string(), s);
    let s = format!("ws://node.example.com/{}", PUBLIC_KEY);
    assert_eq!(PeerUri::from_str(&s).unwrap().to_uri_string(), s);
    assert_eq!(PeerUri::from_str("ws://node.example.com:7").unwrap().to_uri_string(), "ws://node.example.com:7");
    let dumb = PeerUri::from_url(parts("dumb", Some(PEER_ID), None, vec![])).unwrap();
    assert_eq!(dumb.to_uri_string(), format!("dumb://{}", PEER_ID));
}
