use pbft::cmdline::{parse_log_tag, parse_u16, Arguments, Network, NodeType, Options, OptionsError};

fn empty_args() -> Arguments {
    Arguments {
        hostname: None,
        port: None,
        config: None,
        log_level: None,
        log_tags: None,
        passive: false,
        consensus_type: None,
        network: None,
    }
}

#[test]
fn decimal_u16() {
    assert_eq!(parse_u16("0"), Some(0));
    assert_eq!(parse_u16("8443"), Some(8443));
    assert_eq!(parse_u16("+80"), Some(80));
    assert_eq!(parse_u16("65535"), Some(65535));
    assert_eq!(parse_u16("0065535"), Some(65535));
    assert_eq!(parse_u16("65536"), None);
    assert_eq!(parse_u16("99999999999"), None);
    assert_eq!(parse_u16(""), None);
    assert_eq!(parse_u16("+"), None);
    assert_eq!(parse_u16("-1"), None);
    assert_eq!(parse_u16("12a"), None);
    assert_eq!(parse_u16(" 12"), None);
}

#[test]
fn log_tag_pairs() {
    assert_eq!(parse_log_tag("net:debug"), Some(("net".to_string(), "debug".to_string())));
    assert_eq!(parse_log_tag(":"), Some((String::new(), String::new())));
    assert_eq!(parse_log_tag("net"), None);
    assert_eq!(parse_log_tag("a:b:c"), None);
}

#[test]
fn node_types_and_networks() {
    assert_eq!(NodeType::from_str("full"), Some(NodeType::Full));
    assert_eq!(NodeType::from_str("Light"), Some(NodeType::Light));
    assert_eq!(NodeType::from_str("NANO"), Some(NodeType::Nano));
    assert_eq!(NodeType::from_str("archive"), None);
    assert_eq!(Network::from_str("dev"), Some(Network::Dev));
    assert_eq!(Network::from_str("Test"), Some(Network::Test));
    assert_eq!(Network::from_str("mainnet"), None);
}

#[test]
fn options_from_arguments() {
    let mut args = empty_args();
    args.hostname = Some("node.example.com".to_string());
    args.port = Some(" 8443 ".to_string());
    args.config = Some("client.toml".to_string());
    args.log_level = Some("debug".to_string());
    args.log_tags = Some(vec!["net:trace".to_string(), "sync:info".to_string()]);
    args.passive = true;
    args.consensus_type = Some("light\n".to_string());
    args.network = Some("test".to_string());
    let o = Options::parse(&args).unwrap();
    assert_eq!(o.hostname.as_deref(), Some("node.example.com"));
    assert_eq!(o.port, Some(8443));
    assert_eq!(o.config_file.as_deref(), Some("client.toml"));
    assert_eq!(o.log_level.as_deref(), Some("debug"));
    assert_eq!(
        o.log_tags,
        vec![("net".to_string(), "trace".to_string()), ("sync".to_string(), "info".to_string())]
    );
    assert!(o.passive);
    assert_eq!(o.consensus_type, Some(NodeType::Light));
    assert_eq!(o.network, Some(Network::Test));
    assert!(o.wallet_seed.is_none());
    assert!(o.wallet_address.is_none());
}

#[test]
fn options_defaults() {
    let o = Options::parse(&empty_args()).unwrap();
    assert!(o.hostname.is_none());
    assert!(o.port.is_none());
    assert!(o.log_tags.is_empty());
    assert!(!o.passive);
    assert!(o.consensus_type.is_none());
    assert!(o.network.is_none());
}

#[test]
fn options_errors_in_order() {
    let mut args = empty_args();
    args.port = Some("http".to_string());
    args.log_tags = Some(vec!["bad".to_string()]);
    args.network = Some("moon".to_string());
    assert!(matches!(Options::parse(&args), Err(OptionsError::Port)));
    args.port = None;
    assert!(matches!(Options::parse(&args), Err(OptionsError::LogTag)));
    args.log_tags = None;
    args.consensus_type = Some("heavy".to_string());
    assert!(matches!(Options::parse(&args), Err(OptionsError::ConsensusType)));
    args.consensus_type = None;
    assert!(matches!(Options::parse(&args), Err(OptionsError::Network)));
}
