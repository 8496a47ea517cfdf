use subpipe::builders::surge_proxy_line;
use subpipe::parsers::protocols::anytls::AnyTLSConfig;
use subpipe::parsers::protocols::trojan::TrojanConfig;
use subpipe::parsers::uri::ProxyParseError;
use subpipe::parsers::{ProxyConfig, ProxyParser};

#[test]
fn trojan_full_uri() {
    let url = "trojan://secret@example.com:443?sni=sni.example.com&type=ws&path=%2Fws&host=cdn.example.com&allowInsecure=1#%E9%A6%99%E6%B8%AF%2001";
    let c = TrojanConfig::parse(url).unwrap();
    assert_eq!(c.name, "香港 01");
    assert_eq!(c.password, "secret");
    assert_eq!(c.server, "example.com");
    assert_eq!(c.port, 443);
    assert_eq!(c.network.as_deref(), Some("ws"));
    assert_eq!(c.path.as_deref(), Some("%2Fws"));
    assert_eq!(c.host.as_deref(), Some("cdn.example.com"));
    assert_eq!(c.sni.as_deref(), Some("sni.example.com"));
    assert_eq!(c.allow_insecure, Some(true));
    let line = surge_proxy_line(&ProxyConfig::Trojan(c));
    assert_eq!(
        line,
        "香港 01 = trojan, example.com, 443, password=secret, sni=sni.example.com, insecure=true, network=ws, ws-path=%2Fws, ws-headers=Host:{cdn.example.com}"
    );
}

#[test]
fn trojan_default_name_and_port_suffix() {
    let c = TrojanConfig::parse("trojan://pw@host:8443/").unwrap();
    assert_eq!(c.name, "Trojan");
    assert_eq!(c.port, 8443);
    assert_eq!(c.server, "host");
}

#[test]
fn trojan_errors() {
    assert!(matches!(TrojanConfig::parse("vless://x@h:1"), Err(ProxyParseError::WrongScheme)));
    assert!(matches!(TrojanConfig::parse("trojan://nohost"), Err(ProxyParseError::InvalidFormat)));
    assert!(matches!(TrojanConfig::parse("trojan://p@host"), Err(ProxyParseError::InvalidHostPort)));
    assert!(matches!(TrojanConfig::parse("trojan://p@host:abc"), Err(ProxyParseError::InvalidPort)));
    assert!(matches!(TrojanConfig::parse("trojan://p@host:70000"), Err(ProxyParseError::InvalidPort)));
}

#[test]
fn trojan_clash_and_singbox() {
    let c = TrojanConfig::parse("trojan://pw@h.example:443?sni=s.example#N").unwrap();
    let clash = c.to_clash();
    assert_eq!(clash.get("name").unwrap().as_str(), Some("N"));
    assert_eq!(clash.get("type").unwrap().as_str(), Some("trojan"));
    assert_eq!(clash.get("sni").unwrap().as_str(), Some("s.example"));
    let sb = c.to_singbox();
    assert_eq!(sb.get("type").unwrap().as_str(), Some("trojan"));
    assert_eq!(sb.get("tag").unwrap().as_str(), Some("N"));
    let tls = sb.get("tls").unwrap();
    assert_eq!(tls.get("enabled").unwrap().as_bool(), Some(true));
    assert_eq!(tls.get("server_name").unwrap().as_str(), Some("s.example"));
}

#[test]
fn anytls_uri() {
    let c = AnyTLSConfig::parse("anytls://uuid-1@a.example:8443?sni=b.example&fp=chrome#Any").unwrap();
    assert_eq!(c.name, "Any");
    assert_eq!(c.uuid, "uuid-1");
    assert_eq!(c.server, "a.example");
    assert_eq!(c.port, 8443);
    assert_eq!(c.sni.as_deref(), Some("b.example"));
    assert_eq!(c.fp.as_deref(), Some("chrome"));
    let line = surge_proxy_line(&ProxyConfig::AnyTLS(c));
    assert_eq!(line, "# Any (unsupported)");
}

#[test]
fn proxy_parser_dispatch() {
    assert!(matches!(ProxyParser::parse("hy2://p@h:1#X"), Ok(ProxyConfig::Hysteria2(_))));
    assert!(matches!(ProxyParser::parse("anytls://u@h:1#X"), Ok(ProxyConfig::AnyTLS(_))));
    assert!(matches!(ProxyParser::parse("trojan://p@h:1#X"), Ok(ProxyConfig::Trojan(_))));
    assert!(matches!(ProxyParser::parse("vmess://abc"), Err(ProxyParseError::UnsupportedScheme)));
    let p = ProxyParser::parse("hysteria2://p@h:1#Name").unwrap();
    assert_eq!(p.name(), "Name");
}

#[test]
fn hysteria2_surge_line() {
    let p = ProxyParser::parse("hy2://pw@h.example:443?obfs=salamander&obfs-password=op&sni=s.example&insecure=1#H").unwrap();
    let line = surge_proxy_line(&p);
    assert!(line.starts_with("H = hysteria2, h.example, 443, password=pw"));
}

#[test]
fn percent_decoding_of_fields() {
    let plain: Vec<char> = "pass".chars().collect();
    assert_eq!(subpipe::parsers::uri::url_decode(&plain), "pass");
    let coded: Vec<char> = "a%20b%E9%A6%99".chars().collect();
    assert_eq!(subpipe::parsers::uri::url_decode(&coded), "a b香");
    let bad: Vec<char> = "%FF".chars().collect();
    assert_eq!(subpipe::parsers::uri::url_decode(&bad), "%FF");
}
