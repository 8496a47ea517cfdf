use subpipe::parsers::protocols::hysteria2::Hysteria2Config;

#[test]
fn test_parse_hysteria2_hy2() {
    let url = "hy2://pass@host:1234#MyHY2";
    let config = Hysteria2Config::parse(url).unwrap();
    assert_eq!(config.name, "MyHY2");
    assert_eq!(config.password, "pass");
    assert_eq!(config.server, "host");
    assert_eq!(config.port, 1234);
}

#[test]
fn test_parse_hysteria2_hysteria() {
    let url = "hysteria://pass@host:1234#MyHysteria";
    let config = Hysteria2Config::parse(url).unwrap();
    assert_eq!(config.name, "MyHysteria");
    assert_eq!(config.password, "pass");
    assert_eq!(config.server, "host");
    assert_eq!(config.port, 1234);
}

#[test]
fn test_to_singbox_with_tls_enabled() {
    // Test that hysteria2 with sni has tls.enabled = true
    let url = "hy2://pass@host:1234?sni=example.com#MyHY2";
    let config = Hysteria2Config::parse(url).unwrap();
    let singbox = config.to_singbox();

    let tls = singbox.get("tls").unwrap();
    assert!(tls.get("enabled").unwrap().as_bool().unwrap(), "TLS enabled should be true");
    assert_eq!(tls.get("server_name").unwrap().as_str().unwrap(), "example.com");
}

#[test]
fn test_to_singbox_without_tls() {
    // Test that hysteria2 without sni/insecure has no tls config
    let url = "hy2://pass@host:1234#MyHY2";
    let config = Hysteria2Config::parse(url).unwrap();
    let singbox = config.to_singbox();

    assert!(singbox.get("tls").is_none(), "TLS should not be present when not configured");
}

#[test]
fn test_to_singbox_with_insecure() {
    // Test that hysteria2 with insecure has tls.enabled = true
    // Note: bool::parse only accepts "true"/"false", not "1"/"0"
    let url = "hy2://pass@host:1234?insecure=true#MyHY2";
    let config = Hysteria2Config::parse(url).unwrap();
    let singbox = config.to_singbox();

    let tls = singbox.get("tls").unwrap();
    assert!(tls.get("enabled").unwrap().as_bool().unwrap(), "TLS enabled should be true");
    assert!(tls.get("insecure").unwrap().as_bool().unwrap());
}
