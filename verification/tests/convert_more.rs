use std::path::PathBuf;
use subpipe::builders::{build_simple_clash, build_simple_singbox, build_simple_surge};
use subpipe::cli::{ConvertArgs, OutputFormat, TemplateArgs};
use subpipe::config::rules::{direct_default_rules, get_rule_by_name, unified_rules};
use subpipe::config::singbox_config::{default_v1_11, default_v1_12};
use subpipe::convert::{generate_template, parse_proxy_lines, parse_subscription, render_plain, ConvertError, Rendered};
use subpipe::parsers::ProxyParser;
use subpipe::templates::defaults::{CLASH_TEMPLATE, SURGE_TEMPLATE};
use subpipe::utils::base64_utils::{decode, Base64Error};
use subpipe::utils::value::ConfigValue;

#[test]
fn base64_decoding() {
    assert_eq!(decode("SGVsbG8=").unwrap(), b"Hello".to_vec());
    assert_eq!(decode("SGVsbG8").unwrap(), b"Hello".to_vec());
    assert_eq!(decode(" SGVs\nbG8=\r\n").unwrap(), b"Hello".to_vec());
    assert_eq!(decode("-_8=").unwrap(), vec![251u8, 255u8]);
    assert_eq!(decode("+/8=").unwrap(), vec![251u8, 255u8]);
    assert_eq!(decode("").unwrap(), Vec::<u8>::new());
    assert_eq!(decode("SGVsbG8*"), Err(Base64Error::InvalidChar));
    assert_eq!(decode("trojan://x"), Err(Base64Error::InvalidChar));
    assert_eq!(decode("SGVsb"), Err(Base64Error::InvalidLength));
}

#[test]
fn subscription_in_base64() {
    let nodes = parse_subscription("dHJvamFuOi8vcEBoOjQ0MyNBCmh5MjovL3FAZzo4NDQzI0IK").unwrap();
    let names: Vec<&str> = nodes.iter().map(|p| p.name()).collect();
    assert_eq!(names, vec!["A", "B"]);
}

#[test]
fn subscription_in_base64_with_utf8_names() {
    let nodes = parse_subscription("dHJvamFuOi8vcEBoOjQ0MyPpppnmuK8=").unwrap();
    assert_eq!(nodes.len(), 1);
    assert_eq!(nodes[0].name(), "香港");
}

#[test]
fn subscription_in_plain_text() {
    let text = "trojan://p@h:443#A\r\nnot a proxy\r\n\r\n  hy2://q@g:8443#B  \rvmess://zzz\n";
    let nodes = parse_subscription(text).unwrap();
    let names: Vec<&str> = nodes.iter().map(|p| p.name()).collect();
    assert_eq!(names, vec!["A", "B"]);
}

#[test]
fn subscription_without_nodes() {
    assert!(matches!(parse_subscription("nothing to see"), Err(ConvertError::NoValidProxies)));
    assert!(matches!(parse_proxy_lines(""), Err(ConvertError::NoValidProxies)));
    assert_eq!(ConvertError::NoValidProxies.message(), "No valid proxy URLs found in input");
}

#[test]
fn plain_rendering() {
    let proxies = vec![ProxyParser::parse("trojan://p@h:443#A").unwrap()];
    match render_plain(OutputFormat::Surge, &proxies) {
        Rendered::Text(t) => assert_eq!(t, build_simple_surge(&proxies)),
        _ => panic!("surge is text"),
    }
    match render_plain(OutputFormat::Clash, &proxies) {
        Rendered::Yaml(v) => {
            let expected = build_simple_clash(&proxies);
            assert_eq!(v.get("mode").unwrap().as_str(), expected.get("mode").unwrap().as_str());
        }
        _ => panic!("clash is yaml"),
    }
    match render_plain(OutputFormat::Singbox, &proxies) {
        Rendered::Json(v) => {
            let expected = build_simple_singbox(&proxies);
            assert_eq!(v.get("route").unwrap().get("final").unwrap().as_str(), Some("Proxy"));
            let rules = match v.get("route").unwrap().get("rules").unwrap() {
                ConfigValue::Array(r) => r,
                _ => panic!("rules"),
            };
            assert_eq!(rules[1].get("outbound").unwrap().as_str(), Some("Proxy"));
            assert!(expected.get("route").is_some());
        }
        _ => panic!("singbox is json"),
    }
}

#[test]
fn simple_surge_text() {
    let proxies = vec![
        ProxyParser::parse("trojan://p@h:443#A").unwrap(),
        ProxyParser::parse("hy2://q@g:8443#B").unwrap(),
    ];
    let text = build_simple_surge(&proxies);
    assert!(text.starts_with("[General]\nloglevel = notify\n"));
    assert!(text.contains("[Proxy]\nA = trojan, h, 443, password=p\nB = hysteria2, g, 8443, password=q\n\n"));
    assert!(text.ends_with("[Proxy Group]\nProxy = selector, DIRECT, REJECT, A, B\n\n[Rule]\nPROTOCOL,DNS,DIRECT\nMATCH,Proxy\n"));
}

#[test]
fn simple_clash_and_singbox() {
    let proxies = vec![ProxyParser::parse("trojan://p@h:443#A").unwrap()];
    let clash = build_simple_clash(&proxies);
    assert!(matches!(clash.get("port"), Some(ConfigValue::Number(n)) if n == "7890"));
    assert_eq!(clash.get("mode").unwrap().as_str(), Some("rule"));
    let sb = build_simple_singbox(&proxies);
    match sb.get("outbounds").unwrap() {
        ConfigValue::Array(o) => {
            assert_eq!(o.len(), 4);
            assert_eq!(o[2].get("tag").unwrap().as_str(), Some("A"));
            assert_eq!(o[3].get("tag").unwrap().as_str(), Some("Proxy"));
        }
        _ => panic!("outbounds"),
    }
}

#[test]
fn default_template_per_format() {
    let args = |f| TemplateArgs { format: f, output: "-".to_string() };
    assert!(matches!(generate_template(&args(OutputFormat::Clash)), Rendered::Text(t) if t == CLASH_TEMPLATE));
    assert!(matches!(generate_template(&args(OutputFormat::Surge)), Rendered::Text(t) if t == SURGE_TEMPLATE));
    assert!(matches!(generate_template(&args(OutputFormat::Singbox)), Rendered::Json(_)));
}

#[test]
fn command_line_paths() {
    let a = ConvertArgs {
        format: OutputFormat::Clash,
        input: "-".to_string(),
        output: "out.yaml".to_string(),
        template: None,
    };
    assert_eq!(a.input_path(), None);
    assert_eq!(a.output_path(), Some(PathBuf::from("out.yaml")));
    assert_eq!(a.template_path(), None);
    let b = ConvertArgs { format: OutputFormat::Singbox, input: "sub.txt".to_string(), output: "-".to_string(), template: None };
    assert_eq!(b.input_path(), Some(PathBuf::from("sub.txt")));
    assert_eq!(b.output_path(), None);
    assert_eq!(b.template_path(), Some("template.json".to_string()));
    let c = ConvertArgs { template: Some("t.yaml".to_string()), ..b };
    assert_eq!(c.template_path(), Some("t.yaml".to_string()));
    let t = TemplateArgs { format: OutputFormat::Surge, output: "-".to_string() };
    assert_eq!(t.output_path(), None);
}

#[test]
fn rule_sets() {
    assert_eq!(unified_rules().len(), 18);
    let g = get_rule_by_name("Google").unwrap();
    assert_eq!(g.name, "Google");
    assert_eq!(g.site_rules, vec!["google"]);
    assert_eq!(g.ip_rules, vec!["google"]);
    let cn = get_rule_by_name("Location:CN").unwrap();
    assert_eq!(cn.site_rules, vec!["geolocation-cn", "cn"]);
    assert!(get_rule_by_name("Nope").is_none());
    assert_eq!(direct_default_rules(), vec!["Private", "Location:CN"]);
}

#[test]
fn default_documents() {
    let v12 = default_v1_12();
    assert_eq!(v12.get("dns").unwrap().get("final").unwrap().as_str(), Some("dns_direct"));
    assert!(v12.get("dns").unwrap().get("strategy").is_none());
    let v11 = default_v1_11();
    assert_eq!(v11.get("dns").unwrap().get("strategy").unwrap().as_str(), Some("prefer_ipv4"));
    assert_eq!(v11.get("ntp").unwrap().get("server").unwrap().as_str(), Some("time.apple.com"));
}
