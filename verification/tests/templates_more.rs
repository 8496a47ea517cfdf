use subpipe::parsers::{ProxyConfig, ProxyParser};
use subpipe::templates::apply::{apply_clash_template, apply_surge_template, find_placeholders};
use subpipe::templates::filter::filter_proxies_by_rule;
use subpipe::templates::interpolation::{FilterOperator, InterpolationParser, InterpolationRule, RuleError};
use subpipe::templates::singbox::apply_singbox_template;
use subpipe::templates::{generate_clash_template, generate_singbox_template, generate_surge_template};
use subpipe::utils::value::{ConfigValue, Entry};

fn node(uri: &str) -> ProxyConfig {
    ProxyParser::parse(uri).unwrap()
}

fn nodes() -> Vec<ProxyConfig> {
    vec![
        node("trojan://p@h1:443#%E9%A6%99%E6%B8%AF%20%E9%AB%98%E9%80%9F"), // 香港 高速
        node("trojan://p@h2:443#%E6%97%A5%E6%9C%AC%2001"),                   // 日本 01
        node("hy2://p@h3:443#HK%20Premium"),                                 // HK Premium
        node("hy2://p@h4:443#%E9%A6%99%E6%B8%AF%20%E4%BD%8F%E5%AE%85"),     // 香港 住宅
    ]
}

fn selected_names(rule: &str) -> Vec<String> {
    let proxies = nodes();
    let rule = InterpolationParser::parse(rule).unwrap();
    filter_proxies_by_rule(&proxies, &rule).iter().map(|p| p.name().to_string()).collect()
}

#[test]
fn all_tag_selects_every_node() {
    assert_eq!(selected_names("{{ALL-TAG}}"), vec!["香港 高速", "日本 01", "HK Premium", "香港 住宅"]);
}

#[test]
fn include_any_keyword() {
    assert_eq!(selected_names("{{INCLUDE-TAG:香港,日本}}"), vec!["香港 高速", "日本 01", "香港 住宅"]);
    assert_eq!(selected_names("{{INCLUDE-TAG:香港 | 日本}}"), vec!["香港 高速", "日本 01", "香港 住宅"]);
}

#[test]
fn include_all_keywords() {
    assert_eq!(selected_names("{{INCLUDE-TAG:香港 & 高速}}"), vec!["香港 高速"]);
}

#[test]
fn exclude_keyword() {
    assert_eq!(selected_names("{{EXCLUDE-TAG:香港}}"), vec!["日本 01", "HK Premium"]);
    assert_eq!(selected_names("{{ALL-TAG;EXCLUDE-TAG:住宅}}"), vec!["香港 高速", "日本 01", "HK Premium"]);
}

#[test]
fn block_operators() {
    assert_eq!(selected_names("{{INCLUDE-TAG:香港} & {EXCLUDE-TAG:住宅}}"), vec!["香港 高速"]);
    assert_eq!(selected_names("{{INCLUDE-TAG:日本} | {INCLUDE-TAG:HK}}"), vec!["日本 01", "HK Premium"]);
}

#[test]
fn matching_ignores_case() {
    assert_eq!(selected_names("{{INCLUDE-TAG:hk}}"), vec!["HK Premium"]);
    assert_eq!(selected_names("{{include-tag:PREMIUM}}"), vec!["HK Premium"]);
}

#[test]
fn include_and_exclude_split_the_nodes() {
    let inc = selected_names("{{INCLUDE-TAG:香港}}");
    let exc = selected_names("{{EXCLUDE-TAG:香港}}");
    assert_eq!(inc.len() + exc.len(), nodes().len());
    for n in &inc {
        assert!(!exc.contains(n));
    }
}

#[test]
fn selecting_twice_is_selecting_once() {
    let proxies = nodes();
    let rule = InterpolationParser::parse("{{INCLUDE-TAG:香港}}").unwrap();
    let once: Vec<ProxyConfig> = filter_proxies_by_rule(&proxies, &rule).into_iter().cloned().collect();
    let twice = filter_proxies_by_rule(&once, &rule);
    assert_eq!(once.len(), twice.len());
}

#[test]
fn rule_names_ignore_unicode_case() {
    // U+0131 (dotless i) upper-cases to 'I'; it takes two bytes, so the
    // keyword text starts one char earlier, at the colon.
    match InterpolationParser::parse("{{ıNCLUDE-TAG:x}}").unwrap() {
        InterpolationRule::Filter { is_include, conditions } => {
            assert!(is_include);
            assert_eq!(conditions[0].operator, FilterOperator::Or);
            assert_eq!(conditions[0].keywords, vec![":x"]);
        }
        _ => panic!("Expected Filter"),
    }
    match InterpolationParser::parse("{{all-tag;exclude-tag:x}}").unwrap() {
        InterpolationRule::Combined { all_tag, filters } => {
            assert!(all_tag);
            assert_eq!(filters.len(), 1);
            assert!(!filters[0].0);
            assert_eq!(filters[0].1[0].keywords, vec!["x"]);
        }
        _ => panic!("Expected Combined"),
    }
}

#[test]
fn rule_errors() {
    assert_eq!(InterpolationParser::parse("ALL-TAG"), Err(RuleError::NotWrapped("ALL-TAG".to_string())));
    assert_eq!(InterpolationParser::parse("{{  }}"), Err(RuleError::EmptyRule));
    assert_eq!(InterpolationParser::parse("{{FOO}}"), Err(RuleError::UnknownRule("FOO".to_string())));
    assert_eq!(
        InterpolationParser::parse("{{INCLUDE-TAG: }}"),
        Err(RuleError::MissingKeywords("INCLUDE-TAG".to_string()))
    );
    assert_eq!(InterpolationParser::parse("{{ALL-TAG} & {INCLUDE-TAG:a}}"), Err(RuleError::AllTagInExpression));
    assert_eq!(
        InterpolationParser::parse("{{INCLUDE-TAG:a} | {EXCLUDE-TAG:b}}"),
        Err(RuleError::MixedIncludeExclude)
    );
    assert_eq!(InterpolationParser::parse("  {{ALL-TAG}}\n"), Ok(InterpolationRule::AllTag));
}

#[test]
fn placeholders_are_found_in_order() {
    let found = find_placeholders("a {{ALL-TAG}} b {{INCLUDE-TAG:x}} c {{ open");
    assert_eq!(
        found,
        vec![
            ("{{ALL-TAG}}".to_string(), "ALL-TAG".to_string()),
            ("{{INCLUDE-TAG:x}}".to_string(), "INCLUDE-TAG:x".to_string()),
        ]
    );
}

#[test]
fn surge_template_is_filled() {
    let proxies = vec![node("trojan://p@h:443#A"), node("trojan://q@g:443#B")];
    let t = "[Proxy]\n# proxies go here\n\n[Proxy Group]\nSel = select, {{ALL-TAG}}\nOnlyA = select, {{INCLUDE-TAG:A}}\n";
    let out = apply_surge_template(t, &proxies);
    assert_eq!(
        out,
        "[Proxy]\nA = trojan, h, 443, password=p\nB = trojan, g, 443, password=q\n\n[Proxy Group]\nSel = select, A, B\nOnlyA = select, A"
    );
}

#[test]
fn surge_template_without_placeholders_is_unchanged() {
    let proxies = vec![node("trojan://p@h:443#A")];
    let t = "[General]\nloglevel = notify\n";
    assert_eq!(apply_surge_template(t, &proxies), t);
}

fn s(x: &str) -> ConfigValue {
    ConfigValue::Str(x.to_string())
}

fn e(k: &str, v: ConfigValue) -> Entry {
    Entry { key: k.to_string(), value: v }
}

#[test]
fn clash_template_is_filled() {
    let proxies = vec![node("trojan://p@h:443#A"), node("trojan://q@g:443#B")];
    let text = "proxies: []\nproxy-groups:\n  - name: Sel\n    proxies:\n      - '{{ALL-TAG}}'\n      - DIRECT\n";
    let doc = ConfigValue::Object(vec![
        e("proxies", ConfigValue::Array(vec![])),
        e(
            "proxy-groups",
            ConfigValue::Array(vec![ConfigValue::Object(vec![
                e("name", s("Sel")),
                e("proxies", ConfigValue::Array(vec![s("{{ALL-TAG}}"), s("DIRECT")])),
            ])]),
        ),
    ]);
    let out = apply_clash_template(doc, &proxies, &find_placeholders(text));
    let listed = match out.get("proxies").unwrap() {
        ConfigValue::Array(items) => items.len(),
        _ => 0,
    };
    assert_eq!(listed, 2);
    let group = match out.get("proxy-groups").unwrap() {
        ConfigValue::Array(gs) => &gs[0],
        _ => panic!("groups"),
    };
    match group.get("proxies").unwrap() {
        ConfigValue::Array(items) => {
            let names: Vec<&str> = items.iter().map(|i| i.as_str().unwrap()).collect();
            assert_eq!(names, vec!["A", "B", "DIRECT"]);
        }
        _ => panic!("proxies"),
    }
}

#[test]
fn clash_placeholder_with_no_match_leaves_nothing() {
    let proxies = vec![node("trojan://p@h:443#A")];
    let doc = ConfigValue::Object(vec![e(
        "proxy-groups",
        ConfigValue::Array(vec![ConfigValue::Object(vec![
            e("name", s("HK")),
            e("proxies", ConfigValue::Array(vec![s("{{INCLUDE-TAG:香港}}")])),
        ])]),
    )]);
    let out = apply_clash_template(doc, &proxies, &find_placeholders("'{{INCLUDE-TAG:香港}}'"));
    let group = match out.get("proxy-groups").unwrap() {
        ConfigValue::Array(gs) => &gs[0],
        _ => panic!("groups"),
    };
    assert!(matches!(group.get("proxies").unwrap(), ConfigValue::Array(items) if items.is_empty()));
}

fn outbound(tag: &str, kind: &str, list: Option<Vec<&str>>) -> ConfigValue {
    let mut es = vec![e("tag", s(tag)), e("type", s(kind))];
    if let Some(l) = list {
        es.push(e("outbounds", ConfigValue::Array(l.into_iter().map(s).collect())));
    }
    ConfigValue::Object(es)
}

#[test]
fn singbox_template_is_filled() {
    let proxies = vec![node("trojan://p@h:443#A")];
    let doc = ConfigValue::Object(vec![e(
        "outbounds",
        ConfigValue::Array(vec![
            outbound("DIRECT", "direct", None),
            outbound("Auto", "urltest", Some(vec!["{{ALL-TAG}}"])),
            outbound("HK", "selector", Some(vec!["{{INCLUDE-TAG:香港}}"])),
            outbound("Proxy", "selector", Some(vec!["Auto", "HK"])),
        ]),
    )]);
    let phs = find_placeholders("{{ALL-TAG}} {{INCLUDE-TAG:香港}}");
    let out = apply_singbox_template(doc, &proxies, &phs);
    let outs = match out.get("outbounds").unwrap() {
        ConfigValue::Array(o) => o,
        _ => panic!("outbounds"),
    };
    let tags: Vec<&str> = outs.iter().map(|o| o.get("tag").unwrap().as_str().unwrap()).collect();
    assert_eq!(tags, vec!["A", "DIRECT", "Auto", "Proxy"]);
    let list = |o: &ConfigValue| -> Vec<String> {
        match o.get("outbounds").unwrap() {
            ConfigValue::Array(items) => items.iter().map(|i| i.as_str().unwrap().to_string()).collect(),
            _ => vec![],
        }
    };
    assert_eq!(list(&outs[2]), vec!["A"]);
    assert_eq!(list(&outs[3]), vec!["Auto"]);
    assert_eq!(outs[0].get("type").unwrap().as_str(), Some("trojan"));
}

#[test]
fn default_templates() {
    let clash = generate_clash_template();
    assert!(clash.starts_with("mixed-port: 7890\n"));
    assert!(clash.contains("      - '{{ALL-TAG}}'\n"));
    let surge = generate_surge_template();
    assert!(surge.contains("🚀 Select = select, {{ALL-TAG}}\n"));
    let sb = generate_singbox_template();
    let outs = match sb.get("outbounds").unwrap() {
        ConfigValue::Array(o) => o,
        _ => panic!("outbounds"),
    };
    assert_eq!(outs.len(), 5);
    let rule_sets = match sb.get("route").unwrap().get("rule_set").unwrap() {
        ConfigValue::Array(r) => r,
        _ => panic!("rule_set"),
    };
    assert_eq!(rule_sets.len(), 13);
    assert_eq!(
        rule_sets[6].get("url").unwrap().as_str(),
        Some("https://cdn.jsdelivr.net/gh/DustinWin/ruleset_geodata@sing-box-ruleset/networktest.srs")
    );
}

#[test]
fn tags_read_in_any_case() {
    assert!(subpipe::templates::interpolation::reads_as_tag("include-tag:x", "INCLUDE-TAG:"));
    assert!(subpipe::templates::interpolation::reads_as_tag("ıNCLUDE-TAG:x", "INCLUDE-TAG:"));
    assert!(subpipe::templates::interpolation::reads_as_tag("All-Tag", "ALL-TAG"));
    assert!(!subpipe::templates::interpolation::reads_as_tag("EXCLUDE-TAG:x", "INCLUDE-TAG:"));
}
