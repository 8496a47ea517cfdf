//! The default templates written by the `template` command.

use vstd::prelude::*;
use vstd::string::StringExecFns;
use crate::utils::text::decimal_text;
use crate::utils::value::{
    entry_trees, new_array, new_object, push_entry, push_item, tree, trees, vnumber, vstr,
    ConfigValue, Tree,
};

verus! {

/// The default Clash template.
pub const CLASH_TEMPLATE: &'static str = r#"mixed-port: 7890
allow-lan: true
bind-address: '*'
mode: rule
log-level: info
ipv6: true
external-controller: ':9090'
external-ui: dashboard
secret: '123456'

dns:
  enable: true
  listen: 0.0.0.0:53
  ipv6: true
  enhanced-mode: fake-ip
  fake-ip-range: 198.18.0.1/16
  fake-ip-filter:
    - '*.lan'
    - '*.linksys.com'
    - '*.linksyssmartwifi.com'
    - 'swscan.apple.com'
    - 'mesu.apple.com'
    - '*.msftconnecttest.com'
    - '*.msftncsi.com'
    - 'time.*.com'
    - 'time.*.gov'
    - 'time.*.edu.cn'
    - 'time.*.apple.com'
    - 'ntp.*.com'
    - '+.pool.ntp.org'
    - 'time1.cloud.tencent.com'
    - '+.music.163.com'
    - '*.126.net'
    - 'musicapi.taihe.com'
    - 'music.taihe.com'
    - 'songsearch.kugou.com'
    - 'trackercdn.kugou.com'
    - '*.kuwo.cn'
    - '+.y.qq.com'
    - '+.music.tc.qq.com'
    - 'aqqmusic.tc.qq.com'
    - '*.xiami.com'
    - '+.music.migu.cn'
    - '+.srv.nintendo.net'
    - '+.stun.playstation.net'
    - 'xbox.*.microsoft.com'
    - '+.xboxlive.com'
    - 'localhost.ptlogin2.qq.com'
    - 'proxy.golang.org'
    - 'stun.*.*'
    - '+.stun.*.*.*.*'
    - 'heartbeat.belkin.com'
    - '*.linksys.com'
    - '*.linksyssmartwifi.com'
    - '*.router.asus.com'
    - 'mesu.apple.com'
    - 'swscan.apple.com'
    - 'swquery.apple.com'
    - 'swdownload.apple.com'
    - 'swcdn.apple.com'
    - 'swdist.apple.com'
    - 'lens.l.google.com'
    - 'stun.l.google.com'
    - '+.nflxvideo.net'
    - '*.square-enix.com'
    - '*.finalfantasyxiv.com'
    - '*.ffxiv.com'
    - '*.mcdn.bilivideo.cn'
  nameserver:
    - 223.5.5.5
    - 114.114.114.114
    - 119.29.29.29
    - 117.50.10.10
  fallback:
    - 8.8.8.8
    - 1.1.1.1
    - tls://dns.rubyfish.cn:853
    - tls://1.0.0.1:853
  fallback-filter:
    geoip: true
    ipcidr:
      - 240.0.0.0/4

proxies: []

proxy-groups:
  - name: '🚀 Select'
    type: select
    url: http://www.gstatic.com/generate_204
    interval: 600
    proxies:
      - '🚀 Manual'
      - '♻️ Auto'
      - '🔯 Fallback'
      - '🔮 LoadBalance'

  - name: '🚀 Manual'
    type: select
    url: http://www.gstatic.com/generate_204
    interval: 600
    proxies:
      - '{{ALL-TAG}}'

  - name: '♻️ Auto'
    type: url-test
    url: http://www.gstatic.com/generate_204
    interval: 600
    tolerance: 150
    proxies:
      - '{{ALL-TAG}}'

  - name: '🔯 Fallback'
    type: fallback
    url: http://www.gstatic.com/generate_204
    interval: 600
    proxies:
      - '{{ALL-TAG}}'

  - name: '🔮 LoadBalance'
    type: load-balance
    url: http://www.gstatic.com/generate_204
    interval: 600
    proxies:
      - '{{ALL-TAG}}'

rule-providers:
  reject:
    type: http
    behavior: domain
    url: 'https://raw.githubusercontent.com/Loyalsoldier/clash-rules/release/reject.txt'
    path: ./ruleset/reject.yaml
    interval: 86400
  icloud:
    type: http
    behavior: domain
    url: 'https://raw.githubusercontent.com/Loyalsoldier/clash-rules/release/icloud.txt'
    path: ./ruleset/icloud.yaml
    interval: 86400
  apple:
    type: http
    behavior: domain
    url: 'https://raw.githubusercontent.com/Loyalsoldier/clash-rules/release/apple.txt'
    path: ./ruleset/apple.yaml
    interval: 86400
  google:
    type: http
    behavior: domain
    url: 'https://raw.githubusercontent.com/Loyalsoldier/clash-rules/release/google.txt'
    path: ./ruleset/google.yaml
    interval: 86400
  proxy:
    type: http
    behavior: domain
    url: 'https://raw.githubusercontent.com/Loyalsoldier/clash-rules/release/proxy.txt'
    path: ./ruleset/proxy.yaml
    interval: 86400
  direct:
    type: http
    behavior: domain
    url: 'https://raw.githubusercontent.com/Loyalsoldier/clash-rules/release/direct.txt'
    path: ./ruleset/direct.yaml
    interval: 86400
  private:
    type: http
    behavior: domain
    url: 'https://raw.githubusercontent.com/Loyalsoldier/clash-rules/release/private.txt'
    path: ./ruleset/private.yaml
    interval: 86400
  gfw:
    type: http
    behavior: domain
    url: 'https://raw.githubusercontent.com/Loyalsoldier/clash-rules/release/gfw.txt'
    path: ./ruleset/gfw.yaml
    interval: 86400
  telegramcidr:
    type: http
    behavior: ipcidr
    url: 'https://raw.githubusercontent.com/Loyalsoldier/clash-rules/release/telegramcidr.txt'
    path: ./ruleset/telegramcidr.yaml
    interval: 86400
  cncidr:
    type: http
    behavior: ipcidr
    url: 'https://raw.githubusercontent.com/Loyalsoldier/clash-rules/release/cncidr.txt'
    path: ./ruleset/cncidr.yaml
    interval: 86400
  lancidr:
    type: http
    behavior: ipcidr
    url: 'https://raw.githubusercontent.com/Loyalsoldier/clash-rules/release/lancidr.txt'
    path: ./ruleset/lancidr.yaml
    interval: 86400
  applications:
    type: http
    behavior: classical
    url: 'https://raw.githubusercontent.com/Loyalsoldier/clash-rules/release/applications.txt'
    path: ./ruleset/applications.yaml
    interval: 86400

rules:
  - RULE-SET,applications,DIRECT
  - RULE-SET,private,DIRECT
  - RULE-SET,reject,REJECT
  - RULE-SET,icloud,DIRECT
  - RULE-SET,apple,DIRECT
  - RULE-SET,google,🚀 Select
  - RULE-SET,proxy,🚀 Select
  - RULE-SET,direct,DIRECT
  - RULE-SET,lancidr,DIRECT,no-resolve
  - RULE-SET,cncidr,DIRECT,no-resolve
  - RULE-SET,telegramcidr,🚀 Select,no-resolve
  - GEOIP,LAN,DIRECT,no-resolve
  - GEOIP,CN,DIRECT,no-resolve
  - MATCH,🚀 Select
"#;

/// The default Surge template.
pub const SURGE_TEMPLATE: &'static str = r#"[General]
loglevel = notify
dns-server = 223.5.5.5, 114.114.114.114
allow-wifi-access = false
skip-proxy = 127.0.0.1, 192.168.0.0/16, 10.0.0.0/8, 172.16.0.0/12, localhost, *.local
ipv6 = false
test-timeout = 5
proxy-test-url = http://www.gstatic.com/generate_204

[Proxy]

[Proxy Group]
🚀 Select = select, {{ALL-TAG}}
🇭🇰 香港 = select, {{INCLUDE-TAG:香港}}
🇯🇵 日本 = select, {{INCLUDE-TAG:日本}}
🇹🇼 台湾 = select, {{INCLUDE-TAG:台湾}}
🇸🇬 新加坡 = select, {{INCLUDE-TAG:新加坡}}
🌐 全球 = select, {{EXCLUDE-TAG:香港,台湾}}

[Rule]
GEOIP,CN,DIRECT
MATCH,🚀 Select
"#;

/// The default Clash template, as text.
pub fn generate_clash_template() -> (res: String)
    ensures
        res@ == CLASH_TEMPLATE@,
{
    String::from_str(CLASH_TEMPLATE)
}

/// The default Surge template, as text.
pub fn generate_surge_template() -> (res: String)
    ensures
        res@ == SURGE_TEMPLATE@,
{
    String::from_str(SURGE_TEMPLATE)
}

/// Where the remote rule sets are published.
pub open spec fn rule_set_base() -> Seq<char> {
    "https://cdn.jsdelivr.net/gh/DustinWin/ruleset_geodata@sing-box-ruleset/"@
}

/// A remote binary rule set, fetched through `Proxy` once a day.
pub open spec fn remote_rule_set_tree(tag: Seq<char>, file: Seq<char>) -> Tree {
    Tree::Object(seq![
        ("tag"@, Tree::Str(tag)),
        ("type"@, Tree::Str("remote"@)),
        ("format"@, Tree::Str("binary"@)),
        ("url"@, Tree::Str(rule_set_base() + file)),
        ("download_detour"@, Tree::Str("Proxy"@)),
        ("update_interval"@, Tree::Str("1d"@)),
    ])
}

/// A remote binary rule set, fetched through `Proxy` once a day.
fn remote_rule_set(tag: &str, file: &str) -> (res: ConfigValue)
    ensures
        tree(res) == remote_rule_set_tree(tag@, file@),
{
    let url = String::from_str("https://cdn.jsdelivr.net/gh/DustinWin/ruleset_geodata@sing-box-ruleset/").concat(file);
    let mut o = new_object();
    push_entry(&mut o, "tag", vstr(tag));
    push_entry(&mut o, "type", vstr("remote"));
    push_entry(&mut o, "format", vstr("binary"));
    push_entry(&mut o, "url", ConfigValue::Str(url));
    push_entry(&mut o, "download_detour", vstr("Proxy"));
    push_entry(&mut o, "update_interval", vstr("1d"));
    assert(entry_trees(o@) =~= remote_rule_set_tree(tag@, file@)->Object_0);
    ConfigValue::Object(o)
}

/// Log: info level with timestamps.
pub open spec fn template_log_tree() -> Tree {
    Tree::Object(seq![
        ("level"@, Tree::Str("info"@)),
        ("timestamp"@, Tree::Bool(true)),
    ])
}

/// Log: info level with timestamps.
fn template_log() -> (res: ConfigValue)
    ensures
        tree(res) == template_log_tree(),
{
    let mut o101 = new_object();
    push_entry(&mut o101, "level", vstr("info"));
    push_entry(&mut o101, "timestamp", ConfigValue::Bool(true));
    assert(entry_trees(o101@) =~= seq![("level"@, Tree::Str("info"@)), ("timestamp"@, Tree::Bool(true))]);
    let v101 = ConfigValue::Object(o101);
    let ghost t101 = tree(v101);
    v101
}

/// DNS: 223.5.5.5 direct, 8.8.8.8 through `Proxy`, IPv4 first.
pub open spec fn template_dns_tree() -> Tree {
    Tree::Object(seq![
        ("servers"@, Tree::Array(seq![
            Tree::Object(seq![
                ("tag"@, Tree::Str("local"@)),
                ("address"@, Tree::Str("223.5.5.5"@)),
                ("detour"@, Tree::Str("DIRECT"@)),
            ]),
            Tree::Object(seq![
                ("tag"@, Tree::Str("remote"@)),
                ("address"@, Tree::Str("8.8.8.8"@)),
                ("detour"@, Tree::Str("Proxy"@)),
            ]),
        ])),
        ("final"@, Tree::Str("local"@)),
        ("strategy"@, Tree::Str("prefer_ipv4"@)),
    ])
}

/// DNS: 223.5.5.5 direct, 8.8.8.8 through `Proxy`, IPv4 first.
fn template_dns() -> (res: ConfigValue)
    ensures
        tree(res) == template_dns_tree(),
{
    let mut o102 = new_object();
    let mut a103 = new_array();
    let mut o104 = new_object();
    push_entry(&mut o104, "tag", vstr("local"));
    push_entry(&mut o104, "address", vstr("223.5.5.5"));
    push_entry(&mut o104, "detour", vstr("DIRECT"));
    assert(entry_trees(o104@) =~= seq![("tag"@, Tree::Str("local"@)), ("address"@, Tree::Str("223.5.5.5"@)), ("detour"@, Tree::Str("DIRECT"@))]);
    let v104 = ConfigValue::Object(o104);
    let ghost t104 = tree(v104);
    push_item(&mut a103, v104);
    let mut o105 = new_object();
    push_entry(&mut o105, "tag", vstr("remote"));
    push_entry(&mut o105, "address", vstr("8.8.8.8"));
    push_entry(&mut o105, "detour", vstr("Proxy"));
    assert(entry_trees(o105@) =~= seq![("tag"@, Tree::Str("remote"@)), ("address"@, Tree::Str("8.8.8.8"@)), ("detour"@, Tree::Str("Proxy"@))]);
    let v105 = ConfigValue::Object(o105);
    let ghost t105 = tree(v105);
    push_item(&mut a103, v105);
    assert(trees(a103@) =~= seq![t104, t105]);
    let v103 = ConfigValue::Array(a103);
    let ghost t103 = tree(v103);
    push_entry(&mut o102, "servers", v103);
    push_entry(&mut o102, "final", vstr("local"));
    push_entry(&mut o102, "strategy", vstr("prefer_ipv4"));
    assert(entry_trees(o102@) =~= seq![("servers"@, t103), ("final"@, Tree::Str("local"@)), ("strategy"@, Tree::Str("prefer_ipv4"@))]);
    let v102 = ConfigValue::Object(o102);
    let ghost t102 = tree(v102);
    v102
}

/// A mixed inbound on 2080 and a TUN inbound.
pub open spec fn template_inbounds_tree() -> Tree {
    Tree::Array(seq![
        Tree::Object(seq![
            ("type"@, Tree::Str("mixed"@)),
            ("tag"@, Tree::Str("mixed-in"@)),
            ("listen"@, Tree::Str("0.0.0.0"@)),
            ("listen_port"@, Tree::Number(decimal_text(2080))),
        ]),
        Tree::Object(seq![
            ("type"@, Tree::Str("tun"@)),
            ("tag"@, Tree::Str("tun-in"@)),
            ("address"@, Tree::Array(seq![
                Tree::Str("198.18.0.1/16"@),
            ])),
            ("mtu"@, Tree::Number(decimal_text(9000))),
            ("stack"@, Tree::Str("system"@)),
            ("auto_route"@, Tree::Bool(true)),
            ("strict_route"@, Tree::Bool(true)),
            ("sniff"@, Tree::Bool(true)),
        ]),
    ])
}

/// A mixed inbound on 2080 and a TUN inbound.
fn template_inbounds() -> (res: ConfigValue)
    ensures
        tree(res) == template_inbounds_tree(),
{
    let mut a106 = new_array();
    let mut o107 = new_object();
    push_entry(&mut o107, "type", vstr("mixed"));
    push_entry(&mut o107, "tag", vstr("mixed-in"));
    push_entry(&mut o107, "listen", vstr("0.0.0.0"));
    push_entry(&mut o107, "listen_port", vnumber(2080));
    assert(entry_trees(o107@) =~= seq![("type"@, Tree::Str("mixed"@)), ("tag"@, Tree::Str("mixed-in"@)), ("listen"@, Tree::Str("0.0.0.0"@)), ("listen_port"@, Tree::Number(decimal_text(2080)))]);
    let v107 = ConfigValue::Object(o107);
    let ghost t107 = tree(v107);
    push_item(&mut a106, v107);
    let mut o108 = new_object();
    push_entry(&mut o108, "type", vstr("tun"));
    push_entry(&mut o108, "tag", vstr("tun-in"));
    let mut a109 = new_array();
    push_item(&mut a109, vstr("198.18.0.1/16"));
    assert(trees(a109@) =~= seq![Tree::Str("198.18.0.1/16"@)]);
    let v109 = ConfigValue::Array(a109);
    let ghost t109 = tree(v109);
    push_entry(&mut o108, "address", v109);
    push_entry(&mut o108, "mtu", vnumber(9000));
    push_entry(&mut o108, "stack", vstr("system"));
    push_entry(&mut o108, "auto_route", ConfigValue::Bool(true));
    push_entry(&mut o108, "strict_route", ConfigValue::Bool(true));
    push_entry(&mut o108, "sniff", ConfigValue::Bool(true));
    assert(entry_trees(o108@) =~= seq![("type"@, Tree::Str("tun"@)), ("tag"@, Tree::Str("tun-in"@)), ("address"@, t109), ("mtu"@, Tree::Number(decimal_text(9000))), ("stack"@, Tree::Str("system"@)), ("auto_route"@, Tree::Bool(true)), ("strict_route"@, Tree::Bool(true)), ("sniff"@, Tree::Bool(true))]);
    let v108 = ConfigValue::Object(o108);
    let ghost t108 = tree(v108);
    push_item(&mut a106, v108);
    assert(trees(a106@) =~= seq![t107, t108]);
    let v106 = ConfigValue::Array(a106);
    let ghost t106 = tree(v106);
    v106
}

/// DIRECT, REJECT, the `Proxy` selector over `Auto` and `Manual`, and those two over every node (`__NODE_NAMES__`).
pub open spec fn template_outbounds_tree() -> Tree {
    Tree::Array(seq![
        Tree::Object(seq![
            ("tag"@, Tree::Str("DIRECT"@)),
            ("type"@, Tree::Str("direct"@)),
        ]),
        Tree::Object(seq![
            ("tag"@, Tree::Str("REJECT"@)),
            ("type"@, Tree::Str("block"@)),
        ]),
        Tree::Object(seq![
            ("tag"@, Tree::Str("Proxy"@)),
            ("type"@, Tree::Str("selector"@)),
            ("interrupt_exist_connections"@, Tree::Bool(true)),
            ("default"@, Tree::Str("Auto"@)),
            ("outbounds"@, Tree::Array(seq![
                Tree::Str("Auto"@),
                Tree::Str("Manual"@),
            ])),
        ]),
        Tree::Object(seq![
            ("tag"@, Tree::Str("Auto"@)),
            ("type"@, Tree::Str("urltest"@)),
            ("url"@, Tree::Str("https://www.gstatic.com/generate_204"@)),
            ("interval"@, Tree::Str("3m"@)),
            ("tolerance"@, Tree::Number(decimal_text(50))),
            ("outbounds"@, Tree::Array(seq![
                Tree::Str("__NODE_NAMES__"@),
            ])),
        ]),
        Tree::Object(seq![
            ("tag"@, Tree::Str("Manual"@)),
            ("type"@, Tree::Str("selector"@)),
            ("interrupt_exist_connections"@, Tree::Bool(true)),
            ("outbounds"@, Tree::Array(seq![
                Tree::Str("__NODE_NAMES__"@),
            ])),
        ]),
    ])
}

/// DIRECT, REJECT, the `Proxy` selector over `Auto` and `Manual`, and those two over every node (`__NODE_NAMES__`).
fn template_outbounds() -> (res: ConfigValue)
    ensures
        tree(res) == template_outbounds_tree(),
{
    let mut a110 = new_array();
    let mut o111 = new_object();
    push_entry(&mut o111, "tag", vstr("DIRECT"));
    push_entry(&mut o111, "type", vstr("direct"));
    assert(entry_trees(o111@) =~= seq![("tag"@, Tree::Str("DIRECT"@)), ("type"@, Tree::Str("direct"@))]);
    let v111 = ConfigValue::Object(o111);
    let ghost t111 = tree(v111);
    push_item(&mut a110, v111);
    let mut o112 = new_object();
    push_entry(&mut o112, "tag", vstr("REJECT"));
    push_entry(&mut o112, "type", vstr("block"));
    assert(entry_trees(o112@) =~= seq![("tag"@, Tree::Str("REJECT"@)), ("type"@, Tree::Str("block"@))]);
    let v112 = ConfigValue::Object(o112);
    let ghost t112 = tree(v112);
    push_item(&mut a110, v112);
    let mut o113 = new_object();
    push_entry(&mut o113, "tag", vstr("Proxy"));
    push_entry(&mut o113, "type", vstr("selector"));
    push_entry(&mut o113, "interrupt_exist_connections", ConfigValue::Bool(true));
    push_entry(&mut o113, "default", vstr("Auto"));
    let mut a114 = new_array();
    push_item(&mut a114, vstr("Auto"));
    push_item(&mut a114, vstr("Manual"));
    assert(trees(a114@) =~= seq![Tree::Str("Auto"@), Tree::Str("Manual"@)]);
    let v114 = ConfigValue::Array(a114);
    let ghost t114 = tree(v114);
    push_entry(&mut o113, "outbounds", v114);
    assert(entry_trees(o113@) =~= seq![("tag"@, Tree::Str("Proxy"@)), ("type"@, Tree::Str("selector"@)), ("interrupt_exist_connections"@, Tree::Bool(true)), ("default"@, Tree::Str("Auto"@)), ("outbounds"@, t114)]);
    let v113 = ConfigValue::Object(o113);
    let ghost t113 = tree(v113);
    push_item(&mut a110, v113);
    let mut o115 = new_object();
    push_entry(&mut o115, "tag", vstr("Auto"));
    push_entry(&mut o115, "type", vstr("urltest"));
    push_entry(&mut o115, "url", vstr("https://www.gstatic.com/generate_204"));
    push_entry(&mut o115, "interval", vstr("3m"));
    push_entry(&mut o115, "tolerance", vnumber(50));
    let mut a116 = new_array();
    push_item(&mut a116, vstr("__NODE_NAMES__"));
    assert(trees(a116@) =~= seq![Tree::Str("__NODE_NAMES__"@)]);
    let v116 = ConfigValue::Array(a116);
    let ghost t116 = tree(v116);
    push_entry(&mut o115, "outbounds", v116);
    assert(entry_trees(o115@) =~= seq![("tag"@, Tree::Str("Auto"@)), ("type"@, Tree::Str("urltest"@)), ("url"@, Tree::Str("https://www.gstatic.com/generate_204"@)), ("interval"@, Tree::Str("3m"@)), ("tolerance"@, Tree::Number(decimal_text(50))), ("outbounds"@, t116)]);
    let v115 = ConfigValue::Object(o115);
    let ghost t115 = tree(v115);
    push_item(&mut a110, v115);
    let mut o117 = new_object();
    push_entry(&mut o117, "tag", vstr("Manual"));
    push_entry(&mut o117, "type", vstr("selector"));
    push_entry(&mut o117, "interrupt_exist_connections", ConfigValue::Bool(true));
    let mut a118 = new_array();
    push_item(&mut a118, vstr("__NODE_NAMES__"));
    assert(trees(a118@) =~= seq![Tree::Str("__NODE_NAMES__"@)]);
    let v118 = ConfigValue::Array(a118);
    let ghost t118 = tree(v118);
    push_entry(&mut o117, "outbounds", v118);
    assert(entry_trees(o117@) =~= seq![("tag"@, Tree::Str("Manual"@)), ("type"@, Tree::Str("selector"@)), ("interrupt_exist_connections"@, Tree::Bool(true)), ("outbounds"@, t118)]);
    let v117 = ConfigValue::Object(o117);
    let ghost t117 = tree(v117);
    push_item(&mut a110, v117);
    assert(trees(a110@) =~= seq![t111, t112, t113, t115, t117]);
    let v110 = ConfigValue::Array(a110);
    let ghost t110 = tree(v110);
    v110
}

/// Routing: sniffing, DNS hijack, clash modes, the rule sets, `Proxy` last.
pub open spec fn template_route_tree() -> Tree {
    Tree::Object(seq![
        ("rules"@, Tree::Array(seq![
            Tree::Object(seq![
                ("action"@, Tree::Str("sniff"@)),
            ]),
            Tree::Object(seq![
                ("action"@, Tree::Str("hijack-dns"@)),
                ("protocol"@, Tree::Str("dns"@)),
            ]),
            Tree::Object(seq![
                ("clash_mode"@, Tree::Str("global"@)),
                ("action"@, Tree::Str("route"@)),
                ("outbound"@, Tree::Str("Proxy"@)),
            ]),
            Tree::Object(seq![
                ("clash_mode"@, Tree::Str("direct"@)),
                ("action"@, Tree::Str("route"@)),
                ("outbound"@, Tree::Str("DIRECT"@)),
            ]),
            Tree::Object(seq![
                ("rule_set"@, Tree::Str("ads"@)),
                ("action"@, Tree::Str("reject"@)),
            ]),
            Tree::Object(seq![
                ("rule_set"@, Tree::Array(seq![
                    Tree::Str("microsoft-cn"@),
                    Tree::Str("games-cn"@),
                    Tree::Str("network-test"@),
                    Tree::Str("applications"@),
                    Tree::Str("cn"@),
                    Tree::Str("cn-ip"@),
                    Tree::Str("private-ip"@),
                    Tree::Str("private"@),
                ])),
                ("action"@, Tree::Str("route"@)),
                ("outbound"@, Tree::Str("DIRECT"@)),
            ]),
            Tree::Object(seq![
                ("rule_set"@, Tree::Array(seq![
                    Tree::Str("proxy"@),
                    Tree::Str("telegram-ip"@),
                ])),
                ("action"@, Tree::Str("route"@)),
                ("outbound"@, Tree::Str("Proxy"@)),
            ]),
        ])),
        ("rule_set"@, Tree::Array(seq![
            remote_rule_set_tree("ads"@, "ads.srs"@),
            remote_rule_set_tree("private"@, "private.srs"@),
            remote_rule_set_tree("microsoft-cn"@, "microsoft-cn.srs"@),
            remote_rule_set_tree("apple-cn"@, "apple-cn.srs"@),
            remote_rule_set_tree("google-cn"@, "google-cn.srs"@),
            remote_rule_set_tree("games-cn"@, "games-cn.srs"@),
            remote_rule_set_tree("network-test"@, "networktest.srs"@),
            remote_rule_set_tree("applications"@, "applications.srs"@),
            remote_rule_set_tree("proxy"@, "proxy.srs"@),
            remote_rule_set_tree("cn"@, "cn.srs"@),
            remote_rule_set_tree("telegram-ip"@, "telegramip.srs"@),
            remote_rule_set_tree("private-ip"@, "privateip.srs"@),
            remote_rule_set_tree("cn-ip"@, "cnip.srs"@),
        ])),
        ("final"@, Tree::Str("Proxy"@)),
        ("auto_detect_interface"@, Tree::Bool(true)),
    ])
}

/// Routing: sniffing, DNS hijack, clash modes, the rule sets, `Proxy` last.
fn template_route() -> (res: ConfigValue)
    ensures
        tree(res) == template_route_tree(),
{
    let mut o119 = new_object();
    let mut a120 = new_array();
    let mut o121 = new_object();
    push_entry(&mut o121, "action", vstr("sniff"));
    assert(entry_trees(o121@) =~= seq![("action"@, Tree::Str("sniff"@))]);
    let v121 = ConfigValue::Object(o121);
    let ghost t121 = tree(v121);
    push_item(&mut a120, v121);
    let mut o122 = new_object();
    push_entry(&mut o122, "action", vstr("hijack-dns"));
    push_entry(&mut o122, "protocol", vstr("dns"));
    assert(entry_trees(o122@) =~= seq![("action"@, Tree::Str("hijack-dns"@)), ("protocol"@, Tree::Str("dns"@))]);
    let v122 = ConfigValue::Object(o122);
    let ghost t122 = tree(v122);
    push_item(&mut a120, v122);
    let mut o123 = new_object();
    push_entry(&mut o123, "clash_mode", vstr("global"));
    push_entry(&mut o123, "action", vstr("route"));
    push_entry(&mut o123, "outbound", vstr("Proxy"));
    assert(entry_trees(o123@) =~= seq![("clash_mode"@, Tree::Str("global"@)), ("action"@, Tree::Str("route"@)), ("outbound"@, Tree::Str("Proxy"@))]);
    let v123 = ConfigValue::Object(o123);
    let ghost t123 = tree(v123);
    push_item(&mut a120, v123);
    let mut o124 = new_object();
    push_entry(&mut o124, "clash_mode", vstr("direct"));
    push_entry(&mut o124, "action", vstr("route"));
    push_entry(&mut o124, "outbound", vstr("DIRECT"));
    assert(entry_trees(o124@) =~= seq![("clash_mode"@, Tree::Str("direct"@)), ("action"@, Tree::Str("route"@)), ("outbound"@, Tree::Str("DIRECT"@))]);
    let v124 = ConfigValue::Object(o124);
    let ghost t124 = tree(v124);
    push_item(&mut a120, v124);
    let mut o125 = new_object();
    push_entry(&mut o125, "rule_set", vstr("ads"));
    push_entry(&mut o125, "action", vstr("reject"));
    assert(entry_trees(o125@) =~= seq![("rule_set"@, Tree::Str("ads"@)), ("action"@, Tree::Str("reject"@))]);
    let v125 = ConfigValue::Object(o125);
    let ghost t125 = tree(v125);
    push_item(&mut a120, v125);
    let mut o126 = new_object();
    let mut a127 = new_array();
    push_item(&mut a127, vstr("microsoft-cn"));
    push_item(&mut a127, vstr("games-cn"));
    push_item(&mut a127, vstr("network-test"));
    push_item(&mut a127, vstr("applications"));
    push_item(&mut a127, vstr("cn"));
    push_item(&mut a127, vstr("cn-ip"));
    push_item(&mut a127, vstr("private-ip"));
    push_item(&mut a127, vstr("private"));
    assert(trees(a127@) =~= seq![Tree::Str("microsoft-cn"@), Tree::Str("games-cn"@), Tree::Str("network-test"@), Tree::Str("applications"@), Tree::Str("cn"@), Tree::Str("cn-ip"@), Tree::Str("private-ip"@), Tree::Str("private"@)]);
    let v127 = ConfigValue::Array(a127);
    let ghost t127 = tree(v127);
    push_entry(&mut o126, "rule_set", v127);
    push_entry(&mut o126, "action", vstr("route"));
    push_entry(&mut o126, "outbound", vstr("DIRECT"));
    assert(entry_trees(o126@) =~= seq![("rule_set"@, t127), ("action"@, Tree::Str("route"@)), ("outbound"@, Tree::Str("DIRECT"@))]);
    let v126 = ConfigValue::Object(o126);
    let ghost t126 = tree(v126);
    push_item(&mut a120, v126);
    let mut o128 = new_object();
    let mut a129 = new_array();
    push_item(&mut a129, vstr("proxy"));
    push_item(&mut a129, vstr("telegram-ip"));
    assert(trees(a129@) =~= seq![Tree::Str("proxy"@), Tree::Str("telegram-ip"@)]);
    let v129 = ConfigValue::Array(a129);
    let ghost t129 = tree(v129);
    push_entry(&mut o128, "rule_set", v129);
    push_entry(&mut o128, "action", vstr("route"));
    push_entry(&mut o128, "outbound", vstr("Proxy"));
    assert(entry_trees(o128@) =~= seq![("rule_set"@, t129), ("action"@, Tree::Str("route"@)), ("outbound"@, Tree::Str("Proxy"@))]);
    let v128 = ConfigValue::Object(o128);
    let ghost t128 = tree(v128);
    push_item(&mut a120, v128);
    assert(trees(a120@) =~= seq![t121, t122, t123, t124, t125, t126, t128]);
    let v120 = ConfigValue::Array(a120);
    let ghost t120 = tree(v120);
    push_entry(&mut o119, "rules", v120);
    let mut a130 = new_array();
    push_item(&mut a130, remote_rule_set("ads", "ads.srs"));
    push_item(&mut a130, remote_rule_set("private", "private.srs"));
    push_item(&mut a130, remote_rule_set("microsoft-cn", "microsoft-cn.srs"));
    push_item(&mut a130, remote_rule_set("apple-cn", "apple-cn.srs"));
    push_item(&mut a130, remote_rule_set("google-cn", "google-cn.srs"));
    push_item(&mut a130, remote_rule_set("games-cn", "games-cn.srs"));
    push_item(&mut a130, remote_rule_set("network-test", "networktest.srs"));
    push_item(&mut a130, remote_rule_set("applications", "applications.srs"));
    push_item(&mut a130, remote_rule_set("proxy", "proxy.srs"));
    push_item(&mut a130, remote_rule_set("cn", "cn.srs"));
    push_item(&mut a130, remote_rule_set("telegram-ip", "telegramip.srs"));
    push_item(&mut a130, remote_rule_set("private-ip", "privateip.srs"));
    push_item(&mut a130, remote_rule_set("cn-ip", "cnip.srs"));
    assert(trees(a130@) =~= seq![remote_rule_set_tree("ads"@, "ads.srs"@), remote_rule_set_tree("private"@, "private.srs"@), remote_rule_set_tree("microsoft-cn"@, "microsoft-cn.srs"@), remote_rule_set_tree("apple-cn"@, "apple-cn.srs"@), remote_rule_set_tree("google-cn"@, "google-cn.srs"@), remote_rule_set_tree("games-cn"@, "games-cn.srs"@), remote_rule_set_tree("network-test"@, "networktest.srs"@), remote_rule_set_tree("applications"@, "applications.srs"@), remote_rule_set_tree("proxy"@, "proxy.srs"@), remote_rule_set_tree("cn"@, "cn.srs"@), remote_rule_set_tree("telegram-ip"@, "telegramip.srs"@), remote_rule_set_tree("private-ip"@, "privateip.srs"@), remote_rule_set_tree("cn-ip"@, "cnip.srs"@)]);
    let v130 = ConfigValue::Array(a130);
    let ghost t130 = tree(v130);
    push_entry(&mut o119, "rule_set", v130);
    push_entry(&mut o119, "final", vstr("Proxy"));
    push_entry(&mut o119, "auto_detect_interface", ConfigValue::Bool(true));
    assert(entry_trees(o119@) =~= seq![("rules"@, t120), ("rule_set"@, t130), ("final"@, Tree::Str("Proxy"@)), ("auto_detect_interface"@, Tree::Bool(true))]);
    let v119 = ConfigValue::Object(o119);
    let ghost t119 = tree(v119);
    v119
}

/// The cache file and the Clash API on port 9090.
pub open spec fn template_experimental_tree() -> Tree {
    Tree::Object(seq![
        ("cache_file"@, Tree::Object(seq![
            ("enabled"@, Tree::Bool(true)),
            ("path"@, Tree::Str("cache.db"@)),
            ("store_fakeip"@, Tree::Bool(false)),
        ])),
        ("clash_api"@, Tree::Object(seq![
            ("external_controller"@, Tree::Str("0.0.0.0:9090"@)),
            ("external_ui"@, Tree::Str("dashboard"@)),
            ("external_ui_download_url"@, Tree::Str("https://github.com/MetaCubeX/Yacd-meta/archive/gh-pages.zip"@)),
            ("external_ui_download_detour"@, Tree::Str("Proxy"@)),
            ("default_mode"@, Tree::Str("rule"@)),
        ])),
    ])
}

/// The cache file and the Clash API on port 9090.
fn template_experimental() -> (res: ConfigValue)
    ensures
        tree(res) == template_experimental_tree(),
{
    let mut o131 = new_object();
    let mut o132 = new_object();
    push_entry(&mut o132, "enabled", ConfigValue::Bool(true));
    push_entry(&mut o132, "path", vstr("cache.db"));
    push_entry(&mut o132, "store_fakeip", ConfigValue::Bool(false));
    assert(entry_trees(o132@) =~= seq![("enabled"@, Tree::Bool(true)), ("path"@, Tree::Str("cache.db"@)), ("store_fakeip"@, Tree::Bool(false))]);
    let v132 = ConfigValue::Object(o132);
    let ghost t132 = tree(v132);
    push_entry(&mut o131, "cache_file", v132);
    let mut o133 = new_object();
    push_entry(&mut o133, "external_controller", vstr("0.0.0.0:9090"));
    push_entry(&mut o133, "external_ui", vstr("dashboard"));
    push_entry(&mut o133, "external_ui_download_url", vstr("https://github.com/MetaCubeX/Yacd-meta/archive/gh-pages.zip"));
    push_entry(&mut o133, "external_ui_download_detour", vstr("Proxy"));
    push_entry(&mut o133, "default_mode", vstr("rule"));
    assert(entry_trees(o133@) =~= seq![("external_controller"@, Tree::Str("0.0.0.0:9090"@)), ("external_ui"@, Tree::Str("dashboard"@)), ("external_ui_download_url"@, Tree::Str("https://github.com/MetaCubeX/Yacd-meta/archive/gh-pages.zip"@)), ("external_ui_download_detour"@, Tree::Str("Proxy"@)), ("default_mode"@, Tree::Str("rule"@))]);
    let v133 = ConfigValue::Object(o133);
    let ghost t133 = tree(v133);
    push_entry(&mut o131, "clash_api", v133);
    assert(entry_trees(o131@) =~= seq![("cache_file"@, t132), ("clash_api"@, t133)]);
    let v131 = ConfigValue::Object(o131);
    let ghost t131 = tree(v131);
    v131
}

/// The default Sing-Box template.
pub open spec fn singbox_template_tree() -> Tree {
    Tree::Object(seq![
        ("log"@, template_log_tree()),
        ("dns"@, template_dns_tree()),
        ("inbounds"@, template_inbounds_tree()),
        ("outbounds"@, template_outbounds_tree()),
        ("route"@, template_route_tree()),
        ("experimental"@, template_experimental_tree()),
    ])
}

/// The default Sing-Box template.
pub fn generate_singbox_template() -> (res: ConfigValue)
    ensures
        tree(res) == singbox_template_tree(),
{
    let mut o134 = new_object();
    push_entry(&mut o134, "log", template_log());
    push_entry(&mut o134, "dns", template_dns());
    push_entry(&mut o134, "inbounds", template_inbounds());
    push_entry(&mut o134, "outbounds", template_outbounds());
    push_entry(&mut o134, "route", template_route());
    push_entry(&mut o134, "experimental", template_experimental());
    assert(entry_trees(o134@) =~= seq![("log"@, template_log_tree()), ("dns"@, template_dns_tree()), ("inbounds"@, template_inbounds_tree()), ("outbounds"@, template_outbounds_tree()), ("route"@, template_route_tree()), ("experimental"@, template_experimental_tree())]);
    let v134 = ConfigValue::Object(o134);
    let ghost t134 = tree(v134);
    v134
}

} // verus!
