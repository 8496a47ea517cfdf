//! Default Sing-Box documents, one per Sing-Box line.

use vstd::prelude::*;
use crate::utils::text::decimal_text;
use crate::utils::value::{
    entry_trees, new_array, new_object, push_entry, push_item, tree, trees, vnumber, vstr,
    ConfigValue, Tree,
};

verus! {

/// The log settings: info level with timestamps.
pub open spec fn log_tree() -> Tree {
    Tree::Object(seq![
        ("level"@, Tree::Str("info"@)),
        ("timestamp"@, Tree::Bool(true)),
    ])
}

/// The log settings: info level with timestamps.
fn log_section() -> (res: ConfigValue)
    ensures
        tree(res) == log_tree(),
{
    let mut o1 = new_object();
    push_entry(&mut o1, "level", vstr("info"));
    push_entry(&mut o1, "timestamp", ConfigValue::Bool(true));
    assert(entry_trees(o1@) =~= seq![("level"@, Tree::Str("info"@)), ("timestamp"@, Tree::Bool(true))]);
    let v1 = ConfigValue::Object(o1);
    let ghost t1 = tree(v1);
    v1
}

/// NTP through time.apple.com every 30 minutes.
pub open spec fn ntp_tree() -> Tree {
    Tree::Object(seq![
        ("enabled"@, Tree::Bool(true)),
        ("server"@, Tree::Str("time.apple.com"@)),
        ("server_port"@, Tree::Number(decimal_text(123))),
        ("interval"@, Tree::Str("30m"@)),
    ])
}

/// NTP through time.apple.com every 30 minutes.
fn ntp_section() -> (res: ConfigValue)
    ensures
        tree(res) == ntp_tree(),
{
    let mut o2 = new_object();
    push_entry(&mut o2, "enabled", ConfigValue::Bool(true));
    push_entry(&mut o2, "server", vstr("time.apple.com"));
    push_entry(&mut o2, "server_port", vnumber(123));
    push_entry(&mut o2, "interval", vstr("30m"));
    assert(entry_trees(o2@) =~= seq![("enabled"@, Tree::Bool(true)), ("server"@, Tree::Str("time.apple.com"@)), ("server_port"@, Tree::Number(decimal_text(123))), ("interval"@, Tree::Str("30m"@))]);
    let v2 = ConfigValue::Object(o2);
    let ghost t2 = tree(v2);
    v2
}

/// A mixed inbound on 0.0.0.0:2080.
pub open spec fn inbounds_tree() -> Tree {
    Tree::Array(seq![
        Tree::Object(seq![
            ("type"@, Tree::Str("mixed"@)),
            ("tag"@, Tree::Str("mixed-in"@)),
            ("listen"@, Tree::Str("0.0.0.0"@)),
            ("listen_port"@, Tree::Number(decimal_text(2080))),
        ]),
    ])
}

/// A mixed inbound on 0.0.0.0:2080.
fn inbounds_section() -> (res: ConfigValue)
    ensures
        tree(res) == inbounds_tree(),
{
    let mut a3 = new_array();
    let mut o4 = new_object();
    push_entry(&mut o4, "type", vstr("mixed"));
    push_entry(&mut o4, "tag", vstr("mixed-in"));
    push_entry(&mut o4, "listen", vstr("0.0.0.0"));
    push_entry(&mut o4, "listen_port", vnumber(2080));
    assert(entry_trees(o4@) =~= seq![("type"@, Tree::Str("mixed"@)), ("tag"@, Tree::Str("mixed-in"@)), ("listen"@, Tree::Str("0.0.0.0"@)), ("listen_port"@, Tree::Number(decimal_text(2080)))]);
    let v4 = ConfigValue::Object(o4);
    let ghost t4 = tree(v4);
    push_item(&mut a3, v4);
    assert(trees(a3@) =~= seq![t4]);
    let v3 = ConfigValue::Array(a3);
    let ghost t3 = tree(v3);
    v3
}

/// The REJECT (block) and DIRECT (direct) outbounds.
pub open spec fn outbounds_tree() -> Tree {
    Tree::Array(seq![
        Tree::Object(seq![
            ("type"@, Tree::Str("block"@)),
            ("tag"@, Tree::Str("REJECT"@)),
        ]),
        Tree::Object(seq![
            ("type"@, Tree::Str("direct"@)),
            ("tag"@, Tree::Str("DIRECT"@)),
        ]),
    ])
}

/// The REJECT (block) and DIRECT (direct) outbounds.
fn outbounds_section() -> (res: ConfigValue)
    ensures
        tree(res) == outbounds_tree(),
{
    let mut a5 = new_array();
    let mut o6 = new_object();
    push_entry(&mut o6, "type", vstr("block"));
    push_entry(&mut o6, "tag", vstr("REJECT"));
    assert(entry_trees(o6@) =~= seq![("type"@, Tree::Str("block"@)), ("tag"@, Tree::Str("REJECT"@))]);
    let v6 = ConfigValue::Object(o6);
    let ghost t6 = tree(v6);
    push_item(&mut a5, v6);
    let mut o7 = new_object();
    push_entry(&mut o7, "type", vstr("direct"));
    push_entry(&mut o7, "tag", vstr("DIRECT"));
    assert(entry_trees(o7@) =~= seq![("type"@, Tree::Str("direct"@)), ("tag"@, Tree::Str("DIRECT"@))]);
    let v7 = ConfigValue::Object(o7);
    let ghost t7 = tree(v7);
    push_item(&mut a5, v7);
    assert(trees(a5@) =~= seq![t6, t7]);
    let v5 = ConfigValue::Array(a5);
    let ghost t5 = tree(v5);
    v5
}

/// The cache file, with fake IPs stored.
pub open spec fn experimental_tree() -> Tree {
    Tree::Object(seq![
        ("cache_file"@, Tree::Object(seq![
            ("enabled"@, Tree::Bool(true)),
            ("store_fakeip"@, Tree::Bool(true)),
        ])),
    ])
}

/// The cache file, with fake IPs stored.
fn experimental_section() -> (res: ConfigValue)
    ensures
        tree(res) == experimental_tree(),
{
    let mut o8 = new_object();
    let mut o9 = new_object();
    push_entry(&mut o9, "enabled", ConfigValue::Bool(true));
    push_entry(&mut o9, "store_fakeip", ConfigValue::Bool(true));
    assert(entry_trees(o9@) =~= seq![("enabled"@, Tree::Bool(true)), ("store_fakeip"@, Tree::Bool(true))]);
    let v9 = ConfigValue::Object(o9);
    let ghost t9 = tree(v9);
    push_entry(&mut o8, "cache_file", v9);
    assert(entry_trees(o8@) =~= seq![("cache_file"@, t9)]);
    let v8 = ConfigValue::Object(o8);
    let ghost t8 = tree(v8);
    v8
}

/// DNS for Sing-Box 1.12: typed servers, fake IP for non-CN names, other queries refused.
pub open spec fn dns_v1_12_tree() -> Tree {
    Tree::Object(seq![
        ("servers"@, Tree::Array(seq![
            Tree::Object(seq![
                ("type"@, Tree::Str("tcp"@)),
                ("tag"@, Tree::Str("dns_proxy"@)),
                ("server"@, Tree::Str("1.1.1.1"@)),
                ("domain_resolver"@, Tree::Str("dns_resolver"@)),
            ]),
            Tree::Object(seq![
                ("type"@, Tree::Str("https"@)),
                ("tag"@, Tree::Str("dns_direct"@)),
                ("server"@, Tree::Str("dns.alidns.com"@)),
                ("domain_resolver"@, Tree::Str("dns_resolver"@)),
            ]),
            Tree::Object(seq![
                ("type"@, Tree::Str("udp"@)),
                ("tag"@, Tree::Str("dns_resolver"@)),
                ("server"@, Tree::Str("223.5.5.5"@)),
            ]),
            Tree::Object(seq![
                ("type"@, Tree::Str("fakeip"@)),
                ("tag"@, Tree::Str("dns_fakeip"@)),
                ("inet4_range"@, Tree::Str("198.18.0.0/15"@)),
                ("inet6_range"@, Tree::Str("fc00::/18"@)),
            ]),
        ])),
        ("rules"@, Tree::Array(seq![
            Tree::Object(seq![
                ("rule_set"@, Tree::Str("geolocation-!cn"@)),
                ("query_type"@, Tree::Array(seq![
                    Tree::Str("A"@),
                    Tree::Str("AAAA"@),
                ])),
                ("server"@, Tree::Str("dns_fakeip"@)),
            ]),
            Tree::Object(seq![
                ("rule_set"@, Tree::Str("geolocation-!cn"@)),
                ("query_type"@, Tree::Str("CNAME"@)),
                ("server"@, Tree::Str("dns_proxy"@)),
            ]),
            Tree::Object(seq![
                ("query_type"@, Tree::Array(seq![
                    Tree::Str("A"@),
                    Tree::Str("AAAA"@),
                    Tree::Str("CNAME"@),
                ])),
                ("invert"@, Tree::Bool(true)),
                ("action"@, Tree::Str("predefined"@)),
                ("rcode"@, Tree::Str("REFUSED"@)),
            ]),
        ])),
        ("final"@, Tree::Str("dns_direct"@)),
        ("independent_cache"@, Tree::Bool(true)),
    ])
}

/// DNS for Sing-Box 1.12: typed servers, fake IP for non-CN names, other queries refused.
fn dns_v1_12() -> (res: ConfigValue)
    ensures
        tree(res) == dns_v1_12_tree(),
{
    let mut o10 = new_object();
    let mut a11 = new_array();
    let mut o12 = new_object();
    push_entry(&mut o12, "type", vstr("tcp"));
    push_entry(&mut o12, "tag", vstr("dns_proxy"));
    push_entry(&mut o12, "server", vstr("1.1.1.1"));
    push_entry(&mut o12, "domain_resolver", vstr("dns_resolver"));
    assert(entry_trees(o12@) =~= seq![("type"@, Tree::Str("tcp"@)), ("tag"@, Tree::Str("dns_proxy"@)), ("server"@, Tree::Str("1.1.1.1"@)), ("domain_resolver"@, Tree::Str("dns_resolver"@))]);
    let v12 = ConfigValue::Object(o12);
    let ghost t12 = tree(v12);
    push_item(&mut a11, v12);
    let mut o13 = new_object();
    push_entry(&mut o13, "type", vstr("https"));
    push_entry(&mut o13, "tag", vstr("dns_direct"));
    push_entry(&mut o13, "server", vstr("dns.alidns.com"));
    push_entry(&mut o13, "domain_resolver", vstr("dns_resolver"));
    assert(entry_trees(o13@) =~= seq![("type"@, Tree::Str("https"@)), ("tag"@, Tree::Str("dns_direct"@)), ("server"@, Tree::Str("dns.alidns.com"@)), ("domain_resolver"@, Tree::Str("dns_resolver"@))]);
    let v13 = ConfigValue::Object(o13);
    let ghost t13 = tree(v13);
    push_item(&mut a11, v13);
    let mut o14 = new_object();
    push_entry(&mut o14, "type", vstr("udp"));
    push_entry(&mut o14, "tag", vstr("dns_resolver"));
    push_entry(&mut o14, "server", vstr("223.5.5.5"));
    assert(entry_trees(o14@) =~= seq![("type"@, Tree::Str("udp"@)), ("tag"@, Tree::Str("dns_resolver"@)), ("server"@, Tree::Str("223.5.5.5"@))]);
    let v14 = ConfigValue::Object(o14);
    let ghost t14 = tree(v14);
    push_item(&mut a11, v14);
    let mut o15 = new_object();
    push_entry(&mut o15, "type", vstr("fakeip"));
    push_entry(&mut o15, "tag", vstr("dns_fakeip"));
    push_entry(&mut o15, "inet4_range", vstr("198.18.0.0/15"));
    push_entry(&mut o15, "inet6_range", vstr("fc00::/18"));
    assert(entry_trees(o15@) =~= seq![("type"@, Tree::Str("fakeip"@)), ("tag"@, Tree::Str("dns_fakeip"@)), ("inet4_range"@, Tree::Str("198.18.0.0/15"@)), ("inet6_range"@, Tree::Str("fc00::/18"@))]);
    let v15 = ConfigValue::Object(o15);
    let ghost t15 = tree(v15);
    push_item(&mut a11, v15);
    assert(trees(a11@) =~= seq![t12, t13, t14, t15]);
    let v11 = ConfigValue::Array(a11);
    let ghost t11 = tree(v11);
    push_entry(&mut o10, "servers", v11);
    let mut a16 = new_array();
    let mut o17 = new_object();
    push_entry(&mut o17, "rule_set", vstr("geolocation-!cn"));
    let mut a18 = new_array();
    push_item(&mut a18, vstr("A"));
    push_item(&mut a18, vstr("AAAA"));
    assert(trees(a18@) =~= seq![Tree::Str("A"@), Tree::Str("AAAA"@)]);
    let v18 = ConfigValue::Array(a18);
    let ghost t18 = tree(v18);
    push_entry(&mut o17, "query_type", v18);
    push_entry(&mut o17, "server", vstr("dns_fakeip"));
    assert(entry_trees(o17@) =~= seq![("rule_set"@, Tree::Str("geolocation-!cn"@)), ("query_type"@, t18), ("server"@, Tree::Str("dns_fakeip"@))]);
    let v17 = ConfigValue::Object(o17);
    let ghost t17 = tree(v17);
    push_item(&mut a16, v17);
    let mut o19 = new_object();
    push_entry(&mut o19, "rule_set", vstr("geolocation-!cn"));
    push_entry(&mut o19, "query_type", vstr("CNAME"));
    push_entry(&mut o19, "server", vstr("dns_proxy"));
    assert(entry_trees(o19@) =~= seq![("rule_set"@, Tree::Str("geolocation-!cn"@)), ("query_type"@, Tree::Str("CNAME"@)), ("server"@, Tree::Str("dns_proxy"@))]);
    let v19 = ConfigValue::Object(o19);
    let ghost t19 = tree(v19);
    push_item(&mut a16, v19);
    let mut o20 = new_object();
    let mut a21 = new_array();
    push_item(&mut a21, vstr("A"));
    push_item(&mut a21, vstr("AAAA"));
    push_item(&mut a21, vstr("CNAME"));
    assert(trees(a21@) =~= seq![Tree::Str("A"@), Tree::Str("AAAA"@), Tree::Str("CNAME"@)]);
    let v21 = ConfigValue::Array(a21);
    let ghost t21 = tree(v21);
    push_entry(&mut o20, "query_type", v21);
    push_entry(&mut o20, "invert", ConfigValue::Bool(true));
    push_entry(&mut o20, "action", vstr("predefined"));
    push_entry(&mut o20, "rcode", vstr("REFUSED"));
    assert(entry_trees(o20@) =~= seq![("query_type"@, t21), ("invert"@, Tree::Bool(true)), ("action"@, Tree::Str("predefined"@)), ("rcode"@, Tree::Str("REFUSED"@))]);
    let v20 = ConfigValue::Object(o20);
    let ghost t20 = tree(v20);
    push_item(&mut a16, v20);
    assert(trees(a16@) =~= seq![t17, t19, t20]);
    let v16 = ConfigValue::Array(a16);
    let ghost t16 = tree(v16);
    push_entry(&mut o10, "rules", v16);
    push_entry(&mut o10, "final", vstr("dns_direct"));
    push_entry(&mut o10, "independent_cache", ConfigValue::Bool(true));
    assert(entry_trees(o10@) =~= seq![("servers"@, t11), ("rules"@, t16), ("final"@, Tree::Str("dns_direct"@)), ("independent_cache"@, Tree::Bool(true))]);
    let v10 = ConfigValue::Object(o10);
    let ghost t10 = tree(v10);
    v10
}

/// Routing for Sing-Box 1.12: the local non-CN site list.
pub open spec fn route_v1_12_tree() -> Tree {
    Tree::Object(seq![
        ("default_domain_resolver"@, Tree::Str("dns_resolver"@)),
        ("rule_set"@, Tree::Array(seq![
            Tree::Object(seq![
                ("tag"@, Tree::Str("geosite-geolocation-!cn"@)),
                ("type"@, Tree::Str("local"@)),
                ("format"@, Tree::Str("binary"@)),
                ("path"@, Tree::Str("geosite-geolocation-!cn.srs"@)),
            ]),
        ])),
        ("rules"@, Tree::Array(Seq::empty())),
    ])
}

/// Routing for Sing-Box 1.12: the local non-CN site list.
fn route_v1_12() -> (res: ConfigValue)
    ensures
        tree(res) == route_v1_12_tree(),
{
    let mut o22 = new_object();
    push_entry(&mut o22, "default_domain_resolver", vstr("dns_resolver"));
    let mut a23 = new_array();
    let mut o24 = new_object();
    push_entry(&mut o24, "tag", vstr("geosite-geolocation-!cn"));
    push_entry(&mut o24, "type", vstr("local"));
    push_entry(&mut o24, "format", vstr("binary"));
    push_entry(&mut o24, "path", vstr("geosite-geolocation-!cn.srs"));
    assert(entry_trees(o24@) =~= seq![("tag"@, Tree::Str("geosite-geolocation-!cn"@)), ("type"@, Tree::Str("local"@)), ("format"@, Tree::Str("binary"@)), ("path"@, Tree::Str("geosite-geolocation-!cn.srs"@))]);
    let v24 = ConfigValue::Object(o24);
    let ghost t24 = tree(v24);
    push_item(&mut a23, v24);
    assert(trees(a23@) =~= seq![t24]);
    let v23 = ConfigValue::Array(a23);
    let ghost t23 = tree(v23);
    push_entry(&mut o22, "rule_set", v23);
    let mut a25 = new_array();
    assert(trees(a25@) =~= Seq::<Tree>::empty());
    let v25 = ConfigValue::Array(a25);
    let ghost t25 = tree(v25);
    push_entry(&mut o22, "rules", v25);
    assert(entry_trees(o22@) =~= seq![("default_domain_resolver"@, Tree::Str("dns_resolver"@)), ("rule_set"@, t23), ("rules"@, t25)]);
    let v22 = ConfigValue::Object(o22);
    let ghost t22 = tree(v22);
    v22
}

/// DNS for Sing-Box 1.11: address servers, fake IP for non-CN names.
pub open spec fn dns_v1_11_tree() -> Tree {
    Tree::Object(seq![
        ("servers"@, Tree::Array(seq![
            Tree::Object(seq![
                ("tag"@, Tree::Str("dns_proxy"@)),
                ("address"@, Tree::Str("tls://1.1.1.1"@)),
            ]),
            Tree::Object(seq![
                ("tag"@, Tree::Str("dns_direct"@)),
                ("address"@, Tree::Str("https://dns.alidns.com/dns-query"@)),
                ("detour"@, Tree::Str("DIRECT"@)),
                ("address_resolver"@, Tree::Str("dns_resolver"@)),
            ]),
            Tree::Object(seq![
                ("tag"@, Tree::Str("dns_resolver"@)),
                ("address"@, Tree::Str("223.5.5.5"@)),
                ("detour"@, Tree::Str("DIRECT"@)),
            ]),
            Tree::Object(seq![
                ("tag"@, Tree::Str("dns_fakeip"@)),
                ("address"@, Tree::Str("fakeip"@)),
            ]),
        ])),
        ("rules"@, Tree::Array(seq![
            Tree::Object(seq![
                ("rule_set"@, Tree::Str("geolocation-!cn"@)),
                ("query_type"@, Tree::Array(seq![
                    Tree::Str("A"@),
                    Tree::Str("AAAA"@),
                ])),
                ("server"@, Tree::Str("dns_fakeip"@)),
            ]),
            Tree::Object(seq![
                ("rule_set"@, Tree::Str("geolocation-!cn"@)),
                ("query_type"@, Tree::Str("CNAME"@)),
                ("server"@, Tree::Str("dns_proxy"@)),
            ]),
            Tree::Object(seq![
                ("query_type"@, Tree::Array(seq![
                    Tree::Str("A"@),
                    Tree::Str("AAAA"@),
                    Tree::Str("CNAME"@),
                ])),
                ("invert"@, Tree::Bool(true)),
                ("server"@, Tree::Str("dns_direct"@)),
                ("disable_cache"@, Tree::Bool(true)),
            ]),
        ])),
        ("final"@, Tree::Str("dns_direct"@)),
        ("strategy"@, Tree::Str("prefer_ipv4"@)),
        ("independent_cache"@, Tree::Bool(true)),
        ("fakeip"@, Tree::Object(seq![
            ("enabled"@, Tree::Bool(true)),
            ("inet4_range"@, Tree::Str("198.18.0.0/15"@)),
            ("inet6_range"@, Tree::Str("fc00::/18"@)),
        ])),
    ])
}

/// DNS for Sing-Box 1.11: address servers, fake IP for non-CN names.
fn dns_v1_11() -> (res: ConfigValue)
    ensures
        tree(res) == dns_v1_11_tree(),
{
    let mut o26 = new_object();
    let mut a27 = new_array();
    let mut o28 = new_object();
    push_entry(&mut o28, "tag", vstr("dns_proxy"));
    push_entry(&mut o28, "address", vstr("tls://1.1.1.1"));
    assert(entry_trees(o28@) =~= seq![("tag"@, Tree::Str("dns_proxy"@)), ("address"@, Tree::Str("tls://1.1.1.1"@))]);
    let v28 = ConfigValue::Object(o28);
    let ghost t28 = tree(v28);
    push_item(&mut a27, v28);
    let mut o29 = new_object();
    push_entry(&mut o29, "tag", vstr("dns_direct"));
    push_entry(&mut o29, "address", vstr("https://dns.alidns.com/dns-query"));
    push_entry(&mut o29, "detour", vstr("DIRECT"));
    push_entry(&mut o29, "address_resolver", vstr("dns_resolver"));
    assert(entry_trees(o29@) =~= seq![("tag"@, Tree::Str("dns_direct"@)), ("address"@, Tree::Str("https://dns.alidns.com/dns-query"@)), ("detour"@, Tree::Str("DIRECT"@)), ("address_resolver"@, Tree::Str("dns_resolver"@))]);
    let v29 = ConfigValue::Object(o29);
    let ghost t29 = tree(v29);
    push_item(&mut a27, v29);
    let mut o30 = new_object();
    push_entry(&mut o30, "tag", vstr("dns_resolver"));
    push_entry(&mut o30, "address", vstr("223.5.5.5"));
    push_entry(&mut o30, "detour", vstr("DIRECT"));
    assert(entry_trees(o30@) =~= seq![("tag"@, Tree::Str("dns_resolver"@)), ("address"@, Tree::Str("223.5.5.5"@)), ("detour"@, Tree::Str("DIRECT"@))]);
    let v30 = ConfigValue::Object(o30);
    let ghost t30 = tree(v30);
    push_item(&mut a27, v30);
    let mut o31 = new_object();
    push_entry(&mut o31, "tag", vstr("dns_fakeip"));
    push_entry(&mut o31, "address", vstr("fakeip"));
    assert(entry_trees(o31@) =~= seq![("tag"@, Tree::Str("dns_fakeip"@)), ("address"@, Tree::Str("fakeip"@))]);
    let v31 = ConfigValue::Object(o31);
    let ghost t31 = tree(v31);
    push_item(&mut a27, v31);
    assert(trees(a27@) =~= seq![t28, t29, t30, t31]);
    let v27 = ConfigValue::Array(a27);
    let ghost t27 = tree(v27);
    push_entry(&mut o26, "servers", v27);
    let mut a32 = new_array();
    let mut o33 = new_object();
    push_entry(&mut o33, "rule_set", vstr("geolocation-!cn"));
    let mut a34 = new_array();
    push_item(&mut a34, vstr("A"));
    push_item(&mut a34, vstr("AAAA"));
    assert(trees(a34@) =~= seq![Tree::Str("A"@), Tree::Str("AAAA"@)]);
    let v34 = ConfigValue::Array(a34);
    let ghost t34 = tree(v34);
    push_entry(&mut o33, "query_type", v34);
    push_entry(&mut o33, "server", vstr("dns_fakeip"));
    assert(entry_trees(o33@) =~= seq![("rule_set"@, Tree::Str("geolocation-!cn"@)), ("query_type"@, t34), ("server"@, Tree::Str("dns_fakeip"@))]);
    let v33 = ConfigValue::Object(o33);
    let ghost t33 = tree(v33);
    push_item(&mut a32, v33);
    let mut o35 = new_object();
    push_entry(&mut o35, "rule_set", vstr("geolocation-!cn"));
    push_entry(&mut o35, "query_type", vstr("CNAME"));
    push_entry(&mut o35, "server", vstr("dns_proxy"));
    assert(entry_trees(o35@) =~= seq![("rule_set"@, Tree::Str("geolocation-!cn"@)), ("query_type"@, Tree::Str("CNAME"@)), ("server"@, Tree::Str("dns_proxy"@))]);
    let v35 = ConfigValue::Object(o35);
    let ghost t35 = tree(v35);
    push_item(&mut a32, v35);
    let mut o36 = new_object();
    let mut a37 = new_array();
    push_item(&mut a37, vstr("A"));
    push_item(&mut a37, vstr("AAAA"));
    push_item(&mut a37, vstr("CNAME"));
    assert(trees(a37@) =~= seq![Tree::Str("A"@), Tree::Str("AAAA"@), Tree::Str("CNAME"@)]);
    let v37 = ConfigValue::Array(a37);
    let ghost t37 = tree(v37);
    push_entry(&mut o36, "query_type", v37);
    push_entry(&mut o36, "invert", ConfigValue::Bool(true));
    push_entry(&mut o36, "server", vstr("dns_direct"));
    push_entry(&mut o36, "disable_cache", ConfigValue::Bool(true));
    assert(entry_trees(o36@) =~= seq![("query_type"@, t37), ("invert"@, Tree::Bool(true)), ("server"@, Tree::Str("dns_direct"@)), ("disable_cache"@, Tree::Bool(true))]);
    let v36 = ConfigValue::Object(o36);
    let ghost t36 = tree(v36);
    push_item(&mut a32, v36);
    assert(trees(a32@) =~= seq![t33, t35, t36]);
    let v32 = ConfigValue::Array(a32);
    let ghost t32 = tree(v32);
    push_entry(&mut o26, "rules", v32);
    push_entry(&mut o26, "final", vstr("dns_direct"));
    push_entry(&mut o26, "strategy", vstr("prefer_ipv4"));
    push_entry(&mut o26, "independent_cache", ConfigValue::Bool(true));
    let mut o38 = new_object();
    push_entry(&mut o38, "enabled", ConfigValue::Bool(true));
    push_entry(&mut o38, "inet4_range", vstr("198.18.0.0/15"));
    push_entry(&mut o38, "inet6_range", vstr("fc00::/18"));
    assert(entry_trees(o38@) =~= seq![("enabled"@, Tree::Bool(true)), ("inet4_range"@, Tree::Str("198.18.0.0/15"@)), ("inet6_range"@, Tree::Str("fc00::/18"@))]);
    let v38 = ConfigValue::Object(o38);
    let ghost t38 = tree(v38);
    push_entry(&mut o26, "fakeip", v38);
    assert(entry_trees(o26@) =~= seq![("servers"@, t27), ("rules"@, t32), ("final"@, Tree::Str("dns_direct"@)), ("strategy"@, Tree::Str("prefer_ipv4"@)), ("independent_cache"@, Tree::Bool(true)), ("fakeip"@, t38)]);
    let v26 = ConfigValue::Object(o26);
    let ghost t26 = tree(v26);
    v26
}

/// Routing for Sing-Box 1.11: empty.
pub open spec fn route_v1_11_tree() -> Tree {
    Tree::Object(seq![
        ("rule_set"@, Tree::Array(Seq::empty())),
        ("rules"@, Tree::Array(Seq::empty())),
    ])
}

/// Routing for Sing-Box 1.11: empty.
fn route_v1_11() -> (res: ConfigValue)
    ensures
        tree(res) == route_v1_11_tree(),
{
    let mut o39 = new_object();
    let mut a40 = new_array();
    assert(trees(a40@) =~= Seq::<Tree>::empty());
    let v40 = ConfigValue::Array(a40);
    let ghost t40 = tree(v40);
    push_entry(&mut o39, "rule_set", v40);
    let mut a41 = new_array();
    assert(trees(a41@) =~= Seq::<Tree>::empty());
    let v41 = ConfigValue::Array(a41);
    let ghost t41 = tree(v41);
    push_entry(&mut o39, "rules", v41);
    assert(entry_trees(o39@) =~= seq![("rule_set"@, t40), ("rules"@, t41)]);
    let v39 = ConfigValue::Object(o39);
    let ghost t39 = tree(v39);
    v39
}

/// The default document for Sing-Box 1.12.
pub open spec fn default_v1_12_tree() -> Tree {
    Tree::Object(seq![
        ("log"@, log_tree()),
        ("dns"@, dns_v1_12_tree()),
        ("ntp"@, ntp_tree()),
        ("inbounds"@, inbounds_tree()),
        ("outbounds"@, outbounds_tree()),
        ("route"@, route_v1_12_tree()),
        ("experimental"@, experimental_tree()),
    ])
}

/// The default document for Sing-Box 1.12.
pub fn default_v1_12() -> (res: ConfigValue)
    ensures
        tree(res) == default_v1_12_tree(),
{
    let mut o42 = new_object();
    push_entry(&mut o42, "log", log_section());
    push_entry(&mut o42, "dns", dns_v1_12());
    push_entry(&mut o42, "ntp", ntp_section());
    push_entry(&mut o42, "inbounds", inbounds_section());
    push_entry(&mut o42, "outbounds", outbounds_section());
    push_entry(&mut o42, "route", route_v1_12());
    push_entry(&mut o42, "experimental", experimental_section());
    assert(entry_trees(o42@) =~= seq![("log"@, log_tree()), ("dns"@, dns_v1_12_tree()), ("ntp"@, ntp_tree()), ("inbounds"@, inbounds_tree()), ("outbounds"@, outbounds_tree()), ("route"@, route_v1_12_tree()), ("experimental"@, experimental_tree())]);
    let v42 = ConfigValue::Object(o42);
    let ghost t42 = tree(v42);
    v42
}

/// The default document for Sing-Box 1.11.
pub open spec fn default_v1_11_tree() -> Tree {
    Tree::Object(seq![
        ("log"@, log_tree()),
        ("dns"@, dns_v1_11_tree()),
        ("ntp"@, ntp_tree()),
        ("inbounds"@, inbounds_tree()),
        ("outbounds"@, outbounds_tree()),
        ("route"@, route_v1_11_tree()),
        ("experimental"@, experimental_tree()),
    ])
}

/// The default document for Sing-Box 1.11.
pub fn default_v1_11() -> (res: ConfigValue)
    ensures
        tree(res) == default_v1_11_tree(),
{
    let mut o43 = new_object();
    push_entry(&mut o43, "log", log_section());
    push_entry(&mut o43, "dns", dns_v1_11());
    push_entry(&mut o43, "ntp", ntp_section());
    push_entry(&mut o43, "inbounds", inbounds_section());
    push_entry(&mut o43, "outbounds", outbounds_section());
    push_entry(&mut o43, "route", route_v1_11());
    push_entry(&mut o43, "experimental", experimental_section());
    assert(entry_trees(o43@) =~= seq![("log"@, log_tree()), ("dns"@, dns_v1_11_tree()), ("ntp"@, ntp_tree()), ("inbounds"@, inbounds_tree()), ("outbounds"@, outbounds_tree()), ("route"@, route_v1_11_tree()), ("experimental"@, experimental_tree())]);
    let v43 = ConfigValue::Object(o43);
    let ghost t43 = tree(v43);
    v43
}

} // verus!
