//! Builders of simple client configurations: every node and one selector.

pub mod laws;

use vstd::prelude::*;
use vstd::string::StringExecFns;
use crate::parsers::{proxy_clash, proxy_singbox, ProxyConfig, ProxyView};
use crate::parsers::protocols::hysteria2::Hysteria2View;
use crate::parsers::protocols::trojan::TrojanView;
use crate::utils::text::{
    chars_to_string, concat_chars, decimal_chars, decimal_text, join, join_chars, push_all,
    str_chars, str_eq, views,
};
use crate::utils::value::{
    entry_trees, find_key, has_key, new_array, new_object, opt_view, push_entry, push_item, tree,
    trees, vnumber, vstr, vstring, ConfigValue, Entry, Tree,
};

verus! {

broadcast use vstd::seq_lib::group_seq_properties;

// ---------------------------------------------------------------------
// Surge
// ---------------------------------------------------------------------

/// The parameters with `prefix` + value appended where there is a value.
pub open spec fn push_param(ps: Seq<Seq<char>>, prefix: Seq<char>, o: Option<Seq<char>>) -> Seq<
    Seq<char>,
> {
    match o {
        Some(v) => ps.push(prefix + v),
        None => ps,
    }
}

pub open spec fn bool_text(b: bool) -> Seq<char> {
    if b {
        "true"@
    } else {
        "false"@
    }
}

pub open spec fn opt_bool_text(o: Option<bool>) -> Option<Seq<char>> {
    match o {
        Some(b) => Some(bool_text(b)),
        None => None,
    }
}

pub open spec fn braced(o: Option<Seq<char>>) -> Option<Seq<char>> {
    match o {
        Some(h) => Some(h + "}"@),
        None => None,
    }
}

/// The Surge parameters of a Trojan node.
pub open spec fn trojan_surge_params(c: TrojanView) -> Seq<Seq<char>> {
    let base = push_param(
        push_param(
            push_param(seq!["password="@ + c.password], "sni="@, c.sni),
            "alpn="@,
            c.alpn,
        ),
        "insecure="@,
        opt_bool_text(c.allow_insecure),
    );
    match c.network {
        Some(n) => {
            let with_network = base.push("network="@ + n);
            if n == "ws"@ {
                push_param(
                    push_param(with_network, "ws-path="@, c.path),
                    "ws-headers=Host:{"@,
                    braced(c.host),
                )
            } else if n == "grpc"@ {
                push_param(with_network, "grpc-service-name="@, c.path)
            } else {
                with_network
            }
        },
        None => base,
    }
}

/// The Surge parameters of a Hysteria2 node.
pub open spec fn hysteria2_surge_params(c: Hysteria2View) -> Seq<Seq<char>> {
    push_param(
        push_param(
            push_param(
                push_param(
                    push_param(seq!["password="@ + c.password], "obfs="@, c.obfs),
                    "obfs-password="@,
                    c.obfs_password,
                ),
                "sni="@,
                c.sni,
            ),
            "insecure="@,
            opt_bool_text(c.insecure),
        ),
        "alpn="@,
        c.alpn,
    )
}

/// `name = kind, server, port, params...`.
pub open spec fn surge_line(
    name: Seq<char>,
    kind: Seq<char>,
    server: Seq<char>,
    port: u16,
    params: Seq<Seq<char>>,
) -> Seq<char> {
    name + " = "@ + kind + ", "@ + server + ", "@ + decimal_text(port as nat) + ", "@ + join(
        params,
        ", "@,
    )
}

/// The Surge line of a node; protocols Surge does not know become a
/// comment.
pub open spec fn spec_surge_proxy_line(p: ProxyView) -> Seq<char> {
    match p {
        ProxyView::Trojan(c) => surge_line(c.name, "trojan"@, c.server, c.port, trojan_surge_params(c)),
        ProxyView::Hysteria2(c) => surge_line(
            c.name,
            "hysteria2"@,
            c.server,
            c.port,
            hysteria2_surge_params(c),
        ),
        ProxyView::AnyTLS(c) => "# "@ + c.name + " (unsupported)"@,
    }
}

fn push_param_exec(ps: &mut Vec<Vec<char>>, prefix: &str, o: &Option<String>)
    ensures
        views(final(ps)@) == push_param(views(old(ps)@), prefix@, opt_view(*o)),
{
    match o {
        Some(v) => {
            let p = str_chars(prefix);
            let x = str_chars(v.as_str());
            let item = concat_chars(p.as_slice(), x.as_slice());
            let ghost before = views(ps@);
            ps.push(item);
            assert(views(ps@) =~= before.push(prefix@ + v@));
        },
        None => {},
    }
}

fn bool_text_exec(b: bool) -> (res: String)
    ensures
        res@ == bool_text(b),
{
    if b {
        String::from_str("true")
    } else {
        String::from_str("false")
    }
}

fn opt_bool_string(o: Option<bool>) -> (res: Option<String>)
    ensures
        opt_view(res) == opt_bool_text(o),
{
    match o {
        Some(b) => Some(bool_text_exec(b)),
        None => None,
    }
}

fn first_param(prefix: &str, value: &String) -> (res: Vec<Vec<char>>)
    ensures
        views(res@) == seq![prefix@ + value@],
{
    let p = str_chars(prefix);
    let x = str_chars(value.as_str());
    let mut res: Vec<Vec<char>> = Vec::new();
    res.push(concat_chars(p.as_slice(), x.as_slice()));
    assert(views(res@) =~= seq![prefix@ + value@]);
    res
}

fn assemble_line(name: &String, kind: &str, server: &String, port: u16, params: &Vec<Vec<char>>) -> (res: String)
    ensures
        res@ == surge_line(name@, kind@, server@, port, views(params@)),
{
    let mut out = str_chars(name.as_str());
    push_all(&mut out, str_chars(" = ").as_slice());
    push_all(&mut out, str_chars(kind).as_slice());
    push_all(&mut out, str_chars(", ").as_slice());
    push_all(&mut out, str_chars(server.as_str()).as_slice());
    push_all(&mut out, str_chars(", ").as_slice());
    push_all(&mut out, decimal_chars(port as u64).as_slice());
    push_all(&mut out, str_chars(", ").as_slice());
    let sep = str_chars(", ");
    push_all(&mut out, join_chars(params, sep.as_slice()).as_slice());
    chars_to_string(out.as_slice())
}

/// The Surge line of a node.
pub fn surge_proxy_line(proxy: &ProxyConfig) -> (res: String)
    ensures
        res@ == spec_surge_proxy_line(proxy@),
{
    match proxy {
        ProxyConfig::Trojan(c) => {
            let mut ps = first_param("password=", &c.password);
            push_param_exec(&mut ps, "sni=", &c.sni);
            push_param_exec(&mut ps, "alpn=", &c.alpn);
            push_param_exec(&mut ps, "insecure=", &opt_bool_string(c.allow_insecure));
            match &c.network {
                Some(n) => {
                    let nv = Some(n.clone());
                    push_param_exec(&mut ps, "network=", &nv);
                    if str_eq(n.as_str(), "ws") {
                        push_param_exec(&mut ps, "ws-path=", &c.path);
                        let host = match &c.host {
                            Some(h) => Some(h.clone().concat("}")),
                            None => None,
                        };
                        push_param_exec(&mut ps, "ws-headers=Host:{", &host);
                    } else if str_eq(n.as_str(), "grpc") {
                        push_param_exec(&mut ps, "grpc-service-name=", &c.path);
                    }
                },
                None => {},
            }
            assemble_line(&c.name, "trojan", &c.server, c.port, &ps)
        },
        ProxyConfig::Hysteria2(c) => {
            let mut ps = first_param("password=", &c.password);
            push_param_exec(&mut ps, "obfs=", &c.obfs);
            push_param_exec(&mut ps, "obfs-password=", &c.obfs_password);
            push_param_exec(&mut ps, "sni=", &c.sni);
            push_param_exec(&mut ps, "insecure=", &opt_bool_string(c.insecure));
            push_param_exec(&mut ps, "alpn=", &c.alpn);
            assemble_line(&c.name, "hysteria2", &c.server, c.port, &ps)
        },
        ProxyConfig::AnyTLS(c) => String::from_str("# ").concat(c.name.as_str()).concat(" (unsupported)"),
    }
}

/// The names of the nodes, in order.
pub open spec fn names(proxies: Seq<ProxyConfig>) -> Seq<Seq<char>> {
    proxies.map_values(|p: ProxyConfig| p@.name())
}

/// The lines of the nodes, each followed by a newline.
pub open spec fn surge_lines(proxies: Seq<ProxyConfig>) -> Seq<char>
    decreases proxies.len(),
{
    if proxies.len() == 0 {
        Seq::empty()
    } else {
        surge_lines(proxies.drop_last()) + spec_surge_proxy_line(proxies.last()@) + "\n"@
    }
}

pub open spec fn surge_general() -> Seq<char> {
    "[General]\nloglevel = notify\ndns-server = 223.5.5.5, 114.114.114.114\nallow-wifi-access = false\nskip-proxy = 127.0.0.1, 192.168.0.0/16, 10.0.0.0/8, 172.16.0.0/12, localhost, *.local\nipv6 = false\ntest-timeout = 5\nproxy-test-url = http://www.gstatic.com/generate_204\n\n[Proxy]\n"@
}

pub open spec fn surge_group_head() -> Seq<char> {
    "\n[Proxy Group]\nProxy = selector, DIRECT, REJECT, "@
}

pub open spec fn surge_rules() -> Seq<char> {
    "\n\n[Rule]\nPROTOCOL,DNS,DIRECT\nMATCH,Proxy\n"@
}

/// A Surge configuration: the general section, one line per node, a
/// selector over DIRECT, REJECT and every node, and two rules.
pub open spec fn spec_simple_surge(proxies: Seq<ProxyConfig>) -> Seq<char> {
    surge_general() + surge_lines(proxies) + surge_group_head() + join(names(proxies), ", "@)
        + surge_rules()
}

fn name_list(proxies: &[ProxyConfig]) -> (res: Vec<Vec<char>>)
    ensures
        views(res@) == names(proxies@),
{
    let mut res: Vec<Vec<char>> = Vec::new();
    let mut i: usize = 0;
    while i < proxies.len()
        invariant
            i <= proxies.len(),
            views(res@) == names(proxies@).take(i as int),
        decreases proxies.len() - i,
    {
        let ghost before = views(res@);
        res.push(str_chars(proxies[i].name()));
        assert(views(res@) =~= before.push(proxies@[i as int]@.name()));
        assert(names(proxies@).take(i + 1) =~= names(proxies@).take(i as int).push(
            proxies@[i as int]@.name(),
        ));
        i = i + 1;
    }
    assert(names(proxies@).take(proxies.len() as int) =~= names(proxies@));
    res
}

/// A Surge configuration with every node and one selector.
pub fn build_simple_surge(proxies: &[ProxyConfig]) -> (res: String)
    ensures
        res@ == spec_simple_surge(proxies@),
{
    let mut out = str_chars(
        "[General]\nloglevel = notify\ndns-server = 223.5.5.5, 114.114.114.114\nallow-wifi-access = false\nskip-proxy = 127.0.0.1, 192.168.0.0/16, 10.0.0.0/8, 172.16.0.0/12, localhost, *.local\nipv6 = false\ntest-timeout = 5\nproxy-test-url = http://www.gstatic.com/generate_204\n\n[Proxy]\n",
    );
    let ghost head = out@;
    let newline = str_chars("\n");
    let mut i: usize = 0;
    assert(proxies@.take(0) =~= Seq::<ProxyConfig>::empty());
    assert(out@ =~= head + surge_lines(proxies@.take(0)));
    while i < proxies.len()
        invariant
            i <= proxies.len(),
            newline@ == "\n"@,
            out@ == head + surge_lines(proxies@.take(i as int)),
        decreases proxies.len() - i,
    {
        let line = surge_proxy_line(&proxies[i]);
        push_all(&mut out, str_chars(line.as_str()).as_slice());
        push_all(&mut out, newline.as_slice());
        assert(proxies@.take(i + 1).drop_last() =~= proxies@.take(i as int));
        i = i + 1;
    }
    assert(proxies@.take(proxies.len() as int) =~= proxies@);
    push_all(&mut out, str_chars("\n[Proxy Group]\nProxy = selector, DIRECT, REJECT, ").as_slice());
    let names_v = name_list(proxies);
    let sep = str_chars(", ");
    push_all(&mut out, join_chars(&names_v, sep.as_slice()).as_slice());
    push_all(&mut out, str_chars("\n\n[Rule]\nPROTOCOL,DNS,DIRECT\nMATCH,Proxy\n").as_slice());
    chars_to_string(out.as_slice())
}

// ---------------------------------------------------------------------
// Clash
// ---------------------------------------------------------------------

pub open spec fn str_items(s: Seq<Seq<char>>) -> Seq<Tree> {
    s.map_values(|x: Seq<char>| Tree::Str(x))
}

pub open spec fn clash_proxies(proxies: Seq<ProxyConfig>) -> Seq<Tree> {
    proxies.map_values(|p: ProxyConfig| proxy_clash(p@))
}

/// A Clash configuration: ports 7890/7891, rule mode, every node, a
/// selector `Proxy` over DIRECT, REJECT and every node, DNS direct and
/// everything else through `Proxy`.
pub open spec fn spec_simple_clash(proxies: Seq<ProxyConfig>) -> Tree {
    Tree::Object(
        seq![
            ("port"@, Tree::Number(decimal_text(7890))),
            ("socks-port"@, Tree::Number(decimal_text(7891))),
            ("allow-lan"@, Tree::Bool(false)),
            ("mode"@, Tree::Str("rule"@)),
            ("log-level"@, Tree::Str("info"@)),
            ("proxies"@, Tree::Array(clash_proxies(proxies))),
            (
                "proxy-groups"@,
                Tree::Array(
                    seq![
                        Tree::Object(
                            seq![
                                ("name"@, Tree::Str("Proxy"@)),
                                ("type"@, Tree::Str("selector"@)),
                                (
                                    "proxies"@,
                                    Tree::Array(
                                        seq![Tree::Str("DIRECT"@), Tree::Str("REJECT"@)] + str_items(
                                            names(proxies),
                                        ),
                                    ),
                                ),
                            ],
                        ),
                    ],
                ),
            ),
            (
                "rules"@,
                Tree::Array(seq![Tree::Str("PROTOCOL,DNS,DIRECT"@), Tree::Str("MATCH,Proxy"@)]),
            ),
        ],
    )
}

/// Appends the names of the nodes as strings.
fn push_names(a: &mut Vec<ConfigValue>, proxies: &[ProxyConfig])
    ensures
        trees(final(a)@) == trees(old(a)@) + str_items(names(proxies@)),
{
    let mut i: usize = 0;
    while i < proxies.len()
        invariant
            i <= proxies.len(),
            trees(a@) == trees(old(a)@) + str_items(names(proxies@)).take(i as int),
        decreases proxies.len() - i,
    {
        push_item(a, vstr(proxies[i].name()));
        assert(str_items(names(proxies@)).take(i + 1) =~= str_items(names(proxies@)).take(
            i as int,
        ).push(Tree::Str(proxies@[i as int]@.name())));
        i = i + 1;
    }
    assert(str_items(names(proxies@)).take(proxies.len() as int) =~= str_items(names(proxies@)));
}

/// The Clash proxies of the nodes.
pub fn clash_proxy_list(proxies: &[ProxyConfig]) -> (res: Vec<ConfigValue>)
    ensures
        trees(res@) == clash_proxies(proxies@),
{
    let mut a = new_array();
    let mut i: usize = 0;
    while i < proxies.len()
        invariant
            i <= proxies.len(),
            trees(a@) == clash_proxies(proxies@).take(i as int),
        decreases proxies.len() - i,
    {
        push_item(&mut a, proxies[i].to_clash());
        assert(clash_proxies(proxies@).take(i + 1) =~= clash_proxies(proxies@).take(i as int).push(
            proxy_clash(proxies@[i as int]@),
        ));
        i = i + 1;
    }
    assert(clash_proxies(proxies@).take(proxies.len() as int) =~= clash_proxies(proxies@));
    a
}

/// A Clash configuration with every node and one selector.
pub fn build_simple_clash(proxies: &[ProxyConfig]) -> (res: ConfigValue)
    ensures
        tree(res) == spec_simple_clash(proxies@),
{
    let proxy_list = clash_proxy_list(proxies);
    let mut group_proxies = new_array();
    push_item(&mut group_proxies, vstr("DIRECT"));
    push_item(&mut group_proxies, vstr("REJECT"));
    assert(trees(group_proxies@) =~= seq![Tree::Str("DIRECT"@), Tree::Str("REJECT"@)]);
    push_names(&mut group_proxies, proxies);
    let mut group = new_object();
    push_entry(&mut group, "name", vstr("Proxy"));
    push_entry(&mut group, "type", vstr("selector"));
    push_entry(&mut group, "proxies", ConfigValue::Array(group_proxies));
    assert(entry_trees(group@) =~= seq![
        ("name"@, Tree::Str("Proxy"@)),
        ("type"@, Tree::Str("selector"@)),
        ("proxies"@, Tree::Array(seq![Tree::Str("DIRECT"@), Tree::Str("REJECT"@)] + str_items(names(proxies@)))),
    ]);
    let ghost group_tree = tree(ConfigValue::Object(group));
    let mut groups = new_array();
    push_item(&mut groups, ConfigValue::Object(group));
    assert(trees(groups@) =~= seq![group_tree]);
    let mut rules = new_array();
    push_item(&mut rules, vstr("PROTOCOL,DNS,DIRECT"));
    push_item(&mut rules, vstr("MATCH,Proxy"));
    assert(trees(rules@) =~= seq![Tree::Str("PROTOCOL,DNS,DIRECT"@), Tree::Str("MATCH,Proxy"@)]);
    let mut config = new_object();
    push_entry(&mut config, "port", vnumber(7890));
    push_entry(&mut config, "socks-port", vnumber(7891));
    push_entry(&mut config, "allow-lan", ConfigValue::Bool(false));
    push_entry(&mut config, "mode", vstr("rule"));
    push_entry(&mut config, "log-level", vstr("info"));
    push_entry(&mut config, "proxies", ConfigValue::Array(proxy_list));
    push_entry(&mut config, "proxy-groups", ConfigValue::Array(groups));
    push_entry(&mut config, "rules", ConfigValue::Array(rules));
    assert(entry_trees(config@) =~= spec_simple_clash(proxies@)->Object_0);
    ConfigValue::Object(config)
}

// ---------------------------------------------------------------------
// Sing-Box
// ---------------------------------------------------------------------

/// An outbound with a `tag` entry added (the node's name) where an
/// object has none.
pub open spec fn with_tag(t: Tree, name: Seq<char>) -> Tree {
    match t {
        Tree::Object(es) => if has_key(t, "tag"@) {
            t
        } else {
            Tree::Object(es.push(("tag"@, Tree::Str(name))))
        },
        _ => t,
    }
}

pub open spec fn singbox_outbounds(proxies: Seq<ProxyConfig>) -> Seq<Tree> {
    proxies.map_values(|p: ProxyConfig| with_tag(proxy_singbox(p@), p@.name()))
}

pub open spec fn tagged(kind: Seq<char>, tag: Seq<char>) -> Tree {
    Tree::Object(seq![("type"@, Tree::Str(kind)), ("tag"@, Tree::Str(tag))])
}

/// A Sing-Box configuration: info log, a mixed inbound on 2080, REJECT and
/// DIRECT, every node, a selector `Proxy` over DIRECT, REJECT and every
/// node, DNS hijacked and `Proxy` as the final outbound.
pub open spec fn spec_simple_singbox(proxies: Seq<ProxyConfig>) -> Tree {
    Tree::Object(
        seq![
            ("log"@, Tree::Object(seq![("level"@, Tree::Str("info"@))])),
            (
                "inbounds"@,
                Tree::Array(
                    seq![
                        Tree::Object(
                            seq![
                                ("type"@, Tree::Str("mixed"@)),
                                ("tag"@, Tree::Str("mixed-in"@)),
                                ("listen"@, Tree::Str("0.0.0.0"@)),
                                ("listen_port"@, Tree::Number(decimal_text(2080))),
                            ],
                        ),
                    ],
                ),
            ),
            (
                "outbounds"@,
                Tree::Array(
                    seq![tagged("block"@, "REJECT"@), tagged("direct"@, "DIRECT"@)]
                        + singbox_outbounds(proxies)
                        + seq![
                        Tree::Object(
                            seq![
                                ("type"@, Tree::Str("selector"@)),
                                ("tag"@, Tree::Str("Proxy"@)),
                                (
                                    "outbounds"@,
                                    Tree::Array(
                                        seq![Tree::Str("DIRECT"@), Tree::Str("REJECT"@)] + str_items(
                                            names(proxies),
                                        ),
                                    ),
                                ),
                            ],
                        ),
                    ],
                ),
            ),
            (
                "route"@,
                Tree::Object(
                    seq![
                        (
                            "rules"@,
                            Tree::Array(
                                seq![
                                    Tree::Object(
                                        seq![
                                            ("protocol"@, Tree::Str("dns"@)),
                                            ("action"@, Tree::Str("hijack-dns"@)),
                                        ],
                                    ),
                                    Tree::Object(seq![("outbound"@, Tree::Str("Proxy"@))]),
                                    Tree::Object(seq![("outbound"@, Tree::Str("REJECT"@))]),
                                ],
                            ),
                        ),
                        ("final"@, Tree::Str("Proxy"@)),
                    ],
                ),
            ),
        ],
    )
}

/// Whether an object's entries hold `key`.
pub fn entries_have_key(es: &Vec<Entry>, key: &str) -> (res: bool)
    ensures
        res == has_key(Tree::Object(entry_trees(es@)), key@),
{
    find_key(es, key).is_some()
}

/// Adds the node's name as `tag` to an outbound object that has none.
pub fn ensure_tag(v: ConfigValue, name: &str) -> (res: ConfigValue)
    ensures
        tree(res) == with_tag(tree(v), name@),
{
    match v {
        ConfigValue::Object(mut es) => {
            if entries_have_key(&es, "tag") {
                ConfigValue::Object(es)
            } else {
                push_entry(&mut es, "tag", vstr(name));
                ConfigValue::Object(es)
            }
        },
        other => other,
    }
}

fn tagged_exec(kind: &str, tag: &str) -> (res: ConfigValue)
    ensures
        tree(res) == tagged(kind@, tag@),
{
    let mut o = new_object();
    push_entry(&mut o, "type", vstr(kind));
    push_entry(&mut o, "tag", vstr(tag));
    assert(entry_trees(o@) =~= tagged(kind@, tag@)->Object_0);
    ConfigValue::Object(o)
}

fn object_of(key: &str, value: ConfigValue) -> (res: ConfigValue)
    ensures
        tree(res) == Tree::Object(seq![(key@, tree(value))]),
{
    let mut o = new_object();
    push_entry(&mut o, key, value);
    assert(entry_trees(o@) =~= seq![(key@, tree(value))]);
    ConfigValue::Object(o)
}

/// A Sing-Box configuration with every node and one selector.
pub fn build_simple_singbox(proxies: &[ProxyConfig]) -> (res: ConfigValue)
    ensures
        tree(res) == spec_simple_singbox(proxies@),
{
    let mut outbounds = new_array();
    push_item(&mut outbounds, tagged_exec("block", "REJECT"));
    push_item(&mut outbounds, tagged_exec("direct", "DIRECT"));
    let ghost head = trees(outbounds@);
    let mut i: usize = 0;
    while i < proxies.len()
        invariant
            i <= proxies.len(),
            trees(outbounds@) == head + singbox_outbounds(proxies@).take(i as int),
        decreases proxies.len() - i,
    {
        let p = &proxies[i];
        push_item(&mut outbounds, ensure_tag(p.to_singbox(), p.name()));
        assert(singbox_outbounds(proxies@).take(i + 1) =~= singbox_outbounds(proxies@).take(
            i as int,
        ).push(with_tag(proxy_singbox(proxies@[i as int]@), proxies@[i as int]@.name())));
        i = i + 1;
    }
    assert(singbox_outbounds(proxies@).take(proxies.len() as int) =~= singbox_outbounds(proxies@));
    let mut selector_outbounds = new_array();
    push_item(&mut selector_outbounds, vstr("DIRECT"));
    push_item(&mut selector_outbounds, vstr("REJECT"));
    assert(trees(selector_outbounds@) =~= seq![Tree::Str("DIRECT"@), Tree::Str("REJECT"@)]);
    push_names(&mut selector_outbounds, proxies);
    let mut selector = new_object();
    push_entry(&mut selector, "type", vstr("selector"));
    push_entry(&mut selector, "tag", vstr("Proxy"));
    push_entry(&mut selector, "outbounds", ConfigValue::Array(selector_outbounds));
    assert(entry_trees(selector@) =~= seq![
        ("type"@, Tree::Str("selector"@)),
        ("tag"@, Tree::Str("Proxy"@)),
        ("outbounds"@, Tree::Array(seq![Tree::Str("DIRECT"@), Tree::Str("REJECT"@)] + str_items(names(proxies@)))),
    ]);
    let ghost sel_tree = tree(ConfigValue::Object(selector));
    push_item(&mut outbounds, ConfigValue::Object(selector));
    assert(trees(outbounds@) =~= seq![tagged("block"@, "REJECT"@), tagged("direct"@, "DIRECT"@)]
        + singbox_outbounds(proxies@) + seq![sel_tree]);
    let mut inbound = new_object();
    push_entry(&mut inbound, "type", vstr("mixed"));
    push_entry(&mut inbound, "tag", vstr("mixed-in"));
    push_entry(&mut inbound, "listen", vstr("0.0.0.0"));
    push_entry(&mut inbound, "listen_port", vnumber(2080));
    assert(entry_trees(inbound@) =~= seq![
        ("type"@, Tree::Str("mixed"@)),
        ("tag"@, Tree::Str("mixed-in"@)),
        ("listen"@, Tree::Str("0.0.0.0"@)),
        ("listen_port"@, Tree::Number(decimal_text(2080))),
    ]);
    let ghost in_tree = tree(ConfigValue::Object(inbound));
    let mut inbounds = new_array();
    push_item(&mut inbounds, ConfigValue::Object(inbound));
    assert(trees(inbounds@) =~= seq![in_tree]);
    let mut dns_rule = new_object();
    push_entry(&mut dns_rule, "protocol", vstr("dns"));
    push_entry(&mut dns_rule, "action", vstr("hijack-dns"));
    assert(entry_trees(dns_rule@) =~= seq![
        ("protocol"@, Tree::Str("dns"@)),
        ("action"@, Tree::Str("hijack-dns"@)),
    ]);
    let ghost dns_tree = tree(ConfigValue::Object(dns_rule));
    let mut rules = new_array();
    push_item(&mut rules, ConfigValue::Object(dns_rule));
    push_item(&mut rules, object_of("outbound", vstr("Proxy")));
    push_item(&mut rules, object_of("outbound", vstr("REJECT")));
    assert(trees(rules@) =~= seq![
        dns_tree,
        Tree::Object(seq![("outbound"@, Tree::Str("Proxy"@))]),
        Tree::Object(seq![("outbound"@, Tree::Str("REJECT"@))]),
    ]);
    let ghost rules_tree = tree(ConfigValue::Array(rules));
    let mut route = new_object();
    push_entry(&mut route, "rules", ConfigValue::Array(rules));
    push_entry(&mut route, "final", vstr("Proxy"));
    assert(entry_trees(route@) =~= seq![("rules"@, rules_tree), ("final"@, Tree::Str("Proxy"@))]);
    let mut config = new_object();
    push_entry(&mut config, "log", object_of("level", vstr("info")));
    push_entry(&mut config, "inbounds", ConfigValue::Array(inbounds));
    push_entry(&mut config, "outbounds", ConfigValue::Array(outbounds));
    push_entry(&mut config, "route", ConfigValue::Object(route));
    assert(entry_trees(config@) =~= spec_simple_singbox(proxies@)->Object_0);
    ConfigValue::Object(config)
}

} // verus!
