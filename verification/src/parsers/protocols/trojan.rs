//! Trojan URIs: `trojan://password@server:port?params#name`.

use vstd::prelude::*;
use vstd::slice::slice_subrange;
use crate::parsers::uri::{
    decode_or_keep, lookup, name_of, opt_bool, opt_decode, opt_string, params_of, query_or_empty,
    query_pairs, spec_uri_parts, uri_parts, url_decode, ProxyParseError, UriPartsView,
};
use crate::utils::text::{chars_to_string, decimal_text, matches_at, starts_with, str_chars, str_eq};
use crate::utils::value::{
    entry_trees, new_object, opt_bool_tree, opt_str_tree, push_entry, push_opt, push_opt_bool,
    push_opt_str, single_str_array, tree, vnumber, vstr, vstring, ConfigValue, Tree,
};
use vstd::string::StringExecFns;

verus! {

broadcast use vstd::seq_lib::group_seq_properties;

/// A Trojan node.
#[derive(Debug, Clone)]
pub struct TrojanConfig {
    pub name: String,
    pub server: String,
    pub port: u16,
    pub password: String,
    pub network: Option<String>,
    pub path: Option<String>,
    pub host: Option<String>,
    pub sni: Option<String>,
    pub alpn: Option<String>,
    pub allow_insecure: Option<bool>,
    pub peer: Option<String>,
}

pub struct TrojanView {
    pub name: Seq<char>,
    pub server: Seq<char>,
    pub port: u16,
    pub password: Seq<char>,
    pub network: Option<Seq<char>>,
    pub path: Option<Seq<char>>,
    pub host: Option<Seq<char>>,
    pub sni: Option<Seq<char>>,
    pub alpn: Option<Seq<char>>,
    pub allow_insecure: Option<bool>,
    pub peer: Option<Seq<char>>,
}

impl View for TrojanConfig {
    type V = TrojanView;

    open spec fn view(&self) -> TrojanView {
        TrojanView {
            name: self.name@,
            server: self.server@,
            port: self.port,
            password: self.password@,
            network: opt_string(self.network),
            path: opt_string(self.path),
            host: opt_string(self.host),
            sni: opt_string(self.sni),
            alpn: opt_string(self.alpn),
            allow_insecure: self.allow_insecure,
            peer: opt_string(self.peer),
        }
    }
}

/// The node described by the parts of a Trojan URI (the port is not cut
/// at a `/`).
pub open spec fn trojan_from_parts(p: UriPartsView) -> TrojanView {
    let params = query_pairs(query_or_empty(p.query));
    TrojanView {
        name: match p.fragment {
            Some(f) => decode_or_keep(f),
            None => "Trojan"@,
        },
        server: p.server,
        port: p.port,
        password: decode_or_keep(p.user),
        network: lookup(params, "type"@),
        path: lookup(params, "path"@),
        host: lookup(params, "host"@),
        sni: opt_decode(lookup(params, "sni"@)),
        alpn: opt_decode(lookup(params, "alpn"@)),
        allow_insecure: opt_bool(lookup(params, "allowInsecure"@)),
        peer: opt_decode(lookup(params, "peer"@)),
    }
}

/// What a Trojan URI describes.
pub open spec fn spec_trojan(url: Seq<char>) -> Result<TrojanView, ProxyParseError> {
    if !starts_with(url, "trojan://"@) {
        Err(ProxyParseError::WrongScheme)
    } else {
        match spec_uri_parts(url.skip(9), false) {
            Err(e) => Err(e),
            Ok(p) => Ok(trojan_from_parts(p)),
        }
    }
}

impl TrojanConfig {
    /// Parses a `trojan://` URI.
    pub fn parse(url: &str) -> (res: Result<Self, ProxyParseError>)
        ensures
            match spec_trojan(url@) {
                Ok(v) => res matches Ok(c) && c@ == v,
                Err(e) => res matches Err(x) && x == e,
            },
    {
        let u = str_chars(url);
        let scheme = str_chars("trojan://");
        proof {
            reveal_strlit("trojan://");
        }
        assert(u@.skip(0) =~= u@);
        if !matches_at(u.as_slice(), 0, scheme.as_slice()) {
            return Err(ProxyParseError::WrongScheme);
        }
        let rest = slice_subrange(u.as_slice(), 9, u.len());
        assert(rest@ =~= url@.skip(9));
        let parts = match uri_parts(rest, false) {
            Ok(p) => p,
            Err(e) => return Err(e),
        };
        let params = params_of(&parts);
        Ok(
            TrojanConfig {
                name: name_of(&parts, "Trojan"),
                server: chars_to_string(parts.server.as_slice()),
                port: parts.port,
                password: url_decode(parts.user.as_slice()),
                network: params.get_raw("type"),
                path: params.get_raw("path"),
                host: params.get_raw("host"),
                sni: params.get_decoded("sni"),
                alpn: params.get_decoded("alpn"),
                allow_insecure: params.get_bool("allowInsecure"),
                peer: params.get_decoded("peer"),
            },
        )
    }
}

pub open spec fn or_else<T>(a: Option<T>, b: Option<T>) -> Option<T> {
    match a {
        Some(x) => Some(x),
        None => b,
    }
}

/// The transport of a Trojan node: `ws` with its path and Host header, or
/// `grpc` with its service name (peer, else path); none for other networks.
pub open spec fn trojan_transport(c: TrojanView) -> Option<Tree> {
    match c.network {
        Some(n) => if n == "ws"@ {
            Some(
                Tree::Object(
                    push_opt(
                        push_opt(seq![("type"@, Tree::Str("ws"@))], "path"@, opt_str_tree(c.path)),
                        "headers"@,
                        match c.host {
                            Some(h) => Some(Tree::Object(seq![("Host"@, Tree::Str(h))])),
                            None => None,
                        },
                    ),
                ),
            )
        } else if n == "grpc"@ {
            Some(
                Tree::Object(
                    push_opt(
                        seq![("type"@, Tree::Str("grpc"@))],
                        "service_name"@,
                        opt_str_tree(or_else(c.peer, c.path)),
                    ),
                ),
            )
        } else {
            None
        },
        None => None,
    }
}

/// The Sing-Box outbound of a Trojan node: type, tag, server, server_port,
/// password; its transport; `tls` (enabled) where sni, alpn or
/// allowInsecure is set.
pub open spec fn trojan_singbox(c: TrojanView) -> Tree {
    let base = seq![
        ("type"@, Tree::Str("trojan"@)),
        ("tag"@, Tree::Str(c.name)),
        ("server"@, Tree::Str(c.server)),
        ("server_port"@, Tree::Number(decimal_text(c.port as nat))),
        ("password"@, Tree::Str(c.password)),
    ];
    let with_transport = push_opt(base, "transport"@, trojan_transport(c));
    if c.sni is Some || c.alpn is Some || c.allow_insecure is Some {
        Tree::Object(
            with_transport.push(
                (
                    "tls"@,
                    Tree::Object(
                        push_opt(
                            push_opt(
                                push_opt(
                                    seq![("enabled"@, Tree::Bool(true))],
                                    "server_name"@,
                                    opt_str_tree(c.sni),
                                ),
                                "alpn"@,
                                match c.alpn {
                                    Some(a) => Some(Tree::Array(seq![Tree::Str(a)])),
                                    None => None,
                                },
                            ),
                            "insecure"@,
                            opt_bool_tree(c.allow_insecure),
                        ),
                    ),
                ),
            ),
        )
    } else {
        Tree::Object(with_transport)
    }
}

/// The network entries of the Clash proxy of a Trojan node.
pub open spec fn trojan_clash_network(s: Seq<(Seq<char>, Tree)>, c: TrojanView) -> Seq<
    (Seq<char>, Tree),
> {
    match c.network {
        Some(n) => {
            let with_network = s.push(("network"@, Tree::Str(n)));
            if n == "ws"@ {
                push_opt(
                    push_opt(with_network, "ws-path"@, opt_str_tree(c.path)),
                    "ws-headers"@,
                    match c.host {
                        Some(h) => Some(Tree::Str("Host:"@ + h)),
                        None => None,
                    },
                )
            } else if n == "grpc"@ {
                push_opt(with_network, "grpc-service-name"@, opt_str_tree(or_else(c.peer, c.path)))
            } else {
                with_network
            }
        },
        None => s,
    }
}

/// The Clash proxy of a Trojan node.
pub open spec fn trojan_clash(c: TrojanView) -> Tree {
    let base = seq![
        ("name"@, Tree::Str(c.name)),
        ("type"@, Tree::Str("trojan"@)),
        ("server"@, Tree::Str(c.server)),
        ("port"@, Tree::Number(decimal_text(c.port as nat))),
        ("password"@, Tree::Str(c.password)),
    ];
    Tree::Object(
        trojan_clash_network(
            push_opt(
                push_opt(push_opt(base, "sni"@, opt_str_tree(c.sni)), "alpn"@, opt_str_tree(c.alpn)),
                "skip-cert-verify"@,
                opt_bool_tree(c.allow_insecure),
            ),
            c,
        ),
    )
}

impl TrojanConfig {
    fn peer_or_path(&self) -> (res: Option<String>)
        ensures
            opt_string(res) == or_else(opt_string(self.peer), opt_string(self.path)),
    {
        match &self.peer {
            Some(p) => Some(p.clone()),
            None => match &self.path {
                Some(p) => Some(p.clone()),
                None => None,
            },
        }
    }

    fn transport(&self) -> (res: Option<ConfigValue>)
        ensures
            match trojan_transport(self@) {
                Some(t) => res matches Some(v) && tree(v) == t,
                None => res is None,
            },
    {
        let network = match &self.network {
            Some(n) => n,
            None => return None,
        };
        if str_eq(network.as_str(), "ws") {
            let mut t = new_object();
            push_entry(&mut t, "type", vstr("ws"));
            assert(entry_trees(t@) =~= seq![("type"@, Tree::Str("ws"@))]);
            push_opt_str(&mut t, "path", &self.path);
            match &self.host {
                Some(h) => {
                    let mut headers = new_object();
                    push_entry(&mut headers, "Host", vstring(h));
                    assert(entry_trees(headers@) =~= seq![("Host"@, Tree::Str(h@))]);
                    push_entry(&mut t, "headers", ConfigValue::Object(headers));
                },
                None => {},
            }
            Some(ConfigValue::Object(t))
        } else if str_eq(network.as_str(), "grpc") {
            let mut t = new_object();
            push_entry(&mut t, "type", vstr("grpc"));
            assert(entry_trees(t@) =~= seq![("type"@, Tree::Str("grpc"@))]);
            let service = self.peer_or_path();
            push_opt_str(&mut t, "service_name", &service);
            Some(ConfigValue::Object(t))
        } else {
            None
        }
    }

    /// The Sing-Box outbound of this node.
    pub fn to_singbox(&self) -> (res: ConfigValue)
        ensures
            tree(res) == trojan_singbox(self@),
    {
        let mut o = new_object();
        push_entry(&mut o, "type", vstr("trojan"));
        push_entry(&mut o, "tag", vstring(&self.name));
        push_entry(&mut o, "server", vstring(&self.server));
        push_entry(&mut o, "server_port", vnumber(self.port as u64));
        push_entry(&mut o, "password", vstring(&self.password));
        assert(entry_trees(o@) =~= seq![
            ("type"@, Tree::Str("trojan"@)),
            ("tag"@, Tree::Str(self@.name)),
            ("server"@, Tree::Str(self@.server)),
            ("server_port"@, Tree::Number(decimal_text(self.port as nat))),
            ("password"@, Tree::Str(self@.password)),
        ]);
        match self.transport() {
            Some(t) => push_entry(&mut o, "transport", t),
            None => {},
        }
        if self.sni.is_some() || self.alpn.is_some() || self.allow_insecure.is_some() {
            let mut tls = new_object();
            push_entry(&mut tls, "enabled", ConfigValue::Bool(true));
            assert(entry_trees(tls@) =~= seq![("enabled"@, Tree::Bool(true))]);
            push_opt_str(&mut tls, "server_name", &self.sni);
            match &self.alpn {
                Some(a) => push_entry(&mut tls, "alpn", single_str_array(a)),
                None => {},
            }
            push_opt_bool(&mut tls, "insecure", self.allow_insecure);
            push_entry(&mut o, "tls", ConfigValue::Object(tls));
        }
        ConfigValue::Object(o)
    }

    /// The Clash proxy of this node.
    pub fn to_clash(&self) -> (res: ConfigValue)
        ensures
            tree(res) == trojan_clash(self@),
    {
        let mut o = new_object();
        push_entry(&mut o, "name", vstring(&self.name));
        push_entry(&mut o, "type", vstr("trojan"));
        push_entry(&mut o, "server", vstring(&self.server));
        push_entry(&mut o, "port", vnumber(self.port as u64));
        push_entry(&mut o, "password", vstring(&self.password));
        assert(entry_trees(o@) =~= seq![
            ("name"@, Tree::Str(self@.name)),
            ("type"@, Tree::Str("trojan"@)),
            ("server"@, Tree::Str(self@.server)),
            ("port"@, Tree::Number(decimal_text(self.port as nat))),
            ("password"@, Tree::Str(self@.password)),
        ]);
        push_opt_str(&mut o, "sni", &self.sni);
        push_opt_str(&mut o, "alpn", &self.alpn);
        push_opt_bool(&mut o, "skip-cert-verify", self.allow_insecure);
        match &self.network {
            Some(n) => {
                push_entry(&mut o, "network", vstring(n));
                if str_eq(n.as_str(), "ws") {
                    push_opt_str(&mut o, "ws-path", &self.path);
                    match &self.host {
                        Some(h) => {
                            let header = String::from_str("Host:").concat(h.as_str());
                            push_entry(&mut o, "ws-headers", ConfigValue::Str(header));
                        },
                        None => {},
                    }
                } else if str_eq(n.as_str(), "grpc") {
                    let service = self.peer_or_path();
                    push_opt_str(&mut o, "grpc-service-name", &service);
                }
            },
            None => {},
        }
        ConfigValue::Object(o)
    }
}

} // verus!
