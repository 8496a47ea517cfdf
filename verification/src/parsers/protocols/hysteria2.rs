//! Hysteria2 URIs: `hysteria2://password@server:port?params#name`
//! (also `hy2://` and `hysteria://`).

use vstd::prelude::*;
use vstd::slice::slice_subrange;
use crate::parsers::uri::{
    decode_or_keep, lookup, name_of, opt_bool, opt_decode, opt_string, params_of, query_or_empty,
    query_pairs, spec_uri_parts, uri_parts, url_decode, ProxyParseError, UriPartsView,
};
use crate::utils::text::{chars_to_string, decimal_text, matches_at, starts_with, str_chars};
use crate::utils::value::{
    entry_trees, new_object, opt_bool_tree, opt_str_tree, push_entry, push_opt, push_opt_bool,
    push_opt_str, single_str_array, tree, vnumber, vstr, vstring, ConfigValue, Tree,
};

verus! {

broadcast use vstd::seq_lib::group_seq_properties;

/// A Hysteria2 node.
#[derive(Debug, Clone)]
pub struct Hysteria2Config {
    pub name: String,
    pub server: String,
    pub port: u16,
    pub password: String,
    pub obfs: Option<String>,
    pub obfs_password: Option<String>,
    pub sni: Option<String>,
    pub insecure: Option<bool>,
    pub alpn: Option<String>,
    pub server_ports: Option<String>,
}

pub struct Hysteria2View {
    pub name: Seq<char>,
    pub server: Seq<char>,
    pub port: u16,
    pub password: Seq<char>,
    pub obfs: Option<Seq<char>>,
    pub obfs_password: Option<Seq<char>>,
    pub sni: Option<Seq<char>>,
    pub insecure: Option<bool>,
    pub alpn: Option<Seq<char>>,
    pub server_ports: Option<Seq<char>>,
}

impl View for Hysteria2Config {
    type V = Hysteria2View;

    open spec fn view(&self) -> Hysteria2View {
        Hysteria2View {
            name: self.name@,
            server: self.server@,
            port: self.port,
            password: self.password@,
            obfs: opt_string(self.obfs),
            obfs_password: opt_string(self.obfs_password),
            sni: opt_string(self.sni),
            insecure: self.insecure,
            alpn: opt_string(self.alpn),
            server_ports: opt_string(self.server_ports),
        }
    }
}

/// Length of the scheme the URI starts with.
pub open spec fn hysteria2_scheme_len(url: Seq<char>) -> Option<int> {
    if starts_with(url, "hysteria2://"@) {
        Some(12)
    } else if starts_with(url, "hysteria://"@) {
        Some(11)
    } else if starts_with(url, "hy2://"@) {
        Some(6)
    } else {
        None
    }
}

/// A port range `60000-65530` written as `60000:65530`.
pub open spec fn dash_to_colon(s: Seq<char>) -> Seq<char> {
    s.map_values(|c: char| if c == '-' { ':' } else { c })
}

pub open spec fn opt_ports(o: Option<Seq<char>>) -> Option<Seq<char>> {
    match o {
        Some(s) => Some(dash_to_colon(s)),
        None => None,
    }
}

/// The node described by the parts of a Hysteria2 URI.
pub open spec fn hysteria2_from_parts(p: UriPartsView) -> Hysteria2View {
    let params = query_pairs(query_or_empty(p.query));
    Hysteria2View {
        name: match p.fragment {
            Some(f) => decode_or_keep(f),
            None => "Hysteria2"@,
        },
        server: p.server,
        port: p.port,
        password: decode_or_keep(p.user),
        obfs: opt_decode(lookup(params, "obfs"@)),
        obfs_password: opt_decode(lookup(params, "obfs-password"@)),
        sni: opt_decode(lookup(params, "sni"@)),
        insecure: opt_bool(lookup(params, "insecure"@)),
        alpn: opt_decode(lookup(params, "alpn"@)),
        server_ports: opt_ports(lookup(params, "mport"@)),
    }
}

/// What a Hysteria2 URI describes.
pub open spec fn spec_hysteria2(url: Seq<char>) -> Result<Hysteria2View, ProxyParseError> {
    match hysteria2_scheme_len(url) {
        None => Err(ProxyParseError::WrongScheme),
        Some(n) => match spec_uri_parts(url.skip(n), true) {
            Err(e) => Err(e),
            Ok(p) => Ok(hysteria2_from_parts(p)),
        },
    }
}

fn dash_to_colon_exec(s: &str) -> (res: String)
    ensures
        res@ == dash_to_colon(s@),
{
    let c = str_chars(s);
    let mut out: Vec<char> = Vec::new();
    let mut i: usize = 0;
    while i < c.len()
        invariant
            i <= c.len(),
            out@ == dash_to_colon(c@.take(i as int)),
        decreases c.len() - i,
    {
        if c[i] == '-' {
            out.push(':');
        } else {
            out.push(c[i]);
        }
        assert(dash_to_colon(c@.take(i + 1)) =~= dash_to_colon(c@.take(i as int)).push(
            if c@[i as int] == '-' {
                ':'
            } else {
                c@[i as int]
            },
        ));
        i = i + 1;
    }
    assert(c@.take(c.len() as int) =~= c@);
    chars_to_string(out.as_slice())
}

impl Hysteria2Config {
    /// Parses a `hysteria2://`, `hy2://` or `hysteria://` URI.
    pub fn parse(url: &str) -> (res: Result<Self, ProxyParseError>)
        ensures
            match spec_hysteria2(url@) {
                Ok(v) => res matches Ok(c) && c@ == v,
                Err(e) => res matches Err(x) && x == e,
            },
    {
        let u = str_chars(url);
        let s12 = str_chars("hysteria2://");
        let s11 = str_chars("hysteria://");
        let s6 = str_chars("hy2://");
        proof {
            reveal_strlit("hysteria2://");
            reveal_strlit("hysteria://");
            reveal_strlit("hy2://");
        }
        assert(u@.skip(0) =~= u@);
        let scheme_len: usize = if matches_at(u.as_slice(), 0, s12.as_slice()) {
            12
        } else if matches_at(u.as_slice(), 0, s11.as_slice()) {
            11
        } else if matches_at(u.as_slice(), 0, s6.as_slice()) {
            6
        } else {
            return Err(ProxyParseError::WrongScheme);
        };
        let rest = slice_subrange(u.as_slice(), scheme_len, u.len());
        assert(rest@ =~= url@.skip(scheme_len as int));
        let parts = match uri_parts(rest, true) {
            Ok(p) => p,
            Err(e) => return Err(e),
        };
        let params = params_of(&parts);
        let server_ports = match params.get_raw("mport") {
            Some(m) => Some(dash_to_colon_exec(m.as_str())),
            None => None,
        };
        Ok(
            Hysteria2Config {
                name: name_of(&parts, "Hysteria2"),
                server: chars_to_string(parts.server.as_slice()),
                port: parts.port,
                password: url_decode(parts.user.as_slice()),
                obfs: params.get_decoded("obfs"),
                obfs_password: params.get_decoded("obfs-password"),
                sni: params.get_decoded("sni"),
                insecure: params.get_bool("insecure"),
                alpn: params.get_decoded("alpn"),
                server_ports,
            },
        )
    }
}

/// The Sing-Box outbound of a Hysteria2 node: type, tag, server,
/// server_port, password; `obfs` where an obfuscation or its password is
/// set (type defaulting to `salamander`); `tls` (enabled) where sni,
/// insecure or alpn is set; `server_ports` where a port range is set.
pub open spec fn hysteria2_singbox(c: Hysteria2View) -> Tree {
    let base = seq![
        ("type"@, Tree::Str("hysteria2"@)),
        ("tag"@, Tree::Str(c.name)),
        ("server"@, Tree::Str(c.server)),
        ("server_port"@, Tree::Number(decimal_text(c.port as nat))),
        ("password"@, Tree::Str(c.password)),
    ];
    let with_obfs = if c.obfs is Some || c.obfs_password is Some {
        base.push(
            (
                "obfs"@,
                Tree::Object(
                    push_opt(
                        seq![
                            ("type"@, Tree::Str(
                                match c.obfs {
                                    Some(o) => o,
                                    None => "salamander"@,
                                },
                            )),
                        ],
                        "password"@,
                        opt_str_tree(c.obfs_password),
                    ),
                ),
            ),
        )
    } else {
        base
    };
    let with_tls = if c.sni is Some || c.insecure is Some || c.alpn is Some {
        with_obfs.push(
            (
                "tls"@,
                Tree::Object(
                    push_opt(
                        push_opt(
                            push_opt(
                                seq![("enabled"@, Tree::Bool(true))],
                                "server_name"@,
                                opt_str_tree(c.sni),
                            ),
                            "insecure"@,
                            opt_bool_tree(c.insecure),
                        ),
                        "alpn"@,
                        match c.alpn {
                            Some(a) => Some(Tree::Array(seq![Tree::Str(a)])),
                            None => None,
                        },
                    ),
                ),
            ),
        )
    } else {
        with_obfs
    };
    Tree::Object(
        push_opt(
            with_tls,
            "server_ports"@,
            match c.server_ports {
                Some(p) => Some(Tree::Array(seq![Tree::Str(p)])),
                None => None,
            },
        ),
    )
}

/// The Clash proxy of a Hysteria2 node.
pub open spec fn hysteria2_clash(c: Hysteria2View) -> Tree {
    let base = seq![
        ("name"@, Tree::Str(c.name)),
        ("type"@, Tree::Str("hysteria2"@)),
        ("server"@, Tree::Str(c.server)),
        ("port"@, Tree::Number(decimal_text(c.port as nat))),
        ("password"@, Tree::Str(c.password)),
    ];
    Tree::Object(
        push_opt(
            push_opt(
                push_opt(
                    push_opt(
                        push_opt(base, "obfs"@, opt_str_tree(c.obfs)),
                        "obfs-password"@,
                        opt_str_tree(c.obfs_password),
                    ),
                    "sni"@,
                    opt_str_tree(c.sni),
                ),
                "skip-cert-verify"@,
                opt_bool_tree(c.insecure),
            ),
            "alpn"@,
            opt_str_tree(c.alpn),
        ),
    )
}

impl Hysteria2Config {
    /// The Sing-Box outbound of this node.
    pub fn to_singbox(&self) -> (res: ConfigValue)
        ensures
            tree(res) == hysteria2_singbox(self@),
    {
        let mut o = new_object();
        push_entry(&mut o, "type", vstr("hysteria2"));
        push_entry(&mut o, "tag", vstring(&self.name));
        push_entry(&mut o, "server", vstring(&self.server));
        push_entry(&mut o, "server_port", vnumber(self.port as u64));
        push_entry(&mut o, "password", vstring(&self.password));
        assert(entry_trees(o@) =~= seq![
            ("type"@, Tree::Str("hysteria2"@)),
            ("tag"@, Tree::Str(self@.name)),
            ("server"@, Tree::Str(self@.server)),
            ("server_port"@, Tree::Number(decimal_text(self.port as nat))),
            ("password"@, Tree::Str(self@.password)),
        ]);
        if self.obfs.is_some() || self.obfs_password.is_some() {
            let mut obfs = new_object();
            match &self.obfs {
                Some(t) => push_entry(&mut obfs, "type", vstring(t)),
                None => push_entry(&mut obfs, "type", vstr("salamander")),
            }
            push_opt_str(&mut obfs, "password", &self.obfs_password);
            push_entry(&mut o, "obfs", ConfigValue::Object(obfs));
        }
        if self.sni.is_some() || self.insecure.is_some() || self.alpn.is_some() {
            let mut tls = new_object();
            push_entry(&mut tls, "enabled", ConfigValue::Bool(true));
            push_opt_str(&mut tls, "server_name", &self.sni);
            push_opt_bool(&mut tls, "insecure", self.insecure);
            match &self.alpn {
                Some(a) => push_entry(&mut tls, "alpn", single_str_array(a)),
                None => {},
            }
            push_entry(&mut o, "tls", ConfigValue::Object(tls));
        }
        match &self.server_ports {
            Some(p) => push_entry(&mut o, "server_ports", single_str_array(p)),
            None => {},
        }
        ConfigValue::Object(o)
    }

    /// The Clash proxy of this node.
    pub fn to_clash(&self) -> (res: ConfigValue)
        ensures
            tree(res) == hysteria2_clash(self@),
    {
        let mut o = new_object();
        push_entry(&mut o, "name", vstring(&self.name));
        push_entry(&mut o, "type", vstr("hysteria2"));
        push_entry(&mut o, "server", vstring(&self.server));
        push_entry(&mut o, "port", vnumber(self.port as u64));
        push_entry(&mut o, "password", vstring(&self.password));
        assert(entry_trees(o@) =~= seq![
            ("name"@, Tree::Str(self@.name)),
            ("type"@, Tree::Str("hysteria2"@)),
            ("server"@, Tree::Str(self@.server)),
            ("port"@, Tree::Number(decimal_text(self.port as nat))),
            ("password"@, Tree::Str(self@.password)),
        ]);
        push_opt_str(&mut o, "obfs", &self.obfs);
        push_opt_str(&mut o, "obfs-password", &self.obfs_password);
        push_opt_str(&mut o, "sni", &self.sni);
        push_opt_bool(&mut o, "skip-cert-verify", self.insecure);
        push_opt_str(&mut o, "alpn", &self.alpn);
        ConfigValue::Object(o)
    }
}

} // verus!
