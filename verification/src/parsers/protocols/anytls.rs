//! AnyTLS URIs: `anytls://uuid@server:port/?params#name`.

use vstd::prelude::*;
use vstd::slice::slice_subrange;
use crate::parsers::uri::{
    decode_or_keep, lookup, name_of, opt_bool, opt_decode, opt_string, params_of, query_or_empty,
    query_pairs, spec_uri_parts, uri_parts, ProxyParseError, UriPartsView,
};
use crate::utils::text::{
    chars_to_string, decimal_text, find_char, has_char, matches_at, split, split_chars, starts_with,
    str_chars,
};
use crate::utils::value::{
    entry_trees, new_array, new_object, opt_bool_tree, opt_str_tree, push_entry, push_item, push_opt,
    push_opt_bool, push_opt_str, single_str_array, str_array, str_trees, tree, trees, vnumber, vstr,
    vstring, ConfigValue, Tree,
};

verus! {

broadcast use vstd::seq_lib::group_seq_properties;

/// An AnyTLS node.
#[derive(Debug, Clone)]
pub struct AnyTLSConfig {
    pub name: String,
    pub server: String,
    pub port: u16,
    pub uuid: String,
    pub security: Option<String>,
    pub sni: Option<String>,
    pub fp: Option<String>,
    pub insecure: Option<bool>,
    pub allow_insecure: Option<bool>,
    pub alpn: Option<String>,
}

pub struct AnyTLSView {
    pub name: Seq<char>,
    pub server: Seq<char>,
    pub port: u16,
    pub uuid: Seq<char>,
    pub security: Option<Seq<char>>,
    pub sni: Option<Seq<char>>,
    pub fp: Option<Seq<char>>,
    pub insecure: Option<bool>,
    pub allow_insecure: Option<bool>,
    pub alpn: Option<Seq<char>>,
}

impl View for AnyTLSConfig {
    type V = AnyTLSView;

    open spec fn view(&self) -> AnyTLSView {
        AnyTLSView {
            name: self.name@,
            server: self.server@,
            port: self.port,
            uuid: self.uuid@,
            security: opt_string(self.security),
            sni: opt_string(self.sni),
            fp: opt_string(self.fp),
            insecure: self.insecure,
            allow_insecure: self.allow_insecure,
            alpn: opt_string(self.alpn),
        }
    }
}

/// The first of two optional values that is present.
pub open spec fn or_else<T>(a: Option<T>, b: Option<T>) -> Option<T> {
    match a {
        Some(x) => Some(x),
        None => b,
    }
}

/// The node described by the parts of an AnyTLS URI.
pub open spec fn anytls_from_parts(p: UriPartsView) -> AnyTLSView {
    let params = query_pairs(query_or_empty(p.query));
    AnyTLSView {
        name: match p.fragment {
            Some(f) => decode_or_keep(f),
            None => "AnyTLS"@,
        },
        server: p.server,
        port: p.port,
        uuid: p.user,
        security: opt_decode(lookup(params, "security"@)),
        sni: opt_decode(lookup(params, "sni"@)),
        fp: opt_decode(lookup(params, "fp"@)),
        insecure: opt_bool(lookup(params, "insecure"@)),
        allow_insecure: or_else(
            opt_bool(lookup(params, "allowInsecure"@)),
            opt_bool(lookup(params, "insecure"@)),
        ),
        alpn: opt_decode(lookup(params, "alpn"@)),
    }
}

/// What an AnyTLS URI describes.
pub open spec fn spec_anytls(url: Seq<char>) -> Result<AnyTLSView, ProxyParseError> {
    if !starts_with(url, "anytls://"@) {
        Err(ProxyParseError::WrongScheme)
    } else {
        match spec_uri_parts(url.skip(9), true) {
            Err(e) => Err(e),
            Ok(p) => Ok(anytls_from_parts(p)),
        }
    }
}

impl AnyTLSConfig {
    /// Parses an `anytls://` URI.
    pub fn parse(url: &str) -> (res: Result<Self, ProxyParseError>)
        ensures
            match spec_anytls(url@) {
                Ok(v) => res matches Ok(c) && c@ == v,
                Err(e) => res matches Err(x) && x == e,
            },
    {
        let u = str_chars(url);
        let scheme = str_chars("anytls://");
        proof {
            reveal_strlit("anytls://");
        }
        assert(u@.skip(0) =~= u@);
        if !matches_at(u.as_slice(), 0, scheme.as_slice()) {
            return Err(ProxyParseError::WrongScheme);
        }
        let rest = slice_subrange(u.as_slice(), 9, u.len());
        assert(rest@ =~= url@.skip(9));
        let parts = match uri_parts(rest, true) {
            Ok(p) => p,
            Err(e) => return Err(e),
        };
        let params = params_of(&parts);
        let insecure = params.get_bool("insecure");
        let allow_insecure = match params.get_bool("allowInsecure") {
            Some(b) => Some(b),
            None => insecure,
        };
        Ok(
            AnyTLSConfig {
                name: name_of(&parts, "AnyTLS"),
                server: chars_to_string(parts.server.as_slice()),
                port: parts.port,
                uuid: chars_to_string(parts.user.as_slice()),
                security: params.get_decoded("security"),
                sni: params.get_decoded("sni"),
                fp: params.get_decoded("fp"),
                insecure,
                allow_insecure,
                alpn: params.get_decoded("alpn"),
            },
        )
    }
}

/// The ALPN list of an AnyTLS node: the comma-separated pieces, the single
/// value, or `h2`, `http/1.1` where none is set.
pub open spec fn anytls_alpn(a: Option<Seq<char>>) -> Tree {
    match a {
        Some(a) => if find_char(a, ',') is Some {
            Tree::Array(str_trees(split(a, ',')))
        } else {
            Tree::Array(seq![Tree::Str(a)])
        },
        None => Tree::Array(seq![Tree::Str("h2"@), Tree::Str("http/1.1"@)]),
    }
}

/// The Sing-Box outbound of an AnyTLS node: type, tag, server, server_port,
/// password (the uuid) and an enabled `tls` with server_name, insecure (the
/// insecure flag, else allowInsecure), utls where a fingerprint is set, and
/// the ALPN list.
pub open spec fn anytls_singbox(c: AnyTLSView) -> Tree {
    let tls = push_opt(
        push_opt(
            push_opt(seq![("enabled"@, Tree::Bool(true))], "server_name"@, opt_str_tree(c.sni)),
            "insecure"@,
            opt_bool_tree(or_else(c.insecure, c.allow_insecure)),
        ),
        "utls"@,
        match c.fp {
            Some(fp) => Some(
                Tree::Object(seq![("enabled"@, Tree::Bool(true)), ("fingerprint"@, Tree::Str(fp))]),
            ),
            None => None,
        },
    ).push(("alpn"@, anytls_alpn(c.alpn)));
    Tree::Object(
        seq![
            ("type"@, Tree::Str("anytls"@)),
            ("tag"@, Tree::Str(c.name)),
            ("server"@, Tree::Str(c.server)),
            ("server_port"@, Tree::Number(decimal_text(c.port as nat))),
            ("password"@, Tree::Str(c.uuid)),
            ("tls"@, Tree::Object(tls)),
        ],
    )
}

/// The Clash proxy of an AnyTLS node.
pub open spec fn anytls_clash(c: AnyTLSView) -> Tree {
    let base = seq![
        ("name"@, Tree::Str(c.name)),
        ("type"@, Tree::Str("anytls"@)),
        ("server"@, Tree::Str(c.server)),
        ("port"@, Tree::Number(decimal_text(c.port as nat))),
        ("uuid"@, Tree::Str(c.uuid)),
        ("password"@, Tree::Str(c.uuid)),
    ];
    Tree::Object(
        push_opt(
            push_opt(
                push_opt(
                    push_opt(base, "sni"@, opt_str_tree(c.sni)),
                    "client-fingerprint"@,
                    opt_str_tree(c.fp),
                ),
                "skip-cert-verify"@,
                opt_bool_tree(or_else(c.insecure, c.allow_insecure)),
            ),
            "alpn"@,
            opt_str_tree(c.alpn),
        ),
    )
}

impl AnyTLSConfig {
    fn insecure_or_allow(&self) -> (res: Option<bool>)
        ensures
            res == or_else(self.insecure, self.allow_insecure),
    {
        match self.insecure {
            Some(b) => Some(b),
            None => self.allow_insecure,
        }
    }

    /// The Sing-Box outbound of this node.
    pub fn to_singbox(&self) -> (res: ConfigValue)
        ensures
            tree(res) == anytls_singbox(self@),
    {
        let mut tls = new_object();
        push_entry(&mut tls, "enabled", ConfigValue::Bool(true));
        assert(entry_trees(tls@) =~= seq![("enabled"@, Tree::Bool(true))]);
        push_opt_str(&mut tls, "server_name", &self.sni);
        push_opt_bool(&mut tls, "insecure", self.insecure_or_allow());
        match &self.fp {
            Some(fp) => {
                let mut utls = new_object();
                push_entry(&mut utls, "enabled", ConfigValue::Bool(true));
                push_entry(&mut utls, "fingerprint", vstring(fp));
                assert(entry_trees(utls@) =~= seq![
                    ("enabled"@, Tree::Bool(true)),
                    ("fingerprint"@, Tree::Str(fp@)),
                ]);
                push_entry(&mut tls, "utls", ConfigValue::Object(utls));
            },
            None => {},
        }
        let alpn = match &self.alpn {
            Some(a) => {
                let chars = str_chars(a.as_str());
                if has_char(chars.as_slice(), ',') {
                    let pieces = split_chars(chars.as_slice(), ',');
                    str_array(&pieces)
                } else {
                    single_str_array(a)
                }
            },
            None => {
                let mut arr = new_array();
                push_item(&mut arr, vstr("h2"));
                push_item(&mut arr, vstr("http/1.1"));
                assert(trees(arr@) =~= seq![Tree::Str("h2"@), Tree::Str("http/1.1"@)]);
                ConfigValue::Array(arr)
            },
        };
        push_entry(&mut tls, "alpn", alpn);
        let mut o = new_object();
        push_entry(&mut o, "type", vstr("anytls"));
        push_entry(&mut o, "tag", vstring(&self.name));
        push_entry(&mut o, "server", vstring(&self.server));
        push_entry(&mut o, "server_port", vnumber(self.port as u64));
        push_entry(&mut o, "password", vstring(&self.uuid));
        push_entry(&mut o, "tls", ConfigValue::Object(tls));
        assert(entry_trees(o@) =~= anytls_singbox(self@)->Object_0);
        ConfigValue::Object(o)
    }

    /// The Clash proxy of this node.
    pub fn to_clash(&self) -> (res: ConfigValue)
        ensures
            tree(res) == anytls_clash(self@),
    {
        let mut o = new_object();
        push_entry(&mut o, "name", vstring(&self.name));
        push_entry(&mut o, "type", vstr("anytls"));
        push_entry(&mut o, "server", vstring(&self.server));
        push_entry(&mut o, "port", vnumber(self.port as u64));
        push_entry(&mut o, "uuid", vstring(&self.uuid));
        push_entry(&mut o, "password", vstring(&self.uuid));
        assert(entry_trees(o@) =~= seq![
            ("name"@, Tree::Str(self@.name)),
            ("type"@, Tree::Str("anytls"@)),
            ("server"@, Tree::Str(self@.server)),
            ("port"@, Tree::Number(decimal_text(self.port as nat))),
            ("uuid"@, Tree::Str(self@.uuid)),
            ("password"@, Tree::Str(self@.uuid)),
        ]);
        push_opt_str(&mut o, "sni", &self.sni);
        push_opt_str(&mut o, "client-fingerprint", &self.fp);
        push_opt_bool(&mut o, "skip-cert-verify", self.insecure_or_allow());
        push_opt_str(&mut o, "alpn", &self.alpn);
        ConfigValue::Object(o)
    }
}

} // verus!
