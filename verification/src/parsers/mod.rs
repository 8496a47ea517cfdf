//! Proxy URI parsers and the node type they produce.

pub mod laws;
pub mod protocols;
pub mod uri;

use vstd::prelude::*;
use crate::parsers::protocols::anytls::{
    anytls_clash, anytls_singbox, spec_anytls, AnyTLSConfig, AnyTLSView,
};
use crate::parsers::protocols::hysteria2::{
    hysteria2_clash, hysteria2_scheme_len, hysteria2_singbox, spec_hysteria2, Hysteria2Config,
    Hysteria2View,
};
use crate::parsers::protocols::trojan::{
    spec_trojan, trojan_clash, trojan_singbox, TrojanConfig, TrojanView,
};
use crate::utils::value::{tree, ConfigValue, Tree};
use crate::parsers::uri::ProxyParseError;
use crate::utils::text::{matches_at, starts_with, str_chars};

verus! {

/// A proxy node of one of the supported protocols.
#[derive(Debug, Clone)]
pub enum ProxyConfig {
    Trojan(TrojanConfig),
    Hysteria2(Hysteria2Config),
    AnyTLS(AnyTLSConfig),
}

pub enum ProxyView {
    Trojan(TrojanView),
    Hysteria2(Hysteria2View),
    AnyTLS(AnyTLSView),
}

impl View for ProxyConfig {
    type V = ProxyView;

    open spec fn view(&self) -> ProxyView {
        match self {
            ProxyConfig::Trojan(c) => ProxyView::Trojan(c@),
            ProxyConfig::Hysteria2(c) => ProxyView::Hysteria2(c@),
            ProxyConfig::AnyTLS(c) => ProxyView::AnyTLS(c@),
        }
    }
}

impl ProxyView {
    pub open spec fn name(self) -> Seq<char> {
        match self {
            ProxyView::Trojan(c) => c.name,
            ProxyView::Hysteria2(c) => c.name,
            ProxyView::AnyTLS(c) => c.name,
        }
    }
}

impl ProxyConfig {
    /// The node's name.
    pub fn name(&self) -> (res: &str)
        ensures
            res@ == self@.name(),
    {
        match self {
            ProxyConfig::Trojan(c) => c.name.as_str(),
            ProxyConfig::Hysteria2(c) => c.name.as_str(),
            ProxyConfig::AnyTLS(c) => c.name.as_str(),
        }
    }
}

/// The node a URI describes, by its scheme.
pub open spec fn spec_parse_proxy(url: Seq<char>) -> Result<ProxyView, ProxyParseError> {
    if hysteria2_scheme_len(url) is Some {
        match spec_hysteria2(url) {
            Ok(v) => Ok(ProxyView::Hysteria2(v)),
            Err(e) => Err(e),
        }
    } else if starts_with(url, "anytls://"@) {
        match spec_anytls(url) {
            Ok(v) => Ok(ProxyView::AnyTLS(v)),
            Err(e) => Err(e),
        }
    } else if starts_with(url, "trojan://"@) {
        match spec_trojan(url) {
            Ok(v) => Ok(ProxyView::Trojan(v)),
            Err(e) => Err(e),
        }
    } else {
        Err(ProxyParseError::UnsupportedScheme)
    }
}

/// Parses proxy URIs of any supported protocol.
pub struct ProxyParser;

impl ProxyParser {
    /// Parses one proxy URI.
    pub fn parse(url: &str) -> (res: Result<ProxyConfig, ProxyParseError>)
        ensures
            match spec_parse_proxy(url@) {
                Ok(v) => res matches Ok(c) && c@ == v,
                Err(e) => res matches Err(x) && x == e,
            },
    {
        let u = str_chars(url);
        let s12 = str_chars("hysteria2://");
        let s11 = str_chars("hysteria://");
        let s6 = str_chars("hy2://");
        let anytls = str_chars("anytls://");
        let trojan = str_chars("trojan://");
        assert(u@.skip(0) =~= u@);
        if matches_at(u.as_slice(), 0, s12.as_slice()) || matches_at(u.as_slice(), 0, s11.as_slice())
            || matches_at(u.as_slice(), 0, s6.as_slice()) {
            return match Hysteria2Config::parse(url) {
                Ok(c) => Ok(ProxyConfig::Hysteria2(c)),
                Err(e) => Err(e),
            };
        }
        if matches_at(u.as_slice(), 0, anytls.as_slice()) {
            return match AnyTLSConfig::parse(url) {
                Ok(c) => Ok(ProxyConfig::AnyTLS(c)),
                Err(e) => Err(e),
            };
        }
        if matches_at(u.as_slice(), 0, trojan.as_slice()) {
            return match TrojanConfig::parse(url) {
                Ok(c) => Ok(ProxyConfig::Trojan(c)),
                Err(e) => Err(e),
            };
        }
        Err(ProxyParseError::UnsupportedScheme)
    }
}

/// The Sing-Box outbound of a node.
pub open spec fn proxy_singbox(p: ProxyView) -> Tree {
    match p {
        ProxyView::Trojan(c) => trojan_singbox(c),
        ProxyView::Hysteria2(c) => hysteria2_singbox(c),
        ProxyView::AnyTLS(c) => anytls_singbox(c),
    }
}

/// The Clash proxy of a node.
pub open spec fn proxy_clash(p: ProxyView) -> Tree {
    match p {
        ProxyView::Trojan(c) => trojan_clash(c),
        ProxyView::Hysteria2(c) => hysteria2_clash(c),
        ProxyView::AnyTLS(c) => anytls_clash(c),
    }
}

impl ProxyConfig {
    /// The Sing-Box outbound of this node.
    pub fn to_singbox(&self) -> (res: ConfigValue)
        ensures
            tree(res) == proxy_singbox(self@),
    {
        match self {
            ProxyConfig::Trojan(c) => c.to_singbox(),
            ProxyConfig::Hysteria2(c) => c.to_singbox(),
            ProxyConfig::AnyTLS(c) => c.to_singbox(),
        }
    }

    /// The Clash proxy of this node.
    pub fn to_clash(&self) -> (res: ConfigValue)
        ensures
            tree(res) == proxy_clash(self@),
    {
        match self {
            ProxyConfig::Trojan(c) => c.to_clash(),
            ProxyConfig::Hysteria2(c) => c.to_clash(),
            ProxyConfig::AnyTLS(c) => c.to_clash(),
        }
    }
}

} // verus!
