//! What the URI parsers take from a URI, and what the node outputs carry.

use vstd::prelude::*;
use crate::parsers::protocols::anytls::{anytls_singbox, or_else, spec_anytls, AnyTLSView};
use crate::parsers::protocols::hysteria2::{
    hysteria2_scheme_len, hysteria2_singbox, spec_hysteria2, Hysteria2View,
};
use crate::parsers::protocols::trojan::{spec_trojan, trojan_clash, trojan_singbox, TrojanView};
use crate::parsers::uri::{cut_first, decode_or_keep, lookup, query_pairs, spec_uri_parts};
use crate::utils::text::{find_char, lemma_find_char, lemma_split_free};
use crate::utils::value::{field_of, key_index, lemma_key_index_prefix, push_opt, Tree};

verus! {

broadcast use vstd::seq_lib::group_seq_properties;

// ---------------------------------------------------------------------
// Cutting a text
// ---------------------------------------------------------------------

/// In `u + t`, where `u` has no `c`, the first `c` is the first of `t`,
/// moved along by `u`.
proof fn lemma_find_char_shift(u: Seq<char>, t: Seq<char>, c: char)
    requires
        forall|j: int| 0 <= j < u.len() ==> u[j] != c,
    ensures
        find_char(u + t, c) == match find_char(t, c) {
            Some(i) => Some(i + u.len()),
            None => None::<int>,
        },
    decreases u.len(),
{
    if u.len() > 0 {
        assert((u + t)[0] == u[0]);
        assert((u + t).drop_first() =~= u.drop_first() + t);
        assert forall|j: int| 0 <= j < u.drop_first().len() implies u.drop_first()[j] != c by {
            assert(u.drop_first()[j] == u[j + 1]);
        }
        lemma_find_char_shift(u.drop_first(), t, c);
    } else {
        assert(u + t =~= t);
    }
}

/// Cutting `u + t` at `c`, where `u` has no `c`, cuts `t`.
proof fn lemma_cut_prefix(u: Seq<char>, t: Seq<char>, c: char)
    requires
        forall|j: int| 0 <= j < u.len() ==> u[j] != c,
    ensures
        cut_first(u + t, c).0 == u + cut_first(t, c).0,
        cut_first(u + t, c).1 == cut_first(t, c).1,
{
    lemma_find_char_shift(u, t, c);
    match find_char(t, c) {
        Some(i) => {
            lemma_find_char(t, c);
            assert((u + t).take(i + u.len()) =~= u + t.take(i));
            assert((u + t).skip(i + u.len() + 1) =~= t.skip(i + 1));
        },
        None => {},
    }
}

/// Cutting `x + c + y` at `c`, where `x` has no `c`, gives `x` and `y`.
proof fn lemma_cut_at(x: Seq<char>, y: Seq<char>, c: char)
    requires
        forall|j: int| 0 <= j < x.len() ==> x[j] != c,
    ensures
        cut_first(x + seq![c] + y, c) == (x, Some(y)),
{
    assert(x + seq![c] + y =~= x + (seq![c] + y));
    lemma_cut_prefix(x, seq![c] + y, c);
    assert((seq![c] + y)[0] == c);
    assert((seq![c] + y).take(0) =~= Seq::<char>::empty());
    assert((seq![c] + y).skip(1) =~= y);
    assert(x + Seq::<char>::empty() =~= x);
}

/// A text without `c` is not cut.
proof fn lemma_cut_none(s: Seq<char>, c: char)
    requires
        forall|j: int| 0 <= j < s.len() ==> s[j] != c,
    ensures
        cut_first(s, c) == (s, None::<Seq<char>>),
{
    lemma_find_char(s, c);
}

// ---------------------------------------------------------------------
// Trojan
// ---------------------------------------------------------------------

/// The password of a Trojan URI is the percent-decoding of the text
/// between the scheme and the first `@` (kept as it is where it does not
/// decode), whatever follows the `@`.
pub proof fn law_trojan_password(u: Seq<char>, rest: Seq<char>)
    requires
        forall|j: int| 0 <= j < u.len() ==> u[j] != '@' && u[j] != '#' && u[j] != '?',
        spec_trojan("trojan://"@ + u + "@"@ + rest) is Ok,
    ensures
        spec_trojan("trojan://"@ + u + "@"@ + rest)->Ok_0.password == decode_or_keep(u),
{
    lemma_schemes();
    reveal_strlit("@");
    assert(("trojan://"@ + u + "@"@ + rest).skip(9) =~= u + seq!['@'] + rest);
    lemma_user_part(u, rest, false);
}

/// The Sing-Box outbound of a Trojan node that says whether to skip
/// certificate checks carries that choice as the `insecure` entry of its
/// `tls` object.
pub proof fn law_trojan_singbox_insecure(c: TrojanView, b: bool)
    requires
        c.allow_insecure == Some(b),
    ensures
        field_of(trojan_singbox(c), "tls"@) matches Some(Tree::Object(ts)) && ts.contains(
            ("insecure"@, Tree::Bool(b)),
        ),
{
    let es = trojan_singbox(c)->Object_0;
    let init = es.drop_last();
    reveal_strlit("tls");
    reveal_strlit("type");
    reveal_strlit("tag");
    reveal_strlit("server");
    reveal_strlit("server_port");
    reveal_strlit("password");
    reveal_strlit("transport");
    assert("tag"@[1] != "tls"@[1]);
    assert("type"@.len() != "tls"@.len() && "server"@.len() != "tls"@.len()
        && "server_port"@.len() != "tls"@.len() && "password"@.len() != "tls"@.len()
        && "transport"@.len() != "tls"@.len());
    assert forall|i: int| 0 <= i < init.len() implies #[trigger] init[i].0 != "tls"@ by {
        assert(init[i].0 == "type"@ || init[i].0 == "tag"@ || init[i].0 == "server"@ || init[i].0
            == "server_port"@ || init[i].0 == "password"@ || init[i].0 == "transport"@);
        if init[i].0 == "tag"@ {
            assert(init[i].0[1] != "tls"@[1]);
        }
    }
    lemma_no_key(init, "tls"@);
    assert(es.last().0 == "tls"@);
    let ts = es.last().1->Object_0;
    assert(ts.last() == ("insecure"@, Tree::Bool(b)));
    assert(ts[ts.len() - 1] == ts.last());
}

proof fn lemma_no_key(es: Seq<(Seq<char>, Tree)>, k: Seq<char>)
    requires
        forall|i: int| 0 <= i < es.len() ==> #[trigger] es[i].0 != k,
    ensures
        key_index(es, k) is None,
    decreases es.len(),
{
    if es.len() > 0 {
        assert forall|i: int| 0 <= i < es.drop_last().len() implies #[trigger] es.drop_last()[i].0 != k by {
            assert(es[i].0 != k);
        }
        lemma_no_key(es.drop_last(), k);
        assert(es[es.len() - 1].0 != k);
    }
}

// ---------------------------------------------------------------------
// Hysteria2
// ---------------------------------------------------------------------

/// The query `mport=m` holds the one pair `mport` = `m`.
proof fn lemma_mport_query(m: Seq<char>)
    requires
        forall|j: int| 0 <= j < m.len() ==> m[j] != '&',
    ensures
        lookup(query_pairs("mport="@ + m), "mport"@) == Some(m),
{
    reveal_strlit("mport");
    reveal_strlit("mport=");
    let q = "mport="@ + m;
    assert forall|j: int| 0 <= j < q.len() implies q[j] != '&' by {
        if j >= 6 {
            assert(q[j] == m[j - 6]);
        }
    }
    lemma_split_free(q, '&');
    lemma_find_char(q, '=');
    assert(q[5] == '=');
    assert(find_char(q, '=') == Some(5int));
    assert(q.take(5) =~= "mport"@);
    assert(q.skip(6) =~= m);
    reveal_with_fuel(Seq::filter, 2);
    let pairs = query_pairs(q);
    assert(pairs =~= seq![("mport"@, m)]);
}

/// `hy2://x?q`, where `x` has no `#` or `?` and `q` no `#`: the scheme is
/// six chars, and the rest is cut into `x` and the query `q`.
proof fn lemma_hy2_cuts(x: Seq<char>, q: Seq<char>)
    requires
        forall|j: int| 0 <= j < x.len() ==> x[j] != '#' && x[j] != '?',
        forall|j: int| 0 <= j < q.len() ==> q[j] != '#',
    ensures
        hysteria2_scheme_len("hy2://"@ + x + seq!['?'] + q) == Some(6int),
        ("hy2://"@ + x + seq!['?'] + q).skip(6) == x + seq!['?'] + q,
        cut_first(x + seq!['?'] + q, '#') == (x + seq!['?'] + q, None::<Seq<char>>),
        cut_first(x + seq!['?'] + q, '?') == (x, Some(q)),
{
    let r = x + seq!['?'] + q;
    assert("hy2://"@ + x + seq!['?'] + q =~= "hy2://"@ + r);
    lemma_hy2_scheme(r);
    assert forall|j: int| 0 <= j < r.len() implies r[j] != '#' by {
        if j < x.len() {
            assert(r[j] == x[j]);
        } else if j > x.len() {
            assert(r[j] == q[j - x.len() - 1]);
        }
    }
    lemma_cut_none(r, '#');
    lemma_cut_at(x, q, '?');
}

/// The server ports of a Hysteria2 URI are its `mport` value with each
/// `-` written as `:` (the Sing-Box range form), so no `-` is left.
pub proof fn law_hysteria2_server_ports(x: Seq<char>, m: Seq<char>)
    requires
        forall|j: int| 0 <= j < x.len() ==> x[j] != '#' && x[j] != '?',
        forall|j: int| 0 <= j < m.len() ==> m[j] != '#' && m[j] != '&',
        spec_hysteria2("hy2://"@ + x + "?mport="@ + m) is Ok,
    ensures
        spec_hysteria2("hy2://"@ + x + "?mport="@ + m)->Ok_0.server_ports matches Some(sp)
            && sp.len() == m.len()
            && (forall|i: int| 0 <= i < m.len() ==> sp[i] == if m[i] == '-' { ':' } else { m[i] })
            && (forall|i: int| 0 <= i < sp.len() ==> sp[i] != '-'),
{
    reveal_strlit("?mport=");
    reveal_strlit("mport=");
    let q = "mport="@ + m;
    assert("hy2://"@ + x + "?mport="@ + m =~= "hy2://"@ + x + seq!['?'] + q);
    assert forall|j: int| 0 <= j < q.len() implies q[j] != '#' by {
        if j >= 6 {
            assert(q[j] == m[j - 6]);
        }
    }
    lemma_hy2_cuts(x, q);
    lemma_mport_query(m);
}

// ---------------------------------------------------------------------
// The user part and the name of any URI
// ---------------------------------------------------------------------

/// In `u@rest`, where `u` has no `@`, `#` or `?`, the user part is `u`.
proof fn lemma_user_part(u: Seq<char>, rest: Seq<char>, cut_path: bool)
    requires
        forall|j: int| 0 <= j < u.len() ==> u[j] != '@' && u[j] != '#' && u[j] != '?',
    ensures
        spec_uri_parts(u + seq!['@'] + rest, cut_path) matches Ok(p) ==> p.user == u,
{
    let at_rest = seq!['@'] + rest;
    assert(u + seq!['@'] + rest =~= u + at_rest);
    lemma_cut_prefix(u, at_rest, '#');
    lemma_cut_prefix(seq!['@'], rest, '#');
    let main_tail = seq!['@'] + cut_first(rest, '#').0;
    lemma_cut_prefix(u, main_tail, '?');
    lemma_cut_prefix(seq!['@'], cut_first(rest, '#').0, '?');
    let tail = seq!['@'] + cut_first(cut_first(rest, '#').0, '?').0;
    let user_host = u + tail;
    assert(cut_first(cut_first(u + at_rest, '#').0, '?').0 == user_host);
    lemma_find_char_shift(u, tail, '@');
    assert(tail[0] == '@');
    assert(find_char(user_host, '@') == Some(u.len() as int));
    assert(user_host.take(u.len() as int) =~= u);
}

/// In `x#f`, where `x` has no `#`, the name part is `f`; a text without
/// `#` has none.
proof fn lemma_fragment_part(x: Seq<char>, f: Seq<char>, cut_path: bool)
    requires
        forall|j: int| 0 <= j < x.len() ==> x[j] != '#',
    ensures
        spec_uri_parts(x + seq!['#'] + f, cut_path) matches Ok(p) ==> p.fragment == Some(f),
        spec_uri_parts(x, cut_path) matches Ok(p) ==> p.fragment is None,
{
    lemma_cut_at(x, f, '#');
    lemma_cut_none(x, '#');
}

proof fn lemma_schemes()
    ensures
        "trojan://"@.len() == 9,
        "anytls://"@.len() == 9,
        "hy2://"@.len() == 6,
        "hy2://"@[2] == '2',
        "hysteria2://"@[2] == 's',
        "hysteria://"@[2] == 's',
{
    reveal_strlit("trojan://");
    reveal_strlit("anytls://");
    reveal_strlit("hy2://");
    reveal_strlit("hysteria2://");
    reveal_strlit("hysteria://");
}

/// `hy2://` is a six-char Hysteria2 scheme.
proof fn lemma_hy2_scheme(rest: Seq<char>)
    ensures
        hysteria2_scheme_len("hy2://"@ + rest) == Some(6int),
        ("hy2://"@ + rest).skip(6) == rest,
{
    lemma_schemes();
    reveal_strlit("hy2://");
    reveal_strlit("hysteria2://");
    reveal_strlit("hysteria://");
    let url = "hy2://"@ + rest;
    assert(url[2] == '2');
    if url.len() >= 12 {
        assert(url.take(12)[2] == url[2]);
        assert(url.take(12) != "hysteria2://"@);
    }
    if url.len() >= 11 {
        assert(url.take(11)[2] == url[2]);
        assert(url.take(11) != "hysteria://"@);
    }
    assert(url.take(6) =~= "hy2://"@);
    assert(url.skip(6) =~= rest);
}

/// A node's name is the percent-decoding of the text after the first `#`
/// of its URI; without a `#` it is the protocol's name.
#[verifier::spinoff_prover]
#[verifier::rlimit(60)]
pub proof fn law_names_from_fragment(x: Seq<char>, f: Seq<char>)
    requires
        forall|j: int| 0 <= j < x.len() ==> x[j] != '#',
    ensures
        spec_trojan("trojan://"@ + x + "#"@ + f) matches Ok(c) ==> c.name == decode_or_keep(f),
        spec_hysteria2("hy2://"@ + x + "#"@ + f) matches Ok(c) ==> c.name == decode_or_keep(f),
        spec_anytls("anytls://"@ + x + "#"@ + f) matches Ok(c) ==> c.name == decode_or_keep(f),
        spec_trojan("trojan://"@ + x) matches Ok(c) ==> c.name == "Trojan"@,
        spec_hysteria2("hy2://"@ + x) matches Ok(c) ==> c.name == "Hysteria2"@,
        spec_anytls("anytls://"@ + x) matches Ok(c) ==> c.name == "AnyTLS"@,
{
    lemma_schemes();
    reveal_strlit("#");
    let r = x + seq!['#'] + f;
    assert(("trojan://"@ + x + "#"@ + f).skip(9) =~= r);
    assert(("anytls://"@ + x + "#"@ + f).skip(9) =~= r);
    assert("hy2://"@ + x + "#"@ + f =~= "hy2://"@ + r);
    assert(("trojan://"@ + x).skip(9) =~= x);
    assert(("anytls://"@ + x).skip(9) =~= x);
    lemma_hy2_scheme(r);
    lemma_hy2_scheme(x);
    lemma_fragment_part(x, f, false);
    lemma_fragment_part(x, f, true);
}

/// The password of a Hysteria2 URI is the percent-decoding of the text
/// before its first `@`; the uuid of an AnyTLS URI is that text as it is.
pub proof fn law_user_fields(u: Seq<char>, rest: Seq<char>)
    requires
        forall|j: int| 0 <= j < u.len() ==> u[j] != '@' && u[j] != '#' && u[j] != '?',
    ensures
        spec_hysteria2("hy2://"@ + u + "@"@ + rest) matches Ok(c) ==> c.password == decode_or_keep(u),
        spec_anytls("anytls://"@ + u + "@"@ + rest) matches Ok(c) ==> c.uuid == u,
{
    lemma_schemes();
    reveal_strlit("@");
    let r = u + seq!['@'] + rest;
    assert("hy2://"@ + u + "@"@ + rest =~= "hy2://"@ + r);
    assert(("anytls://"@ + u + "@"@ + rest).skip(9) =~= r);
    lemma_hy2_scheme(r);
    lemma_user_part(u, rest, true);
}

// ---------------------------------------------------------------------
// Outputs
// ---------------------------------------------------------------------

/// The first entry with a key is at `i` where none before it has the key.
proof fn lemma_key_at(es: Seq<(Seq<char>, Tree)>, i: int, k: Seq<char>)
    requires
        0 <= i < es.len(),
        es[i].0 == k,
        forall|j: int| 0 <= j < i ==> #[trigger] es[j].0 != k,
    ensures
        key_index(es, k) == Some(i),
{
    let t = es.take(i + 1);
    assert(t.drop_last() =~= es.take(i));
    assert forall|j: int| 0 <= j < es.take(i).len() implies #[trigger] es.take(i)[j].0 != k by {
        assert(es.take(i)[j] == es[j]);
    }
    lemma_no_key(es.take(i), k);
    assert(t.last() == es[i]);
    lemma_key_index_prefix(es, i + 1, k);
}

proof fn lemma_key_names()
    ensures
        "skip-cert-verify"@ != "name"@,
        "skip-cert-verify"@ != "type"@,
        "skip-cert-verify"@ != "server"@,
        "skip-cert-verify"@ != "port"@,
        "skip-cert-verify"@ != "password"@,
        "skip-cert-verify"@ != "sni"@,
        "skip-cert-verify"@ != "alpn"@,
        "tls"@ != "type"@,
        "tls"@ != "tag"@,
        "tls"@ != "server"@,
        "tls"@ != "server_port"@,
        "tls"@ != "password"@,
        "tls"@ != "obfs"@,
        "obfs"@ != "type"@,
        "obfs"@ != "tag"@,
        "obfs"@ != "server"@,
        "obfs"@ != "server_port"@,
        "obfs"@ != "password"@,
{
    reveal_strlit("skip-cert-verify");
    reveal_strlit("name");
    reveal_strlit("type");
    reveal_strlit("server");
    reveal_strlit("port");
    reveal_strlit("password");
    reveal_strlit("sni");
    reveal_strlit("alpn");
    reveal_strlit("tls");
    reveal_strlit("tag");
    reveal_strlit("server_port");
    reveal_strlit("obfs");
    let k = "skip-cert-verify"@;
    assert(k.len() == 16);
    assert(k.len() != "name"@.len() && k.len() != "type"@.len() && k.len() != "server"@.len()
        && k.len() != "port"@.len() && k.len() != "password"@.len() && k.len() != "sni"@.len()
        && k.len() != "alpn"@.len());
    assert("tls"@.len() != "type"@.len() && "tls"@.len() != "server"@.len() && "tls"@.len()
        != "server_port"@.len() && "tls"@.len() != "password"@.len() && "tls"@.len() != "obfs"@.len());
    assert("obfs"@.len() != "tag"@.len() && "obfs"@.len() != "server"@.len() && "obfs"@.len()
        != "server_port"@.len() && "obfs"@.len() != "password"@.len());
    assert("tls"@[1] != "tag"@[1]);
    assert("obfs"@[0] != "type"@[0]);
}

/// The Clash proxy of a Trojan node that says whether to skip certificate
/// checks carries that choice as `skip-cert-verify`.
pub proof fn law_trojan_clash_skip_cert_verify(c: TrojanView, b: bool)
    requires
        c.allow_insecure == Some(b),
    ensures
        field_of(trojan_clash(c), "skip-cert-verify"@) == Some(Tree::Bool(b)),
{
    lemma_key_names();
    let es = trojan_clash(c)->Object_0;
    let base = seq![
        ("name"@, Tree::Str(c.name)),
        ("type"@, Tree::Str("trojan"@)),
        ("server"@, Tree::Str(c.server)),
        ("port"@, Tree::Number(crate::utils::text::decimal_text(c.port as nat))),
        ("password"@, Tree::Str(c.password)),
    ];
    let s2 = push_opt(
        push_opt(base, "sni"@, crate::utils::value::opt_str_tree(c.sni)),
        "alpn"@,
        crate::utils::value::opt_str_tree(c.alpn),
    );
    let s3 = s2.push(("skip-cert-verify"@, Tree::Bool(b)));
    let i = s2.len() as int;
    assert(es.len() >= s3.len() && es.take(s3.len() as int) =~= s3);
    assert(es[i] == s3[i]);
    assert forall|j: int| 0 <= j < i implies #[trigger] es[j].0 != "skip-cert-verify"@ by {
        assert(es[j] == s2[j]);
        assert(s2[j].0 == "name"@ || s2[j].0 == "type"@ || s2[j].0 == "server"@ || s2[j].0
            == "port"@ || s2[j].0 == "password"@ || s2[j].0 == "sni"@ || s2[j].0 == "alpn"@);
    }
    lemma_key_at(es, i, "skip-cert-verify"@);
}

/// The Sing-Box outbound of a Hysteria2 node carries its `insecure`
/// choice in its `tls` object, and its obfuscation password in its `obfs`
/// object.
pub proof fn law_hysteria2_singbox_fields(c: Hysteria2View)
    ensures
        c.insecure matches Some(b) ==> field_of(hysteria2_singbox(c), "tls"@) matches Some(
            Tree::Object(ts),
        ) && ts.contains(("insecure"@, Tree::Bool(b))),
        c.obfs_password matches Some(q) ==> field_of(hysteria2_singbox(c), "obfs"@) matches Some(
            Tree::Object(os),
        ) && os.contains(("password"@, Tree::Str(q))),
{
    lemma_key_names();
    let es = hysteria2_singbox(c)->Object_0;
    assert(es.len() >= 5);
    assert forall|j: int| 0 <= j < 5 implies #[trigger] es[j].0 != "tls"@ && es[j].0 != "obfs"@ by {
        assert(es[j].0 == "type"@ || es[j].0 == "tag"@ || es[j].0 == "server"@ || es[j].0
            == "server_port"@ || es[j].0 == "password"@);
    }
    if let Some(q) = c.obfs_password {
        assert(es[5].0 == "obfs"@);
        lemma_key_at(es, 5, "obfs"@);
        let os = es[5].1->Object_0;
        assert(os.last() == ("password"@, Tree::Str(q)));
        assert(os[os.len() - 1] == os.last());
    }
    if let Some(b) = c.insecure {
        let i: int = if c.obfs is Some || c.obfs_password is Some { 6 } else { 5 };
        assert(es[i].0 == "tls"@);
        assert forall|j: int| 0 <= j < i implies #[trigger] es[j].0 != "tls"@ by {
            if j == 5 {
                assert(es[j].0 == "obfs"@);
            }
        }
        lemma_key_at(es, i, "tls"@);
        let ts = es[i].1->Object_0;
        let t1 = crate::utils::value::push_opt(
            seq![("enabled"@, Tree::Bool(true))],
            "server_name"@,
            crate::utils::value::opt_str_tree(c.sni),
        );
        assert(ts[t1.len() as int] == ("insecure"@, Tree::Bool(b)));
    }
}

/// The Sing-Box outbound of an AnyTLS node carries its `insecure` choice
/// (else its `allowInsecure` one) in its `tls` object.
pub proof fn law_anytls_singbox_insecure(c: AnyTLSView, b: bool)
    requires
        or_else(c.insecure, c.allow_insecure) == Some(b),
    ensures
        field_of(anytls_singbox(c), "tls"@) matches Some(Tree::Object(ts)) && ts.contains(
            ("insecure"@, Tree::Bool(b)),
        ),
{
    lemma_key_names();
    let es = anytls_singbox(c)->Object_0;
    assert(es[5].0 == "tls"@);
    assert forall|j: int| 0 <= j < 5 implies #[trigger] es[j].0 != "tls"@ by {}
    lemma_key_at(es, 5, "tls"@);
    let ts = es[5].1->Object_0;
    let t1 = crate::utils::value::push_opt(
        seq![("enabled"@, Tree::Bool(true))],
        "server_name"@,
        crate::utils::value::opt_str_tree(c.sni),
    );
    assert(ts[t1.len() as int] == ("insecure"@, Tree::Bool(b)));
}

} // verus!
