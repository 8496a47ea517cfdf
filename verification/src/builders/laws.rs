//! What the Surge lines of nodes carry.

use vstd::prelude::*;
use crate::builders::{
    bool_text, hysteria2_surge_params, opt_bool_text, push_param, spec_surge_proxy_line,
    surge_line, trojan_surge_params,
};
use crate::parsers::ProxyView;
use crate::parsers::protocols::hysteria2::Hysteria2View;
use crate::parsers::protocols::trojan::TrojanView;
use crate::utils::text::{contains, join, lemma_find, starts_with};

verus! {

broadcast use vstd::seq_lib::group_seq_properties;

/// Where `p` stands in `s` at `pos`, `s` contains `p`.
proof fn lemma_contains_at(s: Seq<char>, p: Seq<char>, pos: int)
    requires
        0 <= pos,
        pos + p.len() <= s.len(),
        s.subrange(pos, pos + p.len()) == p,
    ensures
        contains(s, p),
{
    lemma_find(s, p);
    assert(s.skip(pos).take(p.len() as int) =~= s.subrange(pos, pos + p.len()));
    assert(starts_with(s.skip(pos), p));
}

/// The parts joined up to `k` are a prefix of all of them joined.
proof fn lemma_join_prefix(ps: Seq<Seq<char>>, sep: Seq<char>, k: int)
    requires
        1 <= k <= ps.len(),
    ensures
        join(ps.take(k), sep).len() <= join(ps, sep).len(),
        join(ps, sep).take(join(ps.take(k), sep).len() as int) == join(ps.take(k), sep),
    decreases ps.len(),
{
    if k == ps.len() {
        assert(ps.take(k) =~= ps);
        assert(join(ps, sep).take(join(ps, sep).len() as int) =~= join(ps, sep));
    } else {
        let init = ps.drop_last();
        lemma_join_prefix(init, sep, k);
        assert(init.take(k) =~= ps.take(k));
        assert(ps.len() >= 2);
        assert(join(ps, sep) == join(init, sep) + sep + ps.last());
        let jk = join(ps.take(k), sep);
        assert(join(ps, sep).take(jk.len() as int) =~= join(init, sep).take(jk.len() as int));
    }
}

/// Joining one more part adds the separator and the part.
proof fn lemma_join_step(ps: Seq<Seq<char>>, sep: Seq<char>, k: int)
    requires
        1 <= k < ps.len(),
    ensures
        join(ps.take(k + 1), sep) == join(ps.take(k), sep) + sep + ps[k],
{
    assert(ps.take(k + 1).drop_last() =~= ps.take(k));
    assert(ps.take(k + 1).last() == ps[k]);
}

/// Part `k` (not the first) of joined parts appears after a separator.
proof fn lemma_join_holds(ps: Seq<Seq<char>>, sep: Seq<char>, k: int)
    requires
        1 <= k < ps.len(),
    ensures
        contains(join(ps, sep), sep + ps[k]),
{
    lemma_join_step(ps, sep, k);
    lemma_join_prefix(ps, sep, k + 1);
    let j = join(ps, sep);
    let b = join(ps.take(k), sep);
    let w = join(ps.take(k + 1), sep);
    let p = sep + ps[k];
    assert(w =~= b + p);
    assert(j.subrange(b.len() as int, (b.len() + p.len()) as int) =~= w.subrange(b.len() as int, w.len() as int));
    assert(w.subrange(b.len() as int, w.len() as int) =~= p);
    lemma_contains_at(j, p, b.len() as int);
}

/// Text inside the tail of a longer text is inside the longer text.
proof fn lemma_contains_suffix(a: Seq<char>, j: Seq<char>, p: Seq<char>)
    requires
        contains(j, p),
    ensures
        contains(a + j, p),
{
    lemma_find(j, p);
    let i = crate::utils::text::find(j, p)->Some_0;
    assert((a + j).subrange(a.len() + i, a.len() + i + p.len()) =~= j.skip(i).take(p.len() as int));
    lemma_contains_at(a + j, p, a.len() + i);
}

/// The Surge parameters after the first keep each earlier one at its place.
proof fn lemma_push_param_keeps(ps: Seq<Seq<char>>, prefix: Seq<char>, o: Option<Seq<char>>, k: int)
    requires
        0 <= k < ps.len(),
    ensures
        k < push_param(ps, prefix, o).len(),
        push_param(ps, prefix, o)[k] == ps[k],
{
}

/// A parameter after the first stands in the line after `, `.
proof fn lemma_line_has_param(
    name: Seq<char>,
    kind: Seq<char>,
    server: Seq<char>,
    port: u16,
    ps: Seq<Seq<char>>,
    k: int,
)
    requires
        1 <= k < ps.len(),
    ensures
        contains(surge_line(name, kind, server, port, ps), ", "@ + ps[k]),
{
    lemma_join_holds(ps, ", "@, k);
    let a = name + " = "@ + kind + ", "@ + server + ", "@ + crate::utils::text::decimal_text(
        port as nat,
    ) + ", "@;
    assert(surge_line(name, kind, server, port, ps) == a + join(ps, ", "@));
    lemma_contains_suffix(a, join(ps, ", "@), ", "@ + ps[k]);
}

/// The Surge line of a Hysteria2 node carries each of its obfuscation
/// type, obfuscation password and SNI as the parameter of that name.
pub proof fn law_surge_hysteria2_params(c: Hysteria2View)
    ensures
        c.obfs matches Some(o) ==> contains(
            spec_surge_proxy_line(ProxyView::Hysteria2(c)),
            ", "@ + ("obfs="@ + o),
        ),
        c.obfs_password matches Some(q) ==> contains(
            spec_surge_proxy_line(ProxyView::Hysteria2(c)),
            ", "@ + ("obfs-password="@ + q),
        ),
        c.sni matches Some(n) ==> contains(
            spec_surge_proxy_line(ProxyView::Hysteria2(c)),
            ", "@ + ("sni="@ + n),
        ),
{
    let p1 = push_param(seq!["password="@ + c.password], "obfs="@, c.obfs);
    let p2 = push_param(p1, "obfs-password="@, c.obfs_password);
    let p3 = push_param(p2, "sni="@, c.sni);
    let p4 = push_param(p3, "insecure="@, opt_bool_text(c.insecure));
    let ps = hysteria2_surge_params(c);
    assert(ps == push_param(p4, "alpn="@, c.alpn));
    if let Some(o) = c.obfs {
        assert(ps[1] == p1[1]);
        lemma_line_has_param(c.name, "hysteria2"@, c.server, c.port, ps, 1);
    }
    if let Some(q) = c.obfs_password {
        let k = p1.len() as int;
        assert(ps[k] == p2[k]);
        lemma_line_has_param(c.name, "hysteria2"@, c.server, c.port, ps, k);
    }
    if let Some(n) = c.sni {
        let k = p2.len() as int;
        assert(ps[k] == p3[k]);
        lemma_line_has_param(c.name, "hysteria2"@, c.server, c.port, ps, k);
    }
}

/// The Surge line of a Trojan node carries its SNI and its choice to skip
/// certificate checks as the `sni` and `insecure` parameters.
pub proof fn law_surge_trojan_params(c: TrojanView)
    ensures
        c.sni matches Some(n) ==> contains(
            spec_surge_proxy_line(ProxyView::Trojan(c)),
            ", "@ + ("sni="@ + n),
        ),
        c.allow_insecure matches Some(b) ==> contains(
            spec_surge_proxy_line(ProxyView::Trojan(c)),
            ", "@ + ("insecure="@ + bool_text(b)),
        ),
{
    let p1 = push_param(seq!["password="@ + c.password], "sni="@, c.sni);
    let p2 = push_param(p1, "alpn="@, c.alpn);
    let base = push_param(p2, "insecure="@, opt_bool_text(c.allow_insecure));
    let ps = trojan_surge_params(c);
    assert(ps.len() >= base.len() && ps.take(base.len() as int) =~= base);
    if let Some(n) = c.sni {
        assert(ps[1] == base[1]);
        lemma_line_has_param(c.name, "trojan"@, c.server, c.port, ps, 1);
    }
    if let Some(b) = c.allow_insecure {
        let k = p2.len() as int;
        assert(ps[k] == base[k]);
        lemma_line_has_param(c.name, "trojan"@, c.server, c.port, ps, k);
    }
}

/// The Surge line of a Hysteria2 node with an obfuscation password
/// carries it as its `obfs-password` parameter.
pub proof fn law_surge_hysteria2_obfs_password(c: Hysteria2View, q: Seq<char>)
    requires
        c.obfs_password == Some(q),
    ensures
        contains(spec_surge_proxy_line(ProxyView::Hysteria2(c)), ", obfs-password="@ + q),
{
    reveal_strlit(", ");
    reveal_strlit("obfs-password=");
    reveal_strlit(", obfs-password=");
    let p1 = push_param(seq!["password="@ + c.password], "obfs="@, c.obfs);
    let t = "obfs-password="@ + q;
    let p2 = push_param(p1, "obfs-password="@, c.obfs_password);
    let k = p1.len() as int;
    assert(k >= 1);
    assert(p2[k] == t);
    let p3 = push_param(p2, "sni="@, c.sni);
    lemma_push_param_keeps(p2, "sni="@, c.sni, k);
    let p4 = push_param(p3, "insecure="@, crate::builders::opt_bool_text(c.insecure));
    lemma_push_param_keeps(p3, "insecure="@, crate::builders::opt_bool_text(c.insecure), k);
    let ps = hysteria2_surge_params(c);
    lemma_push_param_keeps(p4, "alpn="@, c.alpn, k);
    assert(ps[k] == t);
    lemma_join_holds(ps, ", "@, k);
    assert(", "@ + t =~= ", obfs-password="@ + q);
    let a = c.name + " = "@ + "hysteria2"@ + ", "@ + c.server + ", "@
        + crate::utils::text::decimal_text(c.port as nat) + ", "@;
    assert(spec_surge_proxy_line(ProxyView::Hysteria2(c)) == surge_line(
        c.name,
        "hysteria2"@,
        c.server,
        c.port,
        ps,
    ));
    assert(surge_line(c.name, "hysteria2"@, c.server, c.port, ps) == a + join(ps, ", "@));
    lemma_contains_suffix(a, join(ps, ", "@), ", obfs-password="@ + q);
}

} // verus!
