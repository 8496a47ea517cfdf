//! What filling a template keeps and adds.

use vstd::prelude::*;
use crate::builders::{clash_proxies, names, str_items};
use crate::parsers::protocols::anytls::anytls_singbox;
use crate::parsers::protocols::hysteria2::hysteria2_singbox;
use crate::parsers::protocols::trojan::trojan_singbox;
use crate::parsers::{proxy_singbox, ProxyConfig, ProxyView};
use crate::templates::apply::{
    expand_items, expand_one, first_match, group_with_names, key_matches, name_entries,
    replace_placeholders, resolved_names, spec_clash_template, spec_placeholders,
    spec_surge_template, wrapped,
};
use crate::templates::filter::selected;
use crate::templates::interpolation::{spec_parse, RuleErrorView, RuleView};
use crate::templates::singbox::{
    drop_refs, expand_outbound, expanded_outbounds, fill_outbounds, removable, singbox_list,
    dropped_tags,
};
use crate::utils::text::{contains, lemma_find, starts_with};
use crate::utils::value::{
    key_index, lemma_key_index_bound, lemma_key_index_prefix, obj_set, push_opt, Tree,
};

verus! {

broadcast use vstd::seq_lib::group_seq_properties;

/// Which entry a key finds depends on the keys alone.
proof fn lemma_key_index_same_keys(es: Seq<(Seq<char>, Tree)>, fs: Seq<(Seq<char>, Tree)>, k: Seq<char>)
    requires
        es.len() == fs.len(),
        forall|i: int| 0 <= i < es.len() ==> #[trigger] es[i].0 == fs[i].0,
    ensures
        key_index(es, k) == key_index(fs, k),
    decreases es.len(),
{
    if es.len() > 0 {
        assert forall|i: int| 0 <= i < es.drop_last().len() implies #[trigger] es.drop_last()[i].0
            == fs.drop_last()[i].0 by {
            assert(es[i].0 == fs[i].0);
        }
        lemma_key_index_same_keys(es.drop_last(), fs.drop_last(), k);
        assert(es.last().0 == fs.last().0);
    }
}

/// After setting a key, the key finds the new value.
proof fn lemma_obj_set_finds(es: Seq<(Seq<char>, Tree)>, k: Seq<char>, v: Tree)
    ensures
        key_index(obj_set(es, k, v), k) matches Some(j) && 0 <= j < obj_set(es, k, v).len()
            && obj_set(es, k, v)[j] == (k, v),
{
    lemma_key_index_bound(es, k);
    match key_index(es, k) {
        Some(i) => {
            let fs = es.update(i, (k, v));
            lemma_key_index_same_keys(es, fs, k);
        },
        None => {
            let fs = es.push((k, v));
            assert(fs.drop_last() =~= es);
        },
    }
}

/// A filled Clash template lists every node under `proxies`, whatever
/// its placeholders select.
pub proof fn law_clash_lists_every_node(
    es: Seq<(Seq<char>, Tree)>,
    proxies: Seq<ProxyConfig>,
    phs: Seq<(Seq<char>, Seq<char>)>,
)
    ensures
        spec_clash_template(Tree::Object(es), proxies, phs) matches Tree::Object(out) && key_index(
            out,
            "proxies"@,
        ) matches Some(j) && 0 <= j < out.len() && out[j] == ("proxies"@, Tree::Array(clash_proxies(proxies))),
{
    let all = Tree::Array(clash_proxies(proxies));
    let es2 = obj_set(es, "proxies"@, all);
    lemma_obj_set_finds(es, "proxies"@, all);
    let j = key_index(es2, "proxies"@)->Some_0;
    lemma_key_index_bound(es2, "proxy-groups"@);
    match key_index(es2, "proxy-groups"@) {
        Some(g) => {
            reveal_strlit("proxies");
            reveal_strlit("proxy-groups");
            assert("proxies"@.len() != "proxy-groups"@.len());
            let out = spec_clash_template(Tree::Object(es), proxies, phs)->Object_0;
            assert(out == es2.update(g, ("proxy-groups"@, out[g].1)));
            lemma_key_index_same_keys(es2, out, "proxies"@);
            assert(j != g);
        },
        None => {},
    }
}

/// A Surge template with no `{{` and no `[Proxy]` comes back as it was.
pub proof fn law_surge_plain_template(template: Seq<char>, proxies: Seq<ProxyConfig>)
    requires
        !contains(template, "{{"@),
        !contains(template, "[Proxy]"@),
    ensures
        spec_surge_template(template, proxies) == template,
{
    assert(spec_placeholders(template) =~= Seq::<(Seq<char>, Seq<char>)>::empty());
    assert(replace_placeholders(template, Seq::empty(), proxies) == template);
}

/// No entry has the key.
pub open spec fn lacks(es: Seq<(Seq<char>, Tree)>, k: Seq<char>) -> bool {
    forall|i: int| 0 <= i < es.len() ==> #[trigger] es[i].0 != k
}

proof fn lemma_lacks_none(es: Seq<(Seq<char>, Tree)>, k: Seq<char>)
    requires
        lacks(es, k),
    ensures
        key_index(es, k) is None,
    decreases es.len(),
{
    if es.len() > 0 {
        assert(es.drop_last().len() == es.len() - 1);
        assert forall|i: int| 0 <= i < es.drop_last().len() implies #[trigger] es.drop_last()[i].0 != k by {
            assert(es[i].0 != k);
        }
        lemma_lacks_none(es.drop_last(), k);
        assert(es[es.len() - 1].0 != k);
    }
}

proof fn lemma_lacks_push_opt(s: Seq<(Seq<char>, Tree)>, key: Seq<char>, v: Option<Tree>, k: Seq<char>)
    requires
        lacks(s, k),
        key != k,
    ensures
        lacks(push_opt(s, key, v), k),
{
    let r = push_opt(s, key, v);
    assert forall|i: int| 0 <= i < r.len() implies #[trigger] r[i].0 != k by {
        if i < s.len() {
            assert(r[i] == s[i]);
        }
    }
}

proof fn lemma_lacks_push(s: Seq<(Seq<char>, Tree)>, e: (Seq<char>, Tree), k: Seq<char>)
    requires
        lacks(s, k),
        e.0 != k,
    ensures
        lacks(s.push(e), k),
{
    assert forall|i: int| 0 <= i < s.push(e).len() implies #[trigger] s.push(e)[i].0 != k by {
        if i < s.len() {
            assert(s.push(e)[i] == s[i]);
        }
    }
}

proof fn lemma_key_literals()
    ensures
        "type"@ != "outbounds"@,
        "tag"@ != "outbounds"@,
        "server"@ != "outbounds"@,
        "server_port"@ != "outbounds"@,
        "password"@ != "outbounds"@,
        "transport"@ != "outbounds"@,
        "tls"@ != "outbounds"@,
        "obfs"@ != "outbounds"@,
        "server_ports"@ != "outbounds"@,
{
    reveal_strlit("outbounds");
    reveal_strlit("type");
    reveal_strlit("tag");
    reveal_strlit("server");
    reveal_strlit("server_port");
    reveal_strlit("password");
    reveal_strlit("transport");
    reveal_strlit("tls");
    reveal_strlit("obfs");
    reveal_strlit("server_ports");
    assert("transport"@[0] != "outbounds"@[0]);
    assert("server_ports"@.len() != "outbounds"@.len());
}

/// The Sing-Box outbound of a node is an object without an `outbounds`
/// list.
proof fn lemma_node_outbound(p: ProxyView)
    ensures
        proxy_singbox(p) matches Tree::Object(es) && lacks(es, "outbounds"@),
{
    lemma_key_literals();
    let k = "outbounds"@;
    match p {
        ProxyView::Trojan(c) => {
            let base = trojan_singbox(c)->Object_0;
            let b5 = seq![
                ("type"@, Tree::Str("trojan"@)),
                ("tag"@, Tree::Str(c.name)),
                ("server"@, Tree::Str(c.server)),
                ("server_port"@, Tree::Number(crate::utils::text::decimal_text(c.port as nat))),
                ("password"@, Tree::Str(c.password)),
            ];
            assert(lacks(b5, k));
            let wt = push_opt(b5, "transport"@, crate::parsers::protocols::trojan::trojan_transport(c));
            lemma_lacks_push_opt(b5, "transport"@, crate::parsers::protocols::trojan::trojan_transport(c), k);
            if c.sni is Some || c.alpn is Some || c.allow_insecure is Some {
                lemma_lacks_push(wt, ("tls"@, base.last().1), k);
                assert(base == wt.push(("tls"@, base.last().1)));
            } else {
                assert(base == wt);
            }
        },
        ProxyView::Hysteria2(c) => {
            let es = hysteria2_singbox(c)->Object_0;
            assert forall|i: int| 0 <= i < es.len() implies #[trigger] es[i].0 != k by {
                assert(es[i].0 == "type"@ || es[i].0 == "tag"@ || es[i].0 == "server"@ || es[i].0
                    == "server_port"@ || es[i].0 == "password"@ || es[i].0 == "obfs"@ || es[i].0
                    == "tls"@ || es[i].0 == "server_ports"@);
            }
        },
        ProxyView::AnyTLS(c) => {
            let es = anytls_singbox(c)->Object_0;
            assert forall|i: int| 0 <= i < es.len() implies #[trigger] es[i].0 != k by {
                assert(es[i].0 == "type"@ || es[i].0 == "tag"@ || es[i].0 == "server"@ || es[i].0
                    == "server_port"@ || es[i].0 == "password"@ || es[i].0 == "tls"@);
            }
        },
    }
}

/// A node's outbound goes through filling unchanged.
proof fn lemma_node_unchanged(p: ProxyView, entries: Seq<(Seq<char>, Seq<Seq<char>>)>, tags: Seq<Seq<char>>)
    ensures
        expand_outbound(proxy_singbox(p), entries) == proxy_singbox(p),
        !removable(proxy_singbox(p)),
        drop_refs(proxy_singbox(p), tags) == proxy_singbox(p),
{
    lemma_node_outbound(p);
    lemma_lacks_none(proxy_singbox(p)->Object_0, "outbounds"@);
}

proof fn lemma_filter_keeps_all(s: Seq<Tree>)
    requires
        forall|i: int| 0 <= i < s.len() ==> !removable(#[trigger] s[i]),
    ensures
        s.filter(|o: Tree| !removable(o)) == s,
    decreases s.len(),
{
    reveal(Seq::filter);
    if s.len() > 0 {
        lemma_filter_keeps_all(s.drop_last());
        assert(!removable(s[s.len() - 1]));
    }
}

/// A filled Sing-Box template starts its outbounds with those of the
/// nodes, in order and unchanged.
pub proof fn law_singbox_nodes_first(
    items: Seq<Tree>,
    proxies: Seq<ProxyConfig>,
    entries: Seq<(Seq<char>, Seq<Seq<char>>)>,
)
    ensures
        fill_outbounds(items, proxies, entries).len() >= proxies.len(),
        fill_outbounds(items, proxies, entries).take(proxies.len() as int) == singbox_list(proxies),
{
    let l = singbox_list(proxies);
    let n = proxies.len() as int;
    let expanded = expanded_outbounds(items, proxies, entries);
    let tags = dropped_tags(expanded);
    let rest = items.map_values(|o: Tree| expand_outbound(o, entries));
    assert forall|i: int| 0 <= i < n implies #[trigger] l[i] == proxy_singbox(proxies[i]@) by {}
    assert forall|i: int| 0 <= i < n implies expand_outbound(#[trigger] l[i], entries) == l[i] && !removable(l[i])
        && drop_refs(l[i], tags) == l[i] by {
        lemma_node_unchanged(proxies[i]@, entries, tags);
    }
    assert(expanded =~= l + rest);
    lemma_filter_keeps_all(l);
    Seq::filter_distributes_over_add(l, rest, |o: Tree| !removable(o));
    let kept = expanded.filter(|o: Tree| !removable(o));
    assert(kept == l + rest.filter(|o: Tree| !removable(o)));
    let fin = fill_outbounds(items, proxies, entries);
    assert(fin == kept.map_values(|o: Tree| drop_refs(o, tags)));
    assert(fin.take(n) =~= l);
}

// ---------------------------------------------------------------------
// Clash groups
// ---------------------------------------------------------------------

proof fn lemma_expand_items_append(
    x: Seq<Tree>,
    y: Seq<Tree>,
    entries: Seq<(Seq<char>, Seq<Seq<char>>)>,
)
    ensures
        expand_items(x + y, entries) == expand_items(x, entries) + expand_items(y, entries),
    decreases y.len(),
{
    if y.len() == 0 {
        assert(x + y =~= x);
        assert(expand_items(x, entries) + expand_items(y, entries) =~= expand_items(x, entries));
    } else {
        lemma_expand_items_append(x, y.drop_last(), entries);
        assert((x + y).drop_last() =~= x + y.drop_last());
        assert((x + y).last() == y.last());
        assert(expand_items(x, entries) + expand_items(y, entries) =~= expand_items(x, entries)
            + expand_items(y.drop_last(), entries) + expand_one(y.last(), entries));
    }
}

proof fn lemma_expand_items_one(t: Tree, entries: Seq<(Seq<char>, Seq<Seq<char>>)>)
    ensures
        expand_items(seq![t], entries) == expand_one(t, entries),
{
    reveal_with_fuel(expand_items, 2);
    assert(seq![t].drop_last() =~= Seq::<Tree>::empty());
    assert(Seq::<Tree>::empty() + expand_one(t, entries) =~= expand_one(t, entries));
}

/// The lookup table holds, for each placeholder, its content and then the
/// whole placeholder, both with the content's names.
proof fn lemma_name_entries_shape(proxies: Seq<ProxyConfig>, phs: Seq<(Seq<char>, Seq<char>)>)
    ensures
        name_entries(proxies, phs).len() == 2 * phs.len(),
        forall|m: int| 0 <= m < phs.len() ==> #[trigger] name_entries(proxies, phs)[2 * m] == (
            phs[m].1,
            resolved_names(proxies, phs[m].1),
        ) && name_entries(proxies, phs)[2 * m + 1] == (phs[m].0, resolved_names(proxies, phs[m].1)),
    decreases phs.len(),
{
    if phs.len() > 0 {
        let init = phs.drop_last();
        lemma_name_entries_shape(proxies, init);
        let es = name_entries(proxies, phs);
        let prev = name_entries(proxies, init);
        let n = resolved_names(proxies, phs.last().1);
        assert(es == prev + seq![(phs.last().1, n), (phs.last().0, n)]);
        assert forall|m: int| 0 <= m < phs.len() implies #[trigger] es[2 * m] == (
            phs[m].1,
            resolved_names(proxies, phs[m].1),
        ) && es[2 * m + 1] == (phs[m].0, resolved_names(proxies, phs[m].1)) by {
            if m < init.len() {
                assert(init[m] == phs[m]);
                assert(prev[2 * m] == es[2 * m]);
                assert(prev[2 * m + 1] == es[2 * m + 1]);
            } else {
                assert(phs[m] == phs.last());
                assert(es[2 * m] == (phs.last().1, n));
                assert(es[2 * m + 1] == (phs.last().0, n));
            }
        }
    }
}

/// Where every entry that matches holds the same names and one does,
/// those are the names found.
proof fn lemma_first_match_same(
    entries: Seq<(Seq<char>, Seq<Seq<char>>)>,
    s: Seq<char>,
    ns: Seq<Seq<char>>,
)
    requires
        forall|k: int| 0 <= k < entries.len() && key_matches(s, #[trigger] entries[k].0) ==> entries[k].1 == ns,
        exists|k: int| 0 <= k < entries.len() && key_matches(s, #[trigger] entries[k].0),
    ensures
        first_match(entries, s) == Some(ns),
    decreases entries.len(),
{
    if !key_matches(s, entries[0].0) {
        let rest = entries.drop_first();
        let k0 = choose|k: int| 0 <= k < entries.len() && key_matches(s, #[trigger] entries[k].0);
        assert(k0 > 0);
        assert(rest[k0 - 1] == entries[k0]);
        assert forall|k: int| 0 <= k < rest.len() && key_matches(s, #[trigger] rest[k].0) implies rest[k].1 == ns by {
            assert(rest[k] == entries[k + 1]);
        }
        lemma_first_match_same(rest, s, ns);
    }
}

proof fn lemma_wrapped_contains(c: Seq<char>)
    ensures
        contains(wrapped(c), c),
{
    let w = wrapped(c);
    reveal_strlit("{{");
    reveal_strlit("}}");
    lemma_find(w, c);
    assert(w.skip(2).take(c.len() as int) =~= c);
    assert(starts_with(w.skip(2), c));
}

/// In a Clash group, an item that is a placeholder `{{R}}` is replaced in
/// place by the names of the nodes `R` selects, the items around it
/// expanded as before. This holds where every placeholder that the item
/// matches (one holding the other) has the same rule text.
pub proof fn law_clash_group_splice(
    ges: Seq<(Seq<char>, Tree)>,
    j: int,
    items: Seq<Tree>,
    i: int,
    content: Seq<char>,
    rule: RuleView,
    proxies: Seq<ProxyConfig>,
    phs: Seq<(Seq<char>, Seq<char>)>,
)
    requires
        key_index(ges, "proxies"@) == Some(j),
        ges[j].1 == Tree::Array(items),
        0 <= i < items.len(),
        items[i] == Tree::Str(wrapped(content)),
        spec_parse(wrapped(content)) == Ok::<RuleView, RuleErrorView>(rule),
        phs.contains((wrapped(content), content)),
        forall|m: int|
            0 <= m < phs.len() && (key_matches(wrapped(content), #[trigger] phs[m].0) || key_matches(
                wrapped(content),
                phs[m].1,
            )) ==> phs[m].1 == content,
    ensures
        group_with_names(Tree::Object(ges), name_entries(proxies, phs)) == Tree::Object(
            ges.update(
                j,
                (
                    "proxies"@,
                    Tree::Array(
                        expand_items(items.take(i), name_entries(proxies, phs)) + str_items(
                            names(selected(proxies, rule)),
                        ) + expand_items(items.skip(i + 1), name_entries(proxies, phs)),
                    ),
                ),
            ),
        ),
{
    let es = name_entries(proxies, phs);
    let w = wrapped(content);
    let ns = resolved_names(proxies, content);
    lemma_name_entries_shape(proxies, phs);
    // every matching entry holds the content's names, and one matches
    assert forall|k: int| 0 <= k < es.len() && key_matches(w, #[trigger] es[k].0) implies es[k].1 == ns by {
        let m = k / 2;
        assert(k == 2 * m || k == 2 * m + 1);
        assert(es[2 * m] == (phs[m].1, resolved_names(proxies, phs[m].1)));
    }
    let m0 = choose|m: int| 0 <= m < phs.len() && phs[m] == (w, content);
    assert(es[2 * m0] == (phs[m0].1, resolved_names(proxies, phs[m0].1)));
    lemma_wrapped_contains(content);
    assert(key_matches(w, es[2 * m0].0));
    lemma_first_match_same(es, w, ns);
    // the item splits the list
    assert(items =~= items.take(i) + seq![items[i]] + items.skip(i + 1));
    lemma_expand_items_append(items.take(i) + seq![items[i]], items.skip(i + 1), es);
    lemma_expand_items_append(items.take(i), seq![items[i]], es);
    lemma_expand_items_one(items[i], es);
}

/// A filled Clash template keeps `proxy-groups` where it was, with each
/// group's `proxies` list resolved.
pub proof fn law_clash_groups_filled(
    es: Seq<(Seq<char>, Tree)>,
    g: int,
    gs: Seq<Tree>,
    proxies: Seq<ProxyConfig>,
    phs: Seq<(Seq<char>, Seq<char>)>,
)
    requires
        key_index(es, "proxy-groups"@) == Some(g),
        es[g].1 == Tree::Array(gs),
    ensures
        spec_clash_template(Tree::Object(es), proxies, phs) matches Tree::Object(out) && key_index(
            out,
            "proxy-groups"@,
        ) == Some(g) && out[g] == (
            "proxy-groups"@,
            Tree::Array(gs.map_values(|x: Tree| group_with_names(x, name_entries(proxies, phs)))),
        ),
{
    reveal_strlit("proxies");
    reveal_strlit("proxy-groups");
    assert("proxies"@.len() != "proxy-groups"@.len());
    lemma_key_index_bound(es, "proxy-groups"@);
    lemma_key_index_bound(es, "proxies"@);
    let all = Tree::Array(clash_proxies(proxies));
    let es2 = obj_set(es, "proxies"@, all);
    match key_index(es, "proxies"@) {
        Some(p) => {
            lemma_key_index_same_keys(es, es2, "proxy-groups"@);
            assert(p != g);
            assert(es2[g] == es[g]);
        },
        None => {
            assert(es2.take(es.len() as int) =~= es);
            lemma_key_index_prefix(es2, es.len() as int, "proxy-groups"@);
            assert(es2[g] == es[g]);
        },
    }
    let out = spec_clash_template(Tree::Object(es), proxies, phs)->Object_0;
    lemma_key_index_same_keys(es2, out, "proxy-groups"@);
}

} // verus!
