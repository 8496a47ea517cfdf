//! Filling Sing-Box templates: the nodes are put first among the
//! outbounds, placeholders in the selectors' `outbounds` lists become node
//! names, selectors left with nothing are dropped, and so are the
//! references to them.

use vstd::prelude::*;
use vstd::string::StringExecFns;
use crate::builders::str_items;
use crate::parsers::{proxy_singbox, ProxyConfig};
use crate::parsers::uri::same_chars;
use crate::templates::apply::{
    build_name_entries, entry_views, expand_items, expand_items_exec, name_entries, pair_views,
};
use crate::utils::text::{str_chars, string_views, views};
use crate::utils::value::{
    entry_trees, find_key, key_index, lemma_entry_trees_index, lemma_key_index_bound,
    lemma_trees_append, lemma_trees_index, lemma_trees_len, lemma_trees_push, new_array, push_item, put_entry,
    take_entry, tree, trees, vstring, ConfigValue, Entry, Tree,
};

verus! {

broadcast use vstd::seq_lib::group_seq_properties;

/// The text of a string entry; empty where the key is missing or its value
/// is not a string.
pub open spec fn str_field(es: Seq<(Seq<char>, Tree)>, key: Seq<char>) -> Seq<char> {
    match key_index(es, key) {
        Some(i) => match es[i].1 {
            Tree::Str(s) => s,
            _ => Seq::empty(),
        },
        None => Seq::empty(),
    }
}

/// The `tag` of an outbound, empty where it has none.
pub open spec fn tag_of(o: Tree) -> Seq<char> {
    match o {
        Tree::Object(es) => str_field(es, "tag"@),
        _ => Seq::empty(),
    }
}

/// The built-in outbounds that are never dropped: tagged `DIRECT` or
/// `REJECT`, or of type `direct` or `block`.
pub open spec fn is_builtin(es: Seq<(Seq<char>, Tree)>) -> bool {
    let tag = str_field(es, "tag"@);
    let kind = str_field(es, "type"@);
    tag == "DIRECT"@ || tag == "REJECT"@ || kind == "direct"@ || kind == "block"@
}

/// An outbound that is dropped: an object, not built in, whose
/// `outbounds` list is empty.
pub open spec fn removable(o: Tree) -> bool {
    match o {
        Tree::Object(es) => !is_builtin(es) && match key_index(es, "outbounds"@) {
            Some(j) => match es[j].1 {
                Tree::Array(items) => items.len() == 0,
                _ => false,
            },
            None => false,
        },
        _ => false,
    }
}

/// An outbound with its `outbounds` list expanded.
pub open spec fn expand_outbound(o: Tree, entries: Seq<(Seq<char>, Seq<Seq<char>>)>) -> Tree {
    match o {
        Tree::Object(es) => match key_index(es, "outbounds"@) {
            Some(j) => match es[j].1 {
                Tree::Array(items) => Tree::Object(
                    es.update(j, ("outbounds"@, Tree::Array(expand_items(items, entries)))),
                ),
                _ => o,
            },
            None => o,
        },
        _ => o,
    }
}

/// Whether an `outbounds` entry stays: it does not name a dropped tag.
pub open spec fn keeps_ref(it: Tree, tags: Seq<Seq<char>>) -> bool {
    match it {
        Tree::Str(s) => !tags.contains(s),
        _ => true,
    }
}

/// An outbound with the references to dropped tags taken out of its
/// `outbounds` list.
pub open spec fn drop_refs(o: Tree, tags: Seq<Seq<char>>) -> Tree {
    match o {
        Tree::Object(es) => match key_index(es, "outbounds"@) {
            Some(j) => match es[j].1 {
                Tree::Array(items) => Tree::Object(
                    es.update(
                        j,
                        ("outbounds"@, Tree::Array(items.filter(|it: Tree| keeps_ref(it, tags)))),
                    ),
                ),
                _ => o,
            },
            None => o,
        },
        _ => o,
    }
}

pub open spec fn singbox_list(proxies: Seq<ProxyConfig>) -> Seq<Tree> {
    proxies.map_values(|p: ProxyConfig| proxy_singbox(p@))
}

pub open spec fn expanded_outbounds(
    items: Seq<Tree>,
    proxies: Seq<ProxyConfig>,
    entries: Seq<(Seq<char>, Seq<Seq<char>>)>,
) -> Seq<Tree> {
    (singbox_list(proxies) + items).map_values(|o: Tree| expand_outbound(o, entries))
}

/// The tags of the outbounds that are dropped.
pub open spec fn dropped_tags(outs: Seq<Tree>) -> Seq<Seq<char>> {
    outs.filter(|o: Tree| removable(o)).map_values(|o: Tree| tag_of(o))
}

/// The `outbounds` of a filled template: the nodes first, then the
/// template's; placeholders expanded; the outbounds left empty dropped,
/// and every reference to them.
pub open spec fn fill_outbounds(
    items: Seq<Tree>,
    proxies: Seq<ProxyConfig>,
    entries: Seq<(Seq<char>, Seq<Seq<char>>)>,
) -> Seq<Tree> {
    let expanded = expanded_outbounds(items, proxies, entries);
    let tags = dropped_tags(expanded);
    expanded.filter(|o: Tree| !removable(o)).map_values(|o: Tree| drop_refs(o, tags))
}

/// A filled Sing-Box template. Only a top-level `outbounds` list changes;
/// a document without one comes back as it was.
pub open spec fn spec_singbox_template(
    config: Tree,
    proxies: Seq<ProxyConfig>,
    phs: Seq<(Seq<char>, Seq<char>)>,
) -> Tree {
    match config {
        Tree::Object(es) => match key_index(es, "outbounds"@) {
            Some(i) => match es[i].1 {
                Tree::Array(items) => Tree::Object(
                    es.update(
                        i,
                        ("outbounds"@, Tree::Array(fill_outbounds(items, proxies, name_entries(proxies, phs)))),
                    ),
                ),
                _ => config,
            },
            None => config,
        },
        _ => config,
    }
}

// ---------------------------------------------------------------------
// Reading entries
// ---------------------------------------------------------------------

/// The text of a string entry.
fn str_field_exec(es: &Vec<Entry>, key: &str) -> (res: Vec<char>)
    ensures
        res@ == str_field(entry_trees(es@), key@),
{
    proof {
        lemma_key_index_bound(entry_trees(es@), key@);
    }
    match find_key(es, key) {
        Some(i) => {
            proof {
                lemma_entry_trees_index(es@, i as int);
            }
            match &es[i].value {
                ConfigValue::Str(s) => str_chars(s.as_str()),
                _ => Vec::new(),
            }
        },
        None => Vec::new(),
    }
}

fn text_is(s: &Vec<char>, lit: &str) -> (res: bool)
    ensures
        res == (s@ == lit@),
{
    let l = str_chars(lit);
    same_chars(s.as_slice(), l.as_slice())
}

/// Whether an outbound is dropped.
fn removable_exec(o: &ConfigValue) -> (res: bool)
    ensures
        res == removable(tree(*o)),
{
    match o {
        ConfigValue::Object(es) => {
            let tag = str_field_exec(es, "tag");
            let kind = str_field_exec(es, "type");
            if text_is(&tag, "DIRECT") || text_is(&tag, "REJECT") || text_is(&kind, "direct")
                || text_is(&kind, "block") {
                return false;
            }
            proof {
                lemma_key_index_bound(entry_trees(es@), "outbounds"@);
            }
            match find_key(es, "outbounds") {
                Some(j) => {
                    proof {
                        lemma_entry_trees_index(es@, j as int);
                    }
                    match &es[j].value {
                        ConfigValue::Array(a) => {
                            proof {
                                lemma_trees_len(a@);
                            }
                            a.len() == 0
                        },
                        _ => false,
                    }
                },
                None => false,
            }
        },
        _ => false,
    }
}

/// The tag of an outbound.
fn tag_of_exec(o: &ConfigValue) -> (res: Vec<char>)
    ensures
        res@ == tag_of(tree(*o)),
{
    match o {
        ConfigValue::Object(es) => str_field_exec(es, "tag"),
        _ => Vec::new(),
    }
}

fn has_text(tags: &Vec<Vec<char>>, s: &[char]) -> (res: bool)
    ensures
        res == views(tags@).contains(s@),
{
    let mut i: usize = 0;
    while i < tags.len()
        invariant
            i <= tags.len(),
            forall|j: int| 0 <= j < i ==> tags@[j]@ != s@,
        decreases tags.len() - i,
    {
        if same_chars(tags[i].as_slice(), s) {
            assert(views(tags@)[i as int] == s@);
            return true;
        }
        i = i + 1;
    }
    assert forall|j: int| 0 <= j < views(tags@).len() implies views(tags@)[j] != s@ by {
        assert(views(tags@)[j] == tags@[j]@);
    }
    false
}

// ---------------------------------------------------------------------
// Rewriting lists
// ---------------------------------------------------------------------

/// Expands the `outbounds` list of an outbound.
fn expand_outbound_exec(o: ConfigValue, entries: &Vec<(String, Vec<String>)>) -> (res: ConfigValue)
    ensures
        tree(res) == expand_outbound(tree(o), entry_views(entries@)),
{
    match o {
        ConfigValue::Object(mut es) => {
            proof {
                lemma_key_index_bound(entry_trees(es@), "outbounds"@);
            }
            match find_key(&es, "outbounds") {
                Some(j) => {
                    let ghost orig = es@;
                    proof {
                        lemma_entry_trees_index(orig, j as int);
                    }
                    let e = take_entry(&mut es, j);
                    match e.value {
                        ConfigValue::Array(items) => {
                            let new_items = expand_items_exec(items, entries);
                            put_entry(
                                &mut es,
                                j,
                                Entry { key: e.key, value: ConfigValue::Array(new_items) },
                                Ghost(orig),
                            );
                        },
                        other => {
                            let ghost ov = tree(other);
                            put_entry(&mut es, j, Entry { key: e.key, value: other }, Ghost(orig));
                            assert(entry_trees(orig).update(j as int, (e.key@, ov)) =~= entry_trees(
                                orig,
                            ));
                        },
                    }
                    ConfigValue::Object(es)
                },
                None => ConfigValue::Object(es),
            }
        },
        other => other,
    }
}

/// Takes the references to dropped tags out of a list.
fn keep_refs_exec(items: Vec<ConfigValue>, tags: &Vec<Vec<char>>) -> (res: Vec<ConfigValue>)
    ensures
        trees(res@) == trees(items@).filter(|it: Tree| keeps_ref(it, views(tags@))),
{
    let ghost orig = items@;
    let ghost ot = trees(orig);
    let ghost tv = views(tags@);
    proof {
        lemma_trees_len(orig);
    }
    let mut rest = items;
    let mut res = new_array();
    let total: usize = rest.len();
    let mut k: usize = 0;
    assert(ot.take(0) =~= Seq::<Tree>::empty());
    assert(orig.skip(0) =~= orig);
    while rest.len() > 0
        invariant
            k + rest.len() == orig.len(),
            orig.len() == total,
            ot == trees(orig),
            ot.len() == orig.len(),
            tv == views(tags@),
            rest@ == orig.skip(k as int),
            trees(res@) == ot.take(k as int).filter(|it: Tree| keeps_ref(it, tv)),
        decreases rest.len(),
    {
        proof {
            lemma_trees_index(orig, k as int);
            ot.take(k as int).lemma_filter_push(ot[k as int], |it: Tree| keeps_ref(it, tv));
        }
        let it = rest.remove(0);
        assert(rest@ =~= orig.skip(k + 1));
        assert(ot.take(k + 1) =~= ot.take(k as int).push(tree(it)));
        let keep = match &it {
            ConfigValue::Str(s) => {
                let sc = str_chars(s.as_str());
                !has_text(tags, sc.as_slice())
            },
            _ => true,
        };
        if keep {
            push_item(&mut res, it);
        }
        k = k + 1;
    }
    assert(ot.take(k as int) =~= ot);
    res
}

/// Takes the references to dropped tags out of an outbound.
fn drop_refs_exec(o: ConfigValue, tags: &Vec<Vec<char>>) -> (res: ConfigValue)
    ensures
        tree(res) == drop_refs(tree(o), views(tags@)),
{
    match o {
        ConfigValue::Object(mut es) => {
            proof {
                lemma_key_index_bound(entry_trees(es@), "outbounds"@);
            }
            match find_key(&es, "outbounds") {
                Some(j) => {
                    let ghost orig = es@;
                    proof {
                        lemma_entry_trees_index(orig, j as int);
                    }
                    let e = take_entry(&mut es, j);
                    match e.value {
                        ConfigValue::Array(items) => {
                            let new_items = keep_refs_exec(items, tags);
                            put_entry(
                                &mut es,
                                j,
                                Entry { key: e.key, value: ConfigValue::Array(new_items) },
                                Ghost(orig),
                            );
                        },
                        other => {
                            let ghost ov = tree(other);
                            put_entry(&mut es, j, Entry { key: e.key, value: other }, Ghost(orig));
                            assert(entry_trees(orig).update(j as int, (e.key@, ov)) =~= entry_trees(
                                orig,
                            ));
                        },
                    }
                    ConfigValue::Object(es)
                },
                None => ConfigValue::Object(es),
            }
        },
        other => other,
    }
}

// ---------------------------------------------------------------------
// The outbounds list
// ---------------------------------------------------------------------

/// The Sing-Box outbounds of the nodes.
fn singbox_outbound_list(proxies: &[ProxyConfig]) -> (res: Vec<ConfigValue>)
    ensures
        trees(res@) == singbox_list(proxies@),
{
    let mut res = new_array();
    let mut i: usize = 0;
    while i < proxies.len()
        invariant
            i <= proxies.len(),
            trees(res@) == singbox_list(proxies@).take(i as int),
        decreases proxies.len() - i,
    {
        push_item(&mut res, proxies[i].to_singbox());
        assert(singbox_list(proxies@).take(i + 1) =~= singbox_list(proxies@).take(i as int).push(
            proxy_singbox(proxies@[i as int]@),
        ));
        i = i + 1;
    }
    assert(singbox_list(proxies@).take(proxies.len() as int) =~= singbox_list(proxies@));
    res
}

/// Expands the `outbounds` list of every outbound.
fn expand_all(all: Vec<ConfigValue>, entries: &Vec<(String, Vec<String>)>) -> (res: Vec<ConfigValue>)
    ensures
        trees(res@) == trees(all@).map_values(|o: Tree| expand_outbound(o, entry_views(entries@))),
{
    let ghost orig = all@;
    let ghost ot = trees(orig);
    let ghost ev = entry_views(entries@);
    proof {
        lemma_trees_len(orig);
    }
    let mut rest = all;
    let mut res = new_array();
    let total: usize = rest.len();
    let mut k: usize = 0;
    assert(orig.skip(0) =~= orig);
    while rest.len() > 0
        invariant
            k + rest.len() == orig.len(),
            orig.len() == total,
            ot == trees(orig),
            ot.len() == orig.len(),
            ev == entry_views(entries@),
            rest@ == orig.skip(k as int),
            trees(res@) == ot.take(k as int).map_values(|o: Tree| expand_outbound(o, ev)),
        decreases rest.len(),
    {
        proof {
            lemma_trees_index(orig, k as int);
        }
        let o = rest.remove(0);
        assert(rest@ =~= orig.skip(k + 1));
        assert(ot.take(k + 1).map_values(|o: Tree| expand_outbound(o, ev)) =~= ot.take(
            k as int,
        ).map_values(|o: Tree| expand_outbound(o, ev)).push(expand_outbound(tree(o), ev)));
        push_item(&mut res, expand_outbound_exec(o, entries));
        k = k + 1;
    }
    assert(ot.take(k as int) =~= ot);
    res
}

/// The tags of the outbounds that are dropped.
fn dropped_tags_exec(outs: &Vec<ConfigValue>) -> (res: Vec<Vec<char>>)
    ensures
        views(res@) == dropped_tags(trees(outs@)),
{
    let ghost ot = trees(outs@);
    proof {
        lemma_trees_len(outs@);
    }
    let mut res: Vec<Vec<char>> = Vec::new();
    let mut i: usize = 0;
    while i < outs.len()
        invariant
            i <= outs.len(),
            ot == trees(outs@),
            ot.len() == outs.len(),
            views(res@) == dropped_tags(ot.take(i as int)),
        decreases outs.len() - i,
    {
        proof {
            lemma_trees_index(outs@, i as int);
            ot.take(i as int).lemma_filter_push(ot[i as int], |o: Tree| removable(o));
        }
        assert(ot.take(i + 1) =~= ot.take(i as int).push(ot[i as int]));
        if removable_exec(&outs[i]) {
            let ghost before = views(res@);
            let t = tag_of_exec(&outs[i]);
            res.push(t);
            assert(views(res@) =~= before.push(tag_of(ot[i as int])));
            assert(ot.take(i + 1).filter(|o: Tree| removable(o)).map_values(|o: Tree| tag_of(o))
                =~= ot.take(i as int).filter(|o: Tree| removable(o)).map_values(|o: Tree| tag_of(o)).push(
                tag_of(ot[i as int]),
            ));
        }
        i = i + 1;
    }
    assert(ot.take(outs.len() as int) =~= ot);
    res
}

/// Drops the removable outbounds and the references to them.
fn keep_and_unlink(outs: Vec<ConfigValue>, tags: &Vec<Vec<char>>) -> (res: Vec<ConfigValue>)
    ensures
        trees(res@) == trees(outs@).filter(|o: Tree| !removable(o)).map_values(
            |o: Tree| drop_refs(o, views(tags@)),
        ),
{
    let ghost orig = outs@;
    let ghost ot = trees(orig);
    let ghost tv = views(tags@);
    proof {
        lemma_trees_len(orig);
    }
    let mut rest = outs;
    let mut res = new_array();
    let total: usize = rest.len();
    let mut k: usize = 0;
    assert(orig.skip(0) =~= orig);
    assert(ot.take(0) =~= Seq::<Tree>::empty());
    while rest.len() > 0
        invariant
            k + rest.len() == orig.len(),
            orig.len() == total,
            ot == trees(orig),
            ot.len() == orig.len(),
            tv == views(tags@),
            rest@ == orig.skip(k as int),
            trees(res@) == ot.take(k as int).filter(|o: Tree| !removable(o)).map_values(
                |o: Tree| drop_refs(o, tv),
            ),
        decreases rest.len(),
    {
        proof {
            lemma_trees_index(orig, k as int);
            ot.take(k as int).lemma_filter_push(ot[k as int], |o: Tree| !removable(o));
        }
        let o = rest.remove(0);
        assert(rest@ =~= orig.skip(k + 1));
        assert(ot.take(k + 1) =~= ot.take(k as int).push(tree(o)));
        if !removable_exec(&o) {
            let ghost t = tree(o);
            assert(ot.take(k + 1).filter(|o: Tree| !removable(o)).map_values(
                |o: Tree| drop_refs(o, tv),
            ) =~= ot.take(k as int).filter(|o: Tree| !removable(o)).map_values(
                |o: Tree| drop_refs(o, tv),
            ).push(drop_refs(t, tv)));
            push_item(&mut res, drop_refs_exec(o, tags));
        }
        k = k + 1;
    }
    assert(ot.take(k as int) =~= ot);
    res
}

/// Fills a Sing-Box template (already read into a document): the nodes
/// go first among the outbounds, placeholders in `outbounds` lists become
/// the names they select, outbounds whose list ends up empty are dropped
/// (the built-in DIRECT / REJECT / direct / block ones stay), and so are
/// the references to their tags.
pub fn apply_singbox_template(
    config: ConfigValue,
    proxies: &[ProxyConfig],
    placeholders: &Vec<(String, String)>,
) -> (res: ConfigValue)
    ensures
        tree(res) == spec_singbox_template(tree(config), proxies@, pair_views(placeholders@)),
{
    let entries = build_name_entries(proxies, placeholders);
    match config {
        ConfigValue::Object(mut es) => {
            proof {
                lemma_key_index_bound(entry_trees(es@), "outbounds"@);
            }
            match find_key(&es, "outbounds") {
                Some(i) => {
                    let ghost orig = es@;
                    proof {
                        lemma_entry_trees_index(orig, i as int);
                    }
                    let e = take_entry(&mut es, i);
                    match e.value {
                        ConfigValue::Array(items) => {
                            let mut all = singbox_outbound_list(proxies);
                            let ghost front = all@;
                            let mut items = items;
                            let ghost items_v = items@;
                            all.append(&mut items);
                            proof {
                                lemma_trees_append(front, items_v);
                            }
                            let expanded = expand_all(all, &entries);
                            let tags = dropped_tags_exec(&expanded);
                            let kept = keep_and_unlink(expanded, &tags);
                            put_entry(
                                &mut es,
                                i,
                                Entry { key: e.key, value: ConfigValue::Array(kept) },
                                Ghost(orig),
                            );
                        },
                        other => {
                            let ghost ov = tree(other);
                            put_entry(&mut es, i, Entry { key: e.key, value: other }, Ghost(orig));
                            assert(entry_trees(orig).update(i as int, (e.key@, ov)) =~= entry_trees(
                                orig,
                            ));
                        },
                    }
                    ConfigValue::Object(es)
                },
                None => ConfigValue::Object(es),
            }
        },
        other => other,
    }
}

} // verus!
