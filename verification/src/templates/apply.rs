//! Filling templates: every placeholder `{{...}}` is replaced by the names
//! of the nodes its rule selects, and the nodes themselves are added.

use vstd::prelude::*;
use vstd::slice::slice_subrange;
use vstd::string::StringExecFns;
use crate::builders::{
    clash_proxies, clash_proxy_list, names, spec_surge_proxy_line, str_items, surge_proxy_line,
};
use crate::utils::value::{
    entry_trees, find_key, key_index, lemma_entry_trees_index, lemma_key_index_bound,
    lemma_trees_index, lemma_trees_len, new_array, obj_set, push_item, put_entry, put_item,
    set_entry, take_entry, take_item, tree, trees, vstring, ConfigValue, Entry, Tree,
};
use crate::parsers::ProxyConfig;
use crate::templates::filter::{filter_proxies_by_rule, selected};
use crate::templates::interpolation::{spec_parse, InterpolationParser};
use crate::utils::text::{
    chars_to_string, contains, contains_chars, find, find_char, find_chars, join, join_chars,
    lemma_find, lemma_find_bound, lines, lines_of, push_all, replace_all, replace_all_chars,
    starts_with, str_chars, string_views, sub_chars, trim, trim_chars, views,
};

verus! {

broadcast use vstd::seq_lib::group_seq_properties;

// ---------------------------------------------------------------------
// Finding placeholders
// ---------------------------------------------------------------------

/// Where the first placeholder of a text is: the `{{` position `a` and the
/// offset `b` of the first `}}` from it.
pub open spec fn next_placeholder(s: Seq<char>) -> Option<(int, int)> {
    match find(s, "{{"@) {
        None => None,
        Some(a) => match find(s.skip(a), "}}"@) {
            None => None,
            Some(b) => if 0 <= a && 2 <= b && a + b + 2 <= s.len() {
                Some((a, b))
            } else {
                None
            },
        },
    }
}

/// The placeholders of a text, left to right: each `{{` with the first
/// `}}` after it, as (placeholder, content between the braces).
pub open spec fn spec_placeholders(s: Seq<char>) -> Seq<(Seq<char>, Seq<char>)>
    decreases s.len(),
{
    match next_placeholder(s) {
        None => Seq::empty(),
        Some((a, b)) => if 0 <= a && 2 <= b && a + b + 2 <= s.len() {
            seq![(s.subrange(a, a + b + 2), s.subrange(a + 2, a + b))] + spec_placeholders(
                s.skip(a + b + 2),
            )
        } else {
            Seq::empty()
        },
    }
}

pub open spec fn pair_views(v: Seq<(String, String)>) -> Seq<(Seq<char>, Seq<char>)> {
    v.map_values(|p: (String, String)| (p.0@, p.1@))
}

/// Where the first placeholder of `rest` is.
#[verifier::spinoff_prover]
#[verifier::rlimit(30)]
fn locate_placeholder(rest: &[char], open: &Vec<char>, close: &Vec<char>) -> (res: Option<(usize, usize)>)
    requires
        open@ == "{{"@,
        close@ == "}}"@,
    ensures
        match next_placeholder(rest@) {
            Some((a, b)) => res == Some((a as usize, b as usize)) && 0 <= a && 2 <= b && a + b + 2
                <= rest.len(),
            None => res is None,
        },
{
    proof {
        reveal_strlit("{{");
        reveal_strlit("}}");
    }
    assert(open@ == seq!['{', '{']);
    assert(close@ == seq!['}', '}']);
    proof {
        lemma_find(rest@, open@);
    }
    let a = match find_chars(rest, open.as_slice()) {
        Some(a) => a,
        None => return None,
    };
    let after = slice_subrange(rest, a, rest.len());
    assert(after@ =~= rest@.skip(a as int));
    proof {
        lemma_find(after@, close@);
    }
    let b = match find_chars(after, close.as_slice()) {
        Some(b) => b,
        None => return None,
    };
    assert(after@.take(2) == seq!['{', '{']);
    assert(b >= 2) by {
        if b < 2 {
            assert(after@.skip(b as int).take(2) == seq!['}', '}']);
            assert(after@.skip(b as int)[0] == after@[b as int]);
            assert(after@[b as int] == after@.take(2)[b as int]);
        }
    }
    Some((a, b))
}

/// The placeholders of a template, with their contents.
pub fn find_placeholders(s: &str) -> (res: Vec<(String, String)>)
    ensures
        pair_views(res@) == spec_placeholders(s@),
{
    let c = str_chars(s);
    let open = str_chars("{{");
    let close = str_chars("}}");
    let mut results: Vec<(String, String)> = Vec::new();
    let mut start: usize = 0;
    assert(c@.skip(0) =~= c@);
    loop
        invariant
            start <= c.len(),
            c@ == s@,
            open@ == "{{"@,
            close@ == "}}"@,
            pair_views(results@) + spec_placeholders(c@.skip(start as int)) == spec_placeholders(s@),
        decreases c.len() - start,
    {
        let rest = slice_subrange(c.as_slice(), start, c.len());
        assert(rest@ =~= c@.skip(start as int));
        let (a, b) = match locate_placeholder(rest, &open, &close) {
            Some(ab) => ab,
            None => {
                assert(pair_views(results@) + spec_placeholders(rest@) =~= pair_views(results@));
                return results;
            },
        };
        let placeholder = chars_to_string(slice_subrange(rest, a, a + b + 2));
        let content = chars_to_string(slice_subrange(rest, a + 2, a + b));
        let ghost pv = (placeholder@, content@);
        let ghost before = pair_views(results@);
        results.push((placeholder, content));
        assert(pair_views(results@) =~= before.push(pv));
        assert(rest@.skip(a + b + 2) =~= c@.skip(start + a + b + 2));
        assert(spec_placeholders(rest@) == seq![pv] + spec_placeholders(rest@.skip(a + b + 2)));
        assert(pair_views(results@) + spec_placeholders(c@.skip(start + a + b + 2)) =~= before
            + spec_placeholders(rest@));
        start = start + a + b + 2;
    }
}

// ---------------------------------------------------------------------
// Names of each placeholder
// ---------------------------------------------------------------------

/// `{{content}}`.
pub open spec fn wrapped(content: Seq<char>) -> Seq<char> {
    "{{"@ + content + "}}"@
}

/// The names a placeholder content stands for: those of the nodes its rule
/// selects, none where the rule is refused.
pub open spec fn resolved_names(proxies: Seq<ProxyConfig>, content: Seq<char>) -> Seq<Seq<char>> {
    match spec_parse(wrapped(content)) {
        Ok(r) => names(selected(proxies, r)),
        Err(_) => Seq::empty(),
    }
}

/// The lookup table of the placeholders: for each one, its content and
/// then the whole placeholder, both with the same names.
pub open spec fn name_entries(proxies: Seq<ProxyConfig>, phs: Seq<(Seq<char>, Seq<char>)>) -> Seq<
    (Seq<char>, Seq<Seq<char>>),
>
    decreases phs.len(),
{
    if phs.len() == 0 {
        Seq::empty()
    } else {
        let n = resolved_names(proxies, phs.last().1);
        name_entries(proxies, phs.drop_last()) + seq![(phs.last().1, n), (phs.last().0, n)]
    }
}

pub open spec fn entry_views(v: Seq<(String, Vec<String>)>) -> Seq<(Seq<char>, Seq<Seq<char>>)> {
    v.map_values(|e: (String, Vec<String>)| (e.0@, string_views(e.1@)))
}

/// The names of the nodes a placeholder content selects.
pub fn names_for(proxies: &[ProxyConfig], content: &String) -> (res: Vec<String>)
    ensures
        string_views(res@) == resolved_names(proxies@, content@),
{
    let text = String::from_str("{{").concat(content.as_str()).concat("}}");
    match InterpolationParser::parse(text.as_str()) {
        Ok(rule) => {
            let kept = filter_proxies_by_rule(proxies, &rule);
            let mut res: Vec<String> = Vec::new();
            let mut i: usize = 0;
            while i < kept.len()
                invariant
                    i <= kept.len(),
                    string_views(res@) == names(kept@.unref()).take(i as int),
                decreases kept.len() - i,
            {
                let ghost before = string_views(res@);
                res.push(String::from_str(kept[i].name()));
                assert(string_views(res@) =~= before.push(kept@[i as int]@.name()));
                assert(names(kept@.unref()).take(i + 1) =~= names(kept@.unref()).take(i as int).push(
                    kept@[i as int]@.name(),
                ));
                i = i + 1;
            }
            assert(names(kept@.unref()).take(kept.len() as int) =~= names(kept@.unref()));
            res
        },
        Err(_) => {
            let res: Vec<String> = Vec::new();
            assert(string_views(res@) =~= Seq::<Seq<char>>::empty());
            res
        },
    }
}

fn copy_names(v: &Vec<String>) -> (res: Vec<String>)
    ensures
        string_views(res@) == string_views(v@),
{
    let mut res: Vec<String> = Vec::new();
    let mut i: usize = 0;
    while i < v.len()
        invariant
            i <= v.len(),
            string_views(res@) == string_views(v@).take(i as int),
        decreases v.len() - i,
    {
        let ghost before = string_views(res@);
        res.push(v[i].clone());
        assert(string_views(res@) =~= before.push(v@[i as int]@));
        assert(string_views(v@).take(i + 1) =~= string_views(v@).take(i as int).push(v@[i as int]@));
        i = i + 1;
    }
    assert(string_views(v@).take(v.len() as int) =~= string_views(v@));
    res
}

/// The lookup table of the placeholders.
pub fn build_name_entries(proxies: &[ProxyConfig], placeholders: &Vec<(String, String)>) -> (res: Vec<
    (String, Vec<String>),
>)
    ensures
        entry_views(res@) == name_entries(proxies@, pair_views(placeholders@)),
{
    let ghost phs = pair_views(placeholders@);
    let mut res: Vec<(String, Vec<String>)> = Vec::new();
    let mut i: usize = 0;
    assert(phs.take(0) =~= Seq::<(Seq<char>, Seq<char>)>::empty());
    while i < placeholders.len()
        invariant
            i <= placeholders.len(),
            phs == pair_views(placeholders@),
            entry_views(res@) == name_entries(proxies@, phs.take(i as int)),
        decreases placeholders.len() - i,
    {
        let (placeholder, content) = &placeholders[i];
        let n = names_for(proxies, content);
        let ghost nv = string_views(n@);
        let n2 = copy_names(&n);
        let ghost before = entry_views(res@);
        res.push((content.clone(), n));
        res.push((placeholder.clone(), n2));
        assert(entry_views(res@) =~= before + seq![(content@, nv), (placeholder@, nv)]);
        assert(phs.take(i + 1).drop_last() =~= phs.take(i as int));
        assert(phs.take(i + 1).last() == (placeholder@, content@));
        i = i + 1;
    }
    assert(phs.take(placeholders.len() as int) =~= phs);
    res
}

/// Whether a template string stands for a lookup key: one holds the
/// other.
pub open spec fn key_matches(s: Seq<char>, key: Seq<char>) -> bool {
    contains(s, key) || contains(key, s)
}

/// The names of the first entry whose key matches the string.
pub open spec fn first_match(entries: Seq<(Seq<char>, Seq<Seq<char>>)>, s: Seq<char>) -> Option<
    Seq<Seq<char>>,
>
    decreases entries.len(),
{
    if entries.len() == 0 {
        None
    } else if key_matches(s, entries[0].0) {
        Some(entries[0].1)
    } else {
        first_match(entries.drop_first(), s)
    }
}

/// Index of the first entry whose key matches the string.
pub fn find_match(entries: &Vec<(String, Vec<String>)>, s: &str) -> (res: Option<usize>)
    ensures
        match first_match(entry_views(entries@), s@) {
            Some(n) => res matches Some(i) && i < entries.len() && string_views(entries@[i as int].1@)
                == n,
            None => res is None,
        },
{
    let sc = str_chars(s);
    let ghost ev = entry_views(entries@);
    let mut i: usize = 0;
    assert(ev.skip(0) =~= ev);
    while i < entries.len()
        invariant
            i <= entries.len(),
            sc@ == s@,
            ev == entry_views(entries@),
            first_match(ev, s@) == first_match(ev.skip(i as int), s@),
        decreases entries.len() - i,
    {
        let kc = str_chars(entries[i].0.as_str());
        assert(ev.skip(i as int)[0] == ev[i as int]);
        if contains_chars(sc.as_slice(), kc.as_slice()) || contains_chars(kc.as_slice(), sc.as_slice()) {
            return Some(i);
        }
        assert(ev.skip(i as int).drop_first() =~= ev.skip(i + 1));
        i = i + 1;
    }
    None
}

// ---------------------------------------------------------------------
// Surge templates
// ---------------------------------------------------------------------

/// The template with each placeholder whose rule parses replaced (every
/// occurrence) by the names it selects joined with `, `, in order.
pub open spec fn replace_placeholders(
    t: Seq<char>,
    phs: Seq<(Seq<char>, Seq<char>)>,
    proxies: Seq<ProxyConfig>,
) -> Seq<char>
    decreases phs.len(),
{
    if phs.len() == 0 {
        t
    } else {
        let before = replace_placeholders(t, phs.drop_last(), proxies);
        match spec_parse(wrapped(phs.last().1)) {
            Ok(r) => replace_all(before, phs.last().0, join(names(selected(proxies, r)), ", "@)),
            Err(_) => before,
        }
    }
}

pub open spec fn surge_line_seq(proxies: Seq<ProxyConfig>) -> Seq<Seq<char>> {
    proxies.map_values(|p: ProxyConfig| spec_surge_proxy_line(p@))
}

/// Whether a line stays: it is not a `#` comment that mentions `proxies`.
pub open spec fn keep_line(l: Seq<char>) -> bool {
    !starts_with(trim(l), "#"@) || !contains(l, "proxies"@)
}

/// A filled Surge template: placeholders replaced, then (where a line
/// ends after `[Proxy]`) the node lines inserted after that line, and
/// `#` comment lines that mention `proxies` dropped.
pub open spec fn spec_surge_template(template: Seq<char>, proxies: Seq<ProxyConfig>) -> Seq<char> {
    let replaced = replace_placeholders(template, spec_placeholders(template), proxies);
    match find(replaced, "[Proxy]"@) {
        None => replaced,
        Some(idx) => match find_char(replaced.skip(idx + 7), '\n') {
            None => replaced,
            Some(nl) => {
                let pos = idx + 7 + nl + 1;
                let inserted = replaced.take(pos) + join(surge_line_seq(proxies), "\n"@) + "\n"@
                    + replaced.skip(pos);
                join(lines(inserted).filter(|l: Seq<char>| keep_line(l)), "\n"@)
            },
        },
    }
}

/// The names of the nodes a rule selects.
fn selected_names(proxies: &[ProxyConfig], rule: &crate::templates::interpolation::InterpolationRule) -> (res: Vec<Vec<char>>)
    ensures
        views(res@) == names(selected(proxies@, rule@)),
{
    let kept = filter_proxies_by_rule(proxies, rule);
    let mut res: Vec<Vec<char>> = Vec::new();
    let mut i: usize = 0;
    while i < kept.len()
        invariant
            i <= kept.len(),
            kept@.unref() == selected(proxies@, rule@),
            views(res@) == names(kept@.unref()).take(i as int),
        decreases kept.len() - i,
    {
        let ghost before = views(res@);
        res.push(str_chars(kept[i].name()));
        assert(views(res@) =~= before.push(kept@[i as int]@.name()));
        assert(names(kept@.unref()).take(i + 1) =~= names(kept@.unref()).take(i as int).push(
            kept@[i as int]@.name(),
        ));
        i = i + 1;
    }
    assert(names(kept@.unref()).take(kept.len() as int) =~= names(kept@.unref()));
    res
}

/// The template with its placeholders replaced.
fn replace_all_placeholders(template: &str, phs: &Vec<(String, String)>, proxies: &[ProxyConfig]) -> (res: Vec<char>)
    ensures
        res@ == replace_placeholders(template@, pair_views(phs@), proxies@),
{
    let ghost pv = pair_views(phs@);
    let mut result = str_chars(template);
    let sep = str_chars(", ");
    let mut i: usize = 0;
    assert(pv.take(0) =~= Seq::<(Seq<char>, Seq<char>)>::empty());
    while i < phs.len()
        invariant
            i <= phs.len(),
            pv == pair_views(phs@),
            sep@ == ", "@,
            result@ == replace_placeholders(template@, pv.take(i as int), proxies@),
        decreases phs.len() - i,
    {
        let (placeholder, content) = &phs[i];
        assert(pv.take(i + 1).drop_last() =~= pv.take(i as int));
        assert(pv.take(i + 1).last() == (placeholder@, content@));
        let text = String::from_str("{{").concat(content.as_str()).concat("}}");
        match InterpolationParser::parse(text.as_str()) {
            Ok(rule) => {
                let ns = selected_names(proxies, &rule);
                let replacement = join_chars(&ns, sep.as_slice());
                let pat = str_chars(placeholder.as_str());
                if pat.len() > 0 {
                    result = replace_all_chars(result.as_slice(), pat.as_slice(), replacement.as_slice());
                }
            },
            Err(_) => {},
        }
        i = i + 1;
    }
    assert(pv.take(phs.len() as int) =~= pv);
    result
}

/// The Surge lines of the nodes.
fn surge_line_list(proxies: &[ProxyConfig]) -> (res: Vec<Vec<char>>)
    ensures
        views(res@) == surge_line_seq(proxies@),
{
    let mut res: Vec<Vec<char>> = Vec::new();
    let mut i: usize = 0;
    while i < proxies.len()
        invariant
            i <= proxies.len(),
            views(res@) == surge_line_seq(proxies@).take(i as int),
        decreases proxies.len() - i,
    {
        let ghost before = views(res@);
        let line = surge_proxy_line(&proxies[i]);
        res.push(str_chars(line.as_str()));
        assert(views(res@) =~= before.push(spec_surge_proxy_line(proxies@[i as int]@)));
        assert(surge_line_seq(proxies@).take(i + 1) =~= surge_line_seq(proxies@).take(i as int).push(
            spec_surge_proxy_line(proxies@[i as int]@),
        ));
        i = i + 1;
    }
    assert(surge_line_seq(proxies@).take(proxies.len() as int) =~= surge_line_seq(proxies@));
    res
}

/// Whether a line stays in a filled Surge template.
fn keep_line_exec(l: &Vec<char>) -> (res: bool)
    ensures
        res == keep_line(l@),
{
    let t = trim_chars(l.as_slice());
    let hash = str_chars("#");
    let word = str_chars("proxies");
    assert(t@.skip(0) =~= t@);
    !crate::utils::text::matches_at(t.as_slice(), 0, hash.as_slice()) || !contains_chars(
        l.as_slice(),
        word.as_slice(),
    )
}

/// The lines that stay, joined with newlines.
fn filter_lines(text: &Vec<char>) -> (res: Vec<char>)
    ensures
        res@ == join(lines(text@).filter(|l: Seq<char>| keep_line(l)), "\n"@),
{
    let ls = lines_of(text.as_slice());
    let ghost lv = views(ls@);
    let mut kept: Vec<Vec<char>> = Vec::new();
    let mut i: usize = 0;
    while i < ls.len()
        invariant
            i <= ls.len(),
            lv == views(ls@),
            views(kept@) == lv.take(i as int).filter(|l: Seq<char>| keep_line(l)),
        decreases ls.len() - i,
    {
        proof {
            lv.take(i as int).lemma_filter_push(lv[i as int], |l: Seq<char>| keep_line(l));
        }
        assert(lv.take(i + 1) =~= lv.take(i as int).push(lv[i as int]));
        if keep_line_exec(&ls[i]) {
            let ghost before = views(kept@);
            let line = sub_chars(ls[i].as_slice(), 0, ls[i].len());
            assert(ls@[i as int]@.subrange(0, ls@[i as int]@.len() as int) =~= ls@[i as int]@);
            kept.push(line);
            assert(views(kept@) =~= before.push(lv[i as int]));
        }
        i = i + 1;
    }
    assert(lv.take(ls.len() as int) =~= lv);
    let nl = str_chars("\n");
    join_chars(&kept, nl.as_slice())
}

/// Fills a Surge template: placeholders become node names, the node lines
/// go after the `[Proxy]` line, and comment lines about proxies are
/// dropped.
pub fn apply_surge_template(template: &str, proxies: &[ProxyConfig]) -> (res: String)
    ensures
        res@ == spec_surge_template(template@, proxies@),
{
    let phs = find_placeholders(template);
    let replaced = replace_all_placeholders(template, &phs, proxies);
    let marker = str_chars("[Proxy]");
    proof {
        reveal_strlit("[Proxy]");
    }
    assert(marker@.len() == 7);
    let idx = match find_chars(replaced.as_slice(), marker.as_slice()) {
        Some(idx) => idx,
        None => return chars_to_string(replaced.as_slice()),
    };
    let after = slice_subrange(replaced.as_slice(), idx + 7, replaced.len());
    assert(after@ =~= replaced@.skip(idx + 7));
    let nl = match crate::utils::text::find_char_in(after, '\n') {
        Some(nl) => nl,
        None => return chars_to_string(replaced.as_slice()),
    };
    let pos = idx + 7 + nl + 1;
    let lines_v = surge_line_list(proxies);
    let newline = str_chars("\n");
    let mut inserted = sub_chars(replaced.as_slice(), 0, pos);
    push_all(&mut inserted, join_chars(&lines_v, newline.as_slice()).as_slice());
    push_all(&mut inserted, newline.as_slice());
    push_all(&mut inserted, slice_subrange(replaced.as_slice(), pos, replaced.len()));
    assert(replaced@.subrange(0, pos as int) =~= replaced@.take(pos as int));
    assert(replaced@.subrange(pos as int, replaced@.len() as int) =~= replaced@.skip(pos as int));
    let out = filter_lines(&inserted);
    chars_to_string(out.as_slice())
}

// ---------------------------------------------------------------------
// Clash templates
// ---------------------------------------------------------------------

/// One entry of a list of names, expanded: a string that stands for a
/// placeholder becomes the names it selects, in its place.
pub open spec fn expand_one(it: Tree, entries: Seq<(Seq<char>, Seq<Seq<char>>)>) -> Seq<Tree> {
    match it {
        Tree::Str(s) => match first_match(entries, s) {
            Some(ns) => str_items(ns),
            None => seq![it],
        },
        _ => seq![it],
    }
}

/// A list of names with each entry expanded in place.
pub open spec fn expand_items(items: Seq<Tree>, entries: Seq<(Seq<char>, Seq<Seq<char>>)>) -> Seq<
    Tree,
>
    decreases items.len(),
{
    if items.len() == 0 {
        Seq::empty()
    } else {
        expand_items(items.drop_last(), entries) + expand_one(items.last(), entries)
    }
}

/// A `proxies` list with each placeholder replaced, in place, by the names
/// it selects.
pub open spec fn replace_items(v: Tree, entries: Seq<(Seq<char>, Seq<Seq<char>>)>) -> Tree {
    match v {
        Tree::Array(items) => Tree::Array(expand_items(items, entries)),
        _ => v,
    }
}

/// A proxy group with its `proxies` list resolved.
pub open spec fn group_with_names(g: Tree, entries: Seq<(Seq<char>, Seq<Seq<char>>)>) -> Tree {
    match g {
        Tree::Object(es) => match key_index(es, "proxies"@) {
            Some(j) => Tree::Object(es.update(j, ("proxies"@, replace_items(es[j].1, entries)))),
            None => g,
        },
        _ => g,
    }
}

pub open spec fn groups_with_names(v: Tree, entries: Seq<(Seq<char>, Seq<Seq<char>>)>) -> Tree {
    match v {
        Tree::Array(gs) => Tree::Array(gs.map_values(|g: Tree| group_with_names(g, entries))),
        _ => v,
    }
}

/// A filled Clash template: `proxies` set to every node, and in every
/// proxy group each entry of `proxies` that stands for a placeholder
/// replaced by the list of the names it selects.
pub open spec fn spec_clash_template(
    config: Tree,
    proxies: Seq<ProxyConfig>,
    phs: Seq<(Seq<char>, Seq<char>)>,
) -> Tree {
    let entries = name_entries(proxies, phs);
    match config {
        Tree::Object(es) => {
            let es2 = obj_set(es, "proxies"@, Tree::Array(clash_proxies(proxies)));
            match key_index(es2, "proxy-groups"@) {
                Some(i) => Tree::Object(
                    es2.update(i, ("proxy-groups"@, groups_with_names(es2[i].1, entries))),
                ),
                None => Tree::Object(es2),
            }
        },
        _ => config,
    }
}

/// Pushes the string values of `ns` onto `a`.
fn push_names(a: &mut Vec<ConfigValue>, ns: &Vec<String>)
    ensures
        trees(final(a)@) == trees(old(a)@) + str_items(string_views(ns@)),
{
    let ghost start = trees(a@);
    let mut i: usize = 0;
    while i < ns.len()
        invariant
            i <= ns.len(),
            trees(a@) == start + str_items(string_views(ns@)).take(i as int),
        decreases ns.len() - i,
    {
        push_item(a, vstring(&ns[i]));
        assert(str_items(string_views(ns@)).take(i + 1) =~= str_items(string_views(ns@)).take(
            i as int,
        ).push(Tree::Str(ns@[i as int]@)));
        assert(start + str_items(string_views(ns@)).take(i + 1) =~= (start + str_items(
            string_views(ns@),
        ).take(i as int)).push(Tree::Str(ns@[i as int]@)));
        i = i + 1;
    }
    assert(str_items(string_views(ns@)).take(ns.len() as int) =~= str_items(string_views(ns@)));
}

/// Expands every entry of a list of names.
pub(crate) fn expand_items_exec(items: Vec<ConfigValue>, entries: &Vec<(String, Vec<String>)>) -> (res: Vec<
    ConfigValue,
>)
    ensures
        trees(res@) == expand_items(trees(items@), entry_views(entries@)),
{
    let ghost orig = items@;
    let ghost ot = trees(orig);
    let ghost ev = entry_views(entries@);
    proof {
        lemma_trees_len(orig);
    }
    let mut rest = items;
    let mut res = new_array();
    let total: usize = rest.len();
    let mut k: usize = 0;
    assert(ot.take(0) =~= Seq::<Tree>::empty());
    assert(orig.skip(0) =~= orig);
    while rest.len() > 0
        invariant
            k + rest.len() == orig.len(),
            orig.len() == total,
            ot == trees(orig),
            ot.len() == orig.len(),
            ev == entry_views(entries@),
            rest@ == orig.skip(k as int),
            trees(res@) == expand_items(ot.take(k as int), ev),
        decreases rest.len(),
    {
        proof {
            lemma_trees_index(orig, k as int);
        }
        let it = rest.remove(0);
        assert(rest@ =~= orig.skip(k + 1));
        assert(ot.take(k + 1).drop_last() =~= ot.take(k as int));
        assert(ot.take(k + 1).last() == tree(it));
        match it {
            ConfigValue::Str(s) => match find_match(entries, s.as_str()) {
                Some(i) => {
                    push_names(&mut res, &entries[i].1);
                },
                None => {
                    let v = ConfigValue::Str(s);
                    push_item(&mut res, v);
                    assert(seq![tree(v)] + Seq::<Tree>::empty() =~= seq![tree(v)]);
                },
            },
            other => {
                push_item(&mut res, other);
            },
        }
        k = k + 1;
    }
    assert(ot.take(k as int) =~= ot);
    res
}

fn replace_items_exec(v: ConfigValue, entries: &Vec<(String, Vec<String>)>) -> (res: ConfigValue)
    ensures
        tree(res) == replace_items(tree(v), entry_views(entries@)),
{
    match v {
        ConfigValue::Array(items) => ConfigValue::Array(expand_items_exec(items, entries)),
        other => other,
    }
}

fn group_with_names_exec(g: ConfigValue, entries: &Vec<(String, Vec<String>)>) -> (res: ConfigValue)
    ensures
        tree(res) == group_with_names(tree(g), entry_views(entries@)),
{
    match g {
        ConfigValue::Object(mut es) => match find_key(&es, "proxies") {
            Some(j) => {
                let ghost orig = es@;
                proof {
                    lemma_entry_trees_index(orig, j as int);
                    lemma_key_index_bound(entry_trees(orig), "proxies"@);
                }
                let e = take_entry(&mut es, j);
                let new_v = replace_items_exec(e.value, entries);
                put_entry(&mut es, j, Entry { key: e.key, value: new_v }, Ghost(orig));
                ConfigValue::Object(es)
            },
            None => ConfigValue::Object(es),
        },
        other => other,
    }
}

fn groups_with_names_exec(v: ConfigValue, entries: &Vec<(String, Vec<String>)>) -> (res: ConfigValue)
    ensures
        tree(res) == groups_with_names(tree(v), entry_views(entries@)),
{
    match v {
        ConfigValue::Array(mut items) => {
            let ghost orig = trees(items@);
            let ghost ev = entry_views(entries@);
            proof {
                lemma_trees_len(items@);
            }
            let mut i: usize = 0;
            while i < items.len()
                invariant
                    i <= items.len(),
                    orig.len() == items.len(),
                    ev == entry_views(entries@),
                    trees(items@).len() == items.len(),
                    forall|j: int| 0 <= j < i ==> #[trigger] trees(items@)[j] == group_with_names(orig[j], ev),
                    forall|j: int| i <= j < items.len() ==> #[trigger] trees(items@)[j] == orig[j],
                decreases items.len() - i,
            {
                let ghost before = items@;
                proof {
                    lemma_trees_index(before, i as int);
                }
                let it = take_item(&mut items, i);
                let new_it = group_with_names_exec(it, entries);
                put_item(&mut items, i, new_it, Ghost(before));
                proof {
                    lemma_trees_len(items@);
                }
                i = i + 1;
            }
            assert(trees(items@) =~= orig.map_values(|g: Tree| group_with_names(g, ev)));
            ConfigValue::Array(items)
        },
        other => other,
    }
}

/// Fills a Clash template (already read into a document).
pub fn apply_clash_template(
    config: ConfigValue,
    proxies: &[ProxyConfig],
    placeholders: &Vec<(String, String)>,
) -> (res: ConfigValue)
    ensures
        tree(res) == spec_clash_template(tree(config), proxies@, pair_views(placeholders@)),
{
    let entries = build_name_entries(proxies, placeholders);
    match config {
        ConfigValue::Object(mut es) => {
            let list = clash_proxy_list(proxies);
            set_entry(&mut es, "proxies", ConfigValue::Array(list));
            match find_key(&es, "proxy-groups") {
                Some(i) => {
                    let ghost orig = es@;
                    proof {
                        lemma_entry_trees_index(orig, i as int);
                        lemma_key_index_bound(entry_trees(orig), "proxy-groups"@);
                    }
                    let e = take_entry(&mut es, i);
                    let new_v = groups_with_names_exec(e.value, &entries);
                    put_entry(&mut es, i, Entry { key: e.key, value: new_v }, Ghost(orig));
                    ConfigValue::Object(es)
                },
                None => ConfigValue::Object(es),
            }
        },
        other => other,
    }
}

} // verus!
