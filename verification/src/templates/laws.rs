//! What the placeholder forms of the template language select.
//!
//! Each law takes plain keywords (see `plain_keyword`) and states what the
//! placeholder parses to and which node names it keeps. What upper-casing
//! makes of the tags is left to `str::to_uppercase`, so the laws take it as
//! a premise (`reads_as`, or the upper case of `ALL-TAG`); a caller gets
//! those premises for given texts from `reads_as_tag`.

use vstd::prelude::*;
use crate::parsers::ProxyConfig;
use crate::templates::apply::wrapped;
use crate::templates::filter::{condition_holds, keeps, lowercase, passes, selected};
use crate::templates::interpolation::{
    all_keywords, keyword_list, reads_as, skip_bytes, spec_to_filter, uppercase, spec_combine, spec_expression, spec_fold, spec_parse, spec_part,
    spec_single, spec_step, spec_top_level, ConditionView, FilterOperator, RuleView,
};
use crate::utils::text::{
    ascii_upper, contains, find, lemma_find, lemma_find_char, lemma_split_free, nonempty, split,
    starts_with, tokens, trim, trim_end, trim_start, white_space,
};

verus! {

broadcast use vstd::seq_lib::group_seq_properties;

/// The chars that the placeholder syntax gives a meaning to.
pub open spec fn special(c: char) -> bool {
    c == ',' || c == '&' || c == '|' || c == ';' || c == '{' || c == '}'
}

/// A keyword as written in a placeholder: not empty, no white space at
/// either end, none of `, & | ; { }`.
pub open spec fn plain_keyword(k: Seq<char>) -> bool {
    &&& k.len() > 0
    &&& !white_space(k[0])
    &&& !white_space(k.last())
    &&& forall|j: int| 0 <= j < k.len() ==> !special(#[trigger] k[j])
}

/// Whether a node name holds a keyword, both in lower case.
pub open spec fn holds(name: Seq<char>, k: Seq<char>) -> bool {
    contains(lowercase(name), lowercase(k))
}

pub open spec fn or_of(ks: Seq<Seq<char>>) -> ConditionView {
    ConditionView { operator: FilterOperator::Or, keywords: ks }
}

pub open spec fn and_of(ks: Seq<Seq<char>>) -> ConditionView {
    ConditionView { operator: FilterOperator::And, keywords: ks }
}

// ---------------------------------------------------------------------
// Text lemmas
// ---------------------------------------------------------------------

proof fn lemma_trim_same(s: Seq<char>)
    requires
        s.len() > 0,
        !white_space(s[0]),
        !white_space(s.last()),
    ensures
        trim(s) == s,
{
    assert(trim_start(s) == s);
    assert(trim_end(s) == s);
}

proof fn lemma_trim_space_after(k: Seq<char>)
    requires
        k.len() > 0,
        !white_space(k[0]),
        !white_space(k.last()),
    ensures
        trim(k.push(' ')) == k,
{
    let s = k.push(' ');
    assert(white_space(' '));
    assert(trim_start(s) == s);
    assert(s.drop_last() =~= k);
    assert(trim_end(k) == k);
}

proof fn lemma_trim_space_before(k: Seq<char>)
    requires
        k.len() > 0,
        !white_space(k[0]),
        !white_space(k.last()),
    ensures
        trim(seq![' '] + k) == k,
{
    let s = seq![' '] + k;
    assert(white_space(' '));
    assert(s.drop_first() =~= k);
    assert(trim_start(k) == k);
    assert(trim_start(s) == k);
    assert(trim_end(k) == k);
}

proof fn lemma_split_two(x: Seq<char>, y: Seq<char>, c: char)
    requires
        forall|j: int| 0 <= j < x.len() ==> x[j] != c,
        forall|j: int| 0 <= j < y.len() ==> y[j] != c,
    ensures
        split(x + seq![c] + y, c) == seq![x, y],
    decreases y.len(),
{
    let s = x + seq![c] + y;
    if y.len() == 0 {
        assert(s.drop_last() =~= x);
        lemma_split_free(x, c);
        assert(seq![x, Seq::<char>::empty()] =~= seq![x, y]);
    } else {
        lemma_split_two(x, y.drop_last(), c);
        assert(s.drop_last() =~= x + seq![c] + y.drop_last());
        assert(y.drop_last().push(y.last()) =~= y);
        assert(split(s, c) =~= seq![x, y]);
    }
}

proof fn lemma_tokens_one(x: Seq<char>, c: char)
    requires
        forall|j: int| 0 <= j < x.len() ==> x[j] != c,
        trim(x).len() > 0,
    ensures
        tokens(x, c) == seq![trim(x)],
{
    lemma_split_free(x, c);
    let m = split(x, c).map_values(|p: Seq<char>| trim(p));
    assert(m =~= seq![trim(x)]);
    reveal_with_fuel(Seq::filter, 2);
    assert(m.filter(|p: Seq<char>| nonempty(p)) =~= seq![trim(x)]);
}

proof fn lemma_tokens_two(x: Seq<char>, y: Seq<char>, c: char)
    requires
        forall|j: int| 0 <= j < x.len() ==> x[j] != c,
        forall|j: int| 0 <= j < y.len() ==> y[j] != c,
        trim(x).len() > 0,
        trim(y).len() > 0,
    ensures
        tokens(x + seq![c] + y, c) == seq![trim(x), trim(y)],
{
    lemma_split_two(x, y, c);
    let m = split(x + seq![c] + y, c).map_values(|p: Seq<char>| trim(p));
    assert(m =~= seq![trim(x), trim(y)]);
    reveal_with_fuel(Seq::filter, 3);
    assert(m.filter(|p: Seq<char>| nonempty(p)) =~= seq![trim(x), trim(y)]);
}

/// A text without `}` holds neither block operator.
proof fn lemma_no_block_operator(e: Seq<char>)
    requires
        forall|j: int| 0 <= j < e.len() ==> e[j] != '}',
    ensures
        spec_top_level(e) is None,
{
    reveal_strlit("} & {");
    reveal_strlit("} | {");
    lemma_find(e, "} & {"@);
    lemma_find(e, "} | {"@);
    if let Some(i) = find(e, "} & {"@) {
        assert(e.skip(i).take(5)[0] == e[i]);
    }
    if let Some(i) = find(e, "} | {"@) {
        assert(e.skip(i).take(5)[0] == e[i]);
    }
}

/// The first bytes of a text that begins with ASCII chars are those
/// chars.
proof fn lemma_skip_ascii(p: Seq<char>, k: Seq<char>)
    requires
        forall|j: int| 0 <= j < p.len() ==> (#[trigger] p[j] as u32) < 0x80,
    ensures
        skip_bytes(p + k, p.len() as int) == Some(k),
    decreases p.len(),
{
    if p.len() == 0 {
        assert(p + k =~= k);
    } else {
        assert((p + k)[0] == p[0]);
        assert((p + k).drop_first() =~= p.drop_first() + k);
        assert forall|j: int| 0 <= j < p.drop_first().len() implies (#[trigger] p.drop_first()[j] as u32) < 0x80 by {
            assert(p.drop_first()[j] == p[j + 1]);
        }
        lemma_skip_ascii(p.drop_first(), k);
    }
}

proof fn lemma_all_tag_upper()
    ensures
        ascii_upper("ALL-TAG"@) == "ALL-TAG"@,
{
    reveal_strlit("ALL-TAG");
    assert(ascii_upper("ALL-TAG"@) =~= "ALL-TAG"@);
}

proof fn lemma_ascii_tags()
    ensures
        forall|j: int| 0 <= j < 12 ==> (#[trigger] "INCLUDE-TAG:"@[j] as u32) < 0x80,
        forall|j: int| 0 <= j < 12 ==> (#[trigger] "EXCLUDE-TAG:"@[j] as u32) < 0x80,
        "INCLUDE-TAG:"@.len() == 12,
        "EXCLUDE-TAG:"@.len() == 12,
        "INCLUDE-TAG"@.len() == 11,
        "EXCLUDE-TAG"@.len() == 11,
{
    reveal_strlit("INCLUDE-TAG:");
    reveal_strlit("EXCLUDE-TAG:");
    reveal_strlit("INCLUDE-TAG");
    reveal_strlit("EXCLUDE-TAG");
}

// ---------------------------------------------------------------------
// Parser lemmas
// ---------------------------------------------------------------------

/// A placeholder's outer braces and trimming aside, it is its body.
proof fn lemma_parse_body(body: Seq<char>)
    requires
        body.len() > 0,
        !white_space(body[0]),
        !white_space(body.last()),
    ensures
        spec_parse(wrapped(body)) == spec_expression(body),
{
    reveal_strlit("{{");
    reveal_strlit("}}");
    let w = wrapped(body);
    assert(w[0] == '{' && w.last() == '}');
    lemma_trim_same(w);
    assert(w.take(2) =~= "{{"@);
    assert(w.skip(w.len() - 2) =~= "}}"@);
    assert(w.subrange(2, w.len() - 2) =~= body);
    lemma_trim_same(body);
}

/// A body without `}` and `;` is one rule block.
proof fn lemma_expression_single(e: Seq<char>)
    requires
        e.len() > 0,
        !white_space(e[0]),
        !white_space(e.last()),
        forall|j: int| 0 <= j < e.len() ==> e[j] != '}' && e[j] != ';',
    ensures
        spec_expression(e) == spec_single(e),
{
    lemma_trim_same(e);
    lemma_no_block_operator(e);
    lemma_tokens_one(e, ';');
}

/// `INCLUDE-TAG:` and keywords.
proof fn lemma_single_include(kw: Seq<char>)
    requires
        kw.len() > 0,
        !white_space(kw[0]),
        !white_space(kw.last()),
        keyword_list(kw).keywords.len() > 0,
        reads_as("INCLUDE-TAG:"@ + kw, "INCLUDE-TAG:"@),
    ensures
        spec_single("INCLUDE-TAG:"@ + kw) == Ok::<RuleView, crate::templates::interpolation::RuleErrorView>(
            RuleView::Filter { is_include: true, conditions: seq![keyword_list(kw)] },
        ),
{
    reveal(spec_single);
    reveal_strlit("INCLUDE-TAG:");
    reveal_strlit("INCLUDE-TAG");
    reveal_strlit("ALL-TAG");
    let t = "INCLUDE-TAG:"@ + kw;
    assert(t[0] == 'I');
    assert(t.last() == kw.last());
    lemma_trim_same(t);
    assert(uppercase(t) != "ALL-TAG"@);
    lemma_ascii_tags();
    lemma_skip_ascii("INCLUDE-TAG:"@, kw);
    lemma_trim_same(kw);
}

/// `EXCLUDE-TAG:` and keywords.
proof fn lemma_single_exclude(kw: Seq<char>)
    requires
        kw.len() > 0,
        !white_space(kw[0]),
        !white_space(kw.last()),
        keyword_list(kw).keywords.len() > 0,
        reads_as("EXCLUDE-TAG:"@ + kw, "EXCLUDE-TAG:"@),
    ensures
        spec_single("EXCLUDE-TAG:"@ + kw) == Ok::<RuleView, crate::templates::interpolation::RuleErrorView>(
            RuleView::Filter { is_include: false, conditions: seq![keyword_list(kw)] },
        ),
{
    reveal(spec_single);
    reveal_strlit("EXCLUDE-TAG:");
    reveal_strlit("EXCLUDE-TAG");
    reveal_strlit("INCLUDE-TAG:");
    reveal_strlit("ALL-TAG");
    let t = "EXCLUDE-TAG:"@ + kw;
    assert(t[0] == 'E');
    assert(t.last() == kw.last());
    lemma_trim_same(t);
    assert(uppercase(t) != "ALL-TAG"@);
    assert(uppercase(t).take(12)[0] != "INCLUDE-TAG:"@[0]);
    lemma_ascii_tags();
    lemma_skip_ascii("EXCLUDE-TAG:"@, kw);
    lemma_trim_same(kw);
}

proof fn lemma_free_of(k: Seq<char>, c: char)
    requires
        plain_keyword(k),
        special(c),
    ensures
        forall|j: int| 0 <= j < k.len() ==> k[j] != c,
{
}

/// `a,b`: one OR condition.
proof fn lemma_keywords_comma(a: Seq<char>, b: Seq<char>)
    requires
        plain_keyword(a),
        plain_keyword(b),
    ensures
        keyword_list(a + ","@ + b) == or_of(seq![a, b]),
{
    reveal_strlit(",");
    let kw = a + ","@ + b;
    assert(kw =~= a + seq![','] + b);
    lemma_find_char(kw, '&');
    lemma_find_char(kw, '|');
    assert forall|j: int| 0 <= j < kw.len() implies kw[j] != '&' && kw[j] != '|' by {
        if j < a.len() {
            assert(kw[j] == a[j]);
        } else if j > a.len() {
            assert(kw[j] == b[j - a.len() - 1]);
        }
    }
    lemma_free_of(a, ',');
    lemma_free_of(b, ',');
    lemma_trim_same(a);
    lemma_trim_same(b);
    lemma_tokens_two(a, b, ',');
}

/// `a & b`: one AND condition.
proof fn lemma_keywords_and(a: Seq<char>, b: Seq<char>)
    requires
        plain_keyword(a),
        plain_keyword(b),
    ensures
        keyword_list(a + " & "@ + b) == and_of(seq![a, b]),
{
    reveal_strlit(" & ");
    let x = a.push(' ');
    let y = seq![' '] + b;
    let kw = a + " & "@ + b;
    assert(kw =~= x + seq!['&'] + y);
    lemma_find_char(kw, '&');
    assert(kw[a.len() as int + 1] == '&');
    lemma_free_of(a, '&');
    lemma_free_of(b, '&');
    assert forall|j: int| 0 <= j < x.len() implies x[j] != '&' by {
        if j < a.len() {
            assert(x[j] == a[j]);
        }
    }
    assert forall|j: int| 0 <= j < y.len() implies y[j] != '&' by {
        if j > 0 {
            assert(y[j] == b[j - 1]);
        }
    }
    lemma_trim_space_after(a);
    lemma_trim_space_before(b);
    lemma_tokens_two(x, y, '&');
}

/// `a | b`: one OR condition.
proof fn lemma_keywords_pipe(a: Seq<char>, b: Seq<char>)
    requires
        plain_keyword(a),
        plain_keyword(b),
    ensures
        keyword_list(a + " | "@ + b) == or_of(seq![a, b]),
{
    reveal_strlit(" | ");
    let x = a.push(' ');
    let y = seq![' '] + b;
    let kw = a + " | "@ + b;
    assert(kw =~= x + seq!['|'] + y);
    lemma_find_char(kw, '&');
    lemma_find_char(kw, '|');
    assert(kw[a.len() as int + 1] == '|');
    assert forall|j: int| 0 <= j < kw.len() implies kw[j] != '&' by {
        if j < a.len() {
            assert(kw[j] == a[j]);
        } else if j > a.len() + 2 {
            assert(kw[j] == b[j - a.len() - 3]);
        }
    }
    lemma_free_of(a, '|');
    lemma_free_of(b, '|');
    assert forall|j: int| 0 <= j < x.len() implies x[j] != '|' by {
        if j < a.len() {
            assert(x[j] == a[j]);
        }
    }
    assert forall|j: int| 0 <= j < y.len() implies y[j] != '|' by {
        if j > 0 {
            assert(y[j] == b[j - 1]);
        }
    }
    lemma_trim_space_after(a);
    lemma_trim_space_before(b);
    lemma_tokens_two(x, y, '|');
}

/// One keyword: one OR condition over it.
proof fn lemma_keywords_one(a: Seq<char>)
    requires
        plain_keyword(a),
    ensures
        keyword_list(a) == or_of(seq![a]),
{
    lemma_find_char(a, '&');
    lemma_find_char(a, '|');
    lemma_free_of(a, ',');
    lemma_trim_same(a);
    lemma_tokens_one(a, ',');
}

// ---------------------------------------------------------------------
// Selection lemmas
// ---------------------------------------------------------------------

proof fn lemma_or_two(name: Seq<char>, a: Seq<char>, b: Seq<char>)
    ensures
        condition_holds(name, or_of(seq![a, b])) <==> holds(name, a) || holds(name, b),
{
    let c = or_of(seq![a, b]);
    assert(c.keywords[0] == a && c.keywords[1] == b);
    if condition_holds(name, c) {
        let i = choose|i: int|
            0 <= i < c.keywords.len() && contains(lowercase(name), lowercase(#[trigger] c.keywords[i]));
        assert(i == 0 || i == 1);
    }
}

proof fn lemma_and_two(name: Seq<char>, a: Seq<char>, b: Seq<char>)
    ensures
        condition_holds(name, and_of(seq![a, b])) <==> holds(name, a) && holds(name, b),
{
    let ks = seq![a, b];
    assert(ks[0] == a && ks[1] == b);
}

proof fn lemma_or_one(name: Seq<char>, a: Seq<char>)
    ensures
        condition_holds(name, or_of(seq![a])) <==> holds(name, a),
{
    let c = or_of(seq![a]);
    assert(c.keywords[0] == a);
    if condition_holds(name, c) {
        let i = choose|i: int|
            0 <= i < c.keywords.len() && contains(lowercase(name), lowercase(#[trigger] c.keywords[i]));
        assert(i == 0);
    }
}

proof fn lemma_passes_one(name: Seq<char>, is_include: bool, c: ConditionView)
    ensures
        passes(name, is_include, seq![c]) <==> (condition_holds(name, c) == is_include),
{
    let cs = seq![c];
    assert(cs[0] == c);
}

// ---------------------------------------------------------------------
// Bodies
// ---------------------------------------------------------------------

/// No `}` and no `;`.
pub open spec fn clean(s: Seq<char>) -> bool {
    forall|j: int| 0 <= j < s.len() ==> s[j] != '}' && s[j] != ';'
}

proof fn lemma_clean_concat(x: Seq<char>, y: Seq<char>)
    requires
        clean(x),
        clean(y),
    ensures
        clean(x + y),
{
    assert forall|j: int| 0 <= j < (x + y).len() implies (x + y)[j] != '}' && (x + y)[j] != ';' by {
        if j >= x.len() {
            assert((x + y)[j] == y[j - x.len()]);
        }
    }
}

proof fn lemma_clean_literals()
    ensures
        clean("INCLUDE-TAG:"@),
        clean("EXCLUDE-TAG:"@),
        clean(","@),
        clean(" & "@),
        clean(" | "@),
{
    reveal_strlit("INCLUDE-TAG:");
    reveal_strlit("EXCLUDE-TAG:");
    reveal_strlit(",");
    reveal_strlit(" & ");
    reveal_strlit(" | ");
}

proof fn lemma_clean_keyword(k: Seq<char>)
    requires
        plain_keyword(k),
    ensures
        clean(k),
{
    assert forall|j: int| 0 <= j < k.len() implies k[j] != '}' && k[j] != ';' by {
        assert(!special(k[j]));
    }
}

/// `p` does not start at `j` where the char there is not its first.
proof fn lemma_no_start(e: Seq<char>, p: Seq<char>, j: int)
    requires
        0 <= j < e.len(),
        p.len() > 0,
        e[j] != p[0],
    ensures
        !starts_with(e.skip(j), p),
{
    if starts_with(e.skip(j), p) {
        assert(e.skip(j).take(p.len() as int)[0] == e[j]);
    }
}

/// Where `p` starts at `i` and nowhere before, `find` gives `i`.
proof fn lemma_find_at(e: Seq<char>, p: Seq<char>, i: int)
    requires
        0 <= i <= e.len(),
        starts_with(e.skip(i), p),
        forall|j: int| 0 <= j < i ==> !starts_with(#[trigger] e.skip(j), p),
    ensures
        find(e, p) == Some(i),
{
    lemma_find(e, p);
    match find(e, p) {
        Some(k) => {
            if k > i {
                assert(!starts_with(e.skip(i), p));
            }
        },
        None => {
            assert(!starts_with(e.skip(i), p));
        },
    }
}

proof fn lemma_filter_all(s: Seq<ProxyConfig>, rule: RuleView)
    requires
        forall|n: Seq<char>| keeps(rule, n),
    ensures
        selected(s, rule) == s,
    decreases s.len(),
{
    if s.len() > 0 {
        lemma_filter_all(s.drop_last(), rule);
        s.drop_last().lemma_filter_push(s.last(), |p: ProxyConfig| keeps(rule, p@.name()));
        assert(s.drop_last().push(s.last()) =~= s);
    } else {
        reveal(Seq::filter);
    }
}

// ---------------------------------------------------------------------
// Laws
// ---------------------------------------------------------------------

/// `{{ALL-TAG}}` parses to ALL-TAG, which selects every node, in order.
pub proof fn law_all_tag(proxies: Seq<ProxyConfig>)
    requires
        uppercase("ALL-TAG"@) == ascii_upper("ALL-TAG"@),
    ensures
        spec_parse("{{ALL-TAG}}"@) == Ok::<RuleView, crate::templates::interpolation::RuleErrorView>(RuleView::AllTag),
        selected(proxies, RuleView::AllTag) == proxies,
{
    reveal_strlit("{{ALL-TAG}}");
    reveal_strlit("{{");
    reveal_strlit("}}");
    reveal_strlit("ALL-TAG");
    let body = "ALL-TAG"@;
    assert("{{ALL-TAG}}"@ =~= wrapped(body));
    lemma_parse_body(body);
    assert(clean(body));
    lemma_expression_single(body);
    reveal(spec_single);
    lemma_trim_same(body);
    lemma_all_tag_upper();
    lemma_filter_all(proxies, RuleView::AllTag);
}

/// `{{INCLUDE-TAG:a,b}}` keeps the nodes whose name holds `a` or `b`.
pub proof fn law_include_any(a: Seq<char>, b: Seq<char>, name: Seq<char>)
    requires
        plain_keyword(a),
        plain_keyword(b),
        reads_as("INCLUDE-TAG:"@ + a + ","@ + b, "INCLUDE-TAG:"@),
    ensures
        spec_parse(wrapped("INCLUDE-TAG:"@ + a + ","@ + b)) == Ok::<RuleView, crate::templates::interpolation::RuleErrorView>(
            RuleView::Filter { is_include: true, conditions: seq![or_of(seq![a, b])] },
        ),
        keeps(RuleView::Filter { is_include: true, conditions: seq![or_of(seq![a, b])] }, name)
            <==> holds(name, a) || holds(name, b),
{
    let kw = a + ","@ + b;
    let body = "INCLUDE-TAG:"@ + kw;
    assert("INCLUDE-TAG:"@ + a + ","@ + b =~= body);
    reveal_strlit("INCLUDE-TAG:");
    reveal_strlit(",");
    lemma_clean_literals();
    lemma_clean_keyword(a);
    lemma_clean_keyword(b);
    lemma_clean_concat(a, ","@);
    lemma_clean_concat(a + ","@, b);
    lemma_clean_concat("INCLUDE-TAG:"@, kw);
    assert(kw[0] == a[0] && kw.last() == b.last());
    assert(body[0] == 'I' && body.last() == b.last());
    lemma_parse_body(body);
    lemma_expression_single(body);
    lemma_keywords_comma(a, b);
    lemma_single_include(kw);
    lemma_passes_one(name, true, or_of(seq![a, b]));
    lemma_or_two(name, a, b);
}

/// `{{INCLUDE-TAG:a & b}}` keeps the nodes whose name holds both.
pub proof fn law_include_all(a: Seq<char>, b: Seq<char>, name: Seq<char>)
    requires
        plain_keyword(a),
        plain_keyword(b),
        reads_as("INCLUDE-TAG:"@ + a + " & "@ + b, "INCLUDE-TAG:"@),
    ensures
        spec_parse(wrapped("INCLUDE-TAG:"@ + a + " & "@ + b)) == Ok::<RuleView, crate::templates::interpolation::RuleErrorView>(
            RuleView::Filter { is_include: true, conditions: seq![and_of(seq![a, b])] },
        ),
        keeps(RuleView::Filter { is_include: true, conditions: seq![and_of(seq![a, b])] }, name)
            <==> holds(name, a) && holds(name, b),
{
    let kw = a + " & "@ + b;
    let body = "INCLUDE-TAG:"@ + kw;
    assert("INCLUDE-TAG:"@ + a + " & "@ + b =~= body);
    reveal_strlit("INCLUDE-TAG:");
    reveal_strlit(" & ");
    lemma_clean_literals();
    lemma_clean_keyword(a);
    lemma_clean_keyword(b);
    lemma_clean_concat(a, " & "@);
    lemma_clean_concat(a + " & "@, b);
    lemma_clean_concat("INCLUDE-TAG:"@, kw);
    assert(kw[0] == a[0] && kw.last() == b.last());
    assert(body[0] == 'I' && body.last() == b.last());
    lemma_parse_body(body);
    lemma_expression_single(body);
    lemma_keywords_and(a, b);
    lemma_single_include(kw);
    lemma_passes_one(name, true, and_of(seq![a, b]));
    lemma_and_two(name, a, b);
}

/// `{{INCLUDE-TAG:a | b}}` keeps the nodes whose name holds `a` or `b`.
pub proof fn law_include_either(a: Seq<char>, b: Seq<char>, name: Seq<char>)
    requires
        plain_keyword(a),
        plain_keyword(b),
        reads_as("INCLUDE-TAG:"@ + a + " | "@ + b, "INCLUDE-TAG:"@),
    ensures
        spec_parse(wrapped("INCLUDE-TAG:"@ + a + " | "@ + b)) == Ok::<RuleView, crate::templates::interpolation::RuleErrorView>(
            RuleView::Filter { is_include: true, conditions: seq![or_of(seq![a, b])] },
        ),
        keeps(RuleView::Filter { is_include: true, conditions: seq![or_of(seq![a, b])] }, name)
            <==> holds(name, a) || holds(name, b),
{
    let kw = a + " | "@ + b;
    let body = "INCLUDE-TAG:"@ + kw;
    assert("INCLUDE-TAG:"@ + a + " | "@ + b =~= body);
    reveal_strlit("INCLUDE-TAG:");
    reveal_strlit(" | ");
    lemma_clean_literals();
    lemma_clean_keyword(a);
    lemma_clean_keyword(b);
    lemma_clean_concat(a, " | "@);
    lemma_clean_concat(a + " | "@, b);
    lemma_clean_concat("INCLUDE-TAG:"@, kw);
    assert(kw[0] == a[0] && kw.last() == b.last());
    assert(body[0] == 'I' && body.last() == b.last());
    lemma_parse_body(body);
    lemma_expression_single(body);
    lemma_keywords_pipe(a, b);
    lemma_single_include(kw);
    lemma_passes_one(name, true, or_of(seq![a, b]));
    lemma_or_two(name, a, b);
}

/// `{{EXCLUDE-TAG:a}}` keeps the nodes whose name does not hold `a`.
pub proof fn law_exclude(a: Seq<char>, name: Seq<char>)
    requires
        plain_keyword(a),
        reads_as("EXCLUDE-TAG:"@ + a, "EXCLUDE-TAG:"@),
    ensures
        spec_parse(wrapped("EXCLUDE-TAG:"@ + a)) == Ok::<RuleView, crate::templates::interpolation::RuleErrorView>(
            RuleView::Filter { is_include: false, conditions: seq![or_of(seq![a])] },
        ),
        keeps(RuleView::Filter { is_include: false, conditions: seq![or_of(seq![a])] }, name)
            <==> !holds(name, a),
{
    let body = "EXCLUDE-TAG:"@ + a;
    reveal_strlit("EXCLUDE-TAG:");
    lemma_clean_literals();
    lemma_clean_keyword(a);
    lemma_clean_concat("EXCLUDE-TAG:"@, a);
    assert(body[0] == 'E' && body.last() == a.last());
    lemma_parse_body(body);
    lemma_expression_single(body);
    lemma_keywords_one(a);
    lemma_single_exclude(a);
    lemma_passes_one(name, false, or_of(seq![a]));
    lemma_or_one(name, a);
}

/// `{{ALL-TAG;EXCLUDE-TAG:a}}` keeps every node whose name does not
/// hold `a`.
pub proof fn law_all_but(a: Seq<char>, name: Seq<char>)
    requires
        plain_keyword(a),
        uppercase("ALL-TAG"@) == ascii_upper("ALL-TAG"@),
        reads_as("EXCLUDE-TAG:"@ + a, "EXCLUDE-TAG:"@),
    ensures
        spec_parse(wrapped("ALL-TAG;EXCLUDE-TAG:"@ + a)) == Ok::<RuleView, crate::templates::interpolation::RuleErrorView>(
            RuleView::Combined { all_tag: true, filters: seq![(false, seq![or_of(seq![a])])] },
        ),
        keeps(RuleView::Combined { all_tag: true, filters: seq![(false, seq![or_of(seq![a])])] }, name)
            <==> !holds(name, a),
{
    reveal_strlit("ALL-TAG;EXCLUDE-TAG:");
    reveal_strlit("ALL-TAG");
    reveal_strlit("ALL-TAG:");
    reveal_strlit("EXCLUDE-TAG:");
    reveal_strlit("EXCLUDE-TAG");
    reveal_strlit("INCLUDE-TAG:");
    let x = "ALL-TAG"@;
    let y = "EXCLUDE-TAG:"@ + a;
    let body = "ALL-TAG;EXCLUDE-TAG:"@ + a;
    assert(body =~= x + seq![';'] + y);
    assert(body[0] == 'A' && body.last() == a.last());
    lemma_parse_body(body);
    // no block operator, two parts
    lemma_clean_keyword(a);
    assert forall|j: int| 0 <= j < body.len() implies body[j] != '}' by {
        if j >= 20 {
            assert(body[j] == a[j - 20]);
        }
    }
    lemma_trim_same(body);
    lemma_no_block_operator(body);
    assert forall|j: int| 0 <= j < y.len() implies y[j] != ';' by {
        if j >= 12 {
            assert(y[j] == a[j - 12]);
        }
    }
    lemma_trim_same(x);
    lemma_trim_same(y);
    lemma_tokens_two(x, y, ';');
    let parts = seq![x, y];
    // the fold over the two parts
    reveal(spec_part);
    lemma_all_tag_upper();
    assert(spec_part(x) == Ok::<Option<(bool, Seq<ConditionView>)>, crate::templates::interpolation::RuleErrorView>(None));
    assert(uppercase(y) != "ALL-TAG"@);
    assert(uppercase(y).take(8)[0] != "ALL-TAG:"@[0]);
    assert(uppercase(y).take(12)[0] != "INCLUDE-TAG:"@[0]);
    lemma_ascii_tags();
    lemma_skip_ascii("EXCLUDE-TAG:"@, a);
    lemma_trim_same(a);
    lemma_keywords_one(a);
    assert(spec_part(y) == Ok::<Option<(bool, Seq<ConditionView>)>, crate::templates::interpolation::RuleErrorView>(
        Some((false, seq![or_of(seq![a])])),
    ));
    assert(parts.drop_last() =~= seq![x]);
    assert(seq![x].drop_last() =~= Seq::<Seq<char>>::empty());
    reveal_with_fuel(spec_fold, 3);
    assert(spec_fold(seq![x]) == spec_step((false, Seq::<(bool, Seq<ConditionView>)>::empty()), x));
    assert(spec_fold(parts) == spec_step(spec_fold(seq![x])->Ok_0, y));
    let fs = seq![(false, seq![or_of(seq![a])])];
    assert(spec_fold(parts) == Ok::<(bool, Seq<(bool, Seq<ConditionView>)>), crate::templates::interpolation::RuleErrorView>(
        (true, Seq::<(bool, Seq<ConditionView>)>::empty().push((false, seq![or_of(seq![a])]))),
    ));
    assert(Seq::<(bool, Seq<ConditionView>)>::empty().push((false, seq![or_of(seq![a])])) =~= fs);
    // what it keeps
    assert(fs[0] == (false, seq![or_of(seq![a])]));
    lemma_passes_one(name, false, or_of(seq![a]));
    lemma_or_one(name, a);
}

/// `l } & { r`, with no `}` in `l`: split at the operator.
proof fn lemma_top_level_and(l: Seq<char>, r: Seq<char>)
    requires
        l.len() > 0,
        !white_space(l[0]),
        !white_space(l.last()),
        r.len() > 0,
        !white_space(r[0]),
        !white_space(r.last()),
        forall|j: int| 0 <= j < l.len() ==> l[j] != '}',
    ensures
        spec_top_level(l + "} & {"@ + r) == Some((l, true, r)),
{
    reveal_strlit("} & {");
    let e = l + "} & {"@ + r;
    let i = l.len() as int;
    assert(e.skip(i).take(5) =~= "} & {"@);
    assert forall|j: int| 0 <= j < i implies !starts_with(#[trigger] e.skip(j), "} & {"@) by {
        assert(e[j] == l[j]);
        lemma_no_start(e, "} & {"@, j);
    }
    lemma_find_at(e, "} & {"@, i);
    assert(e.take(i) =~= l);
    assert(e.skip(i + 5) =~= r);
    lemma_trim_same(l);
    lemma_trim_same(r);
}

/// `l } | { r`, with no `}` in `l` or `r`: split at the operator.
proof fn lemma_top_level_or(l: Seq<char>, r: Seq<char>)
    requires
        l.len() > 0,
        !white_space(l[0]),
        !white_space(l.last()),
        r.len() > 0,
        !white_space(r[0]),
        !white_space(r.last()),
        forall|j: int| 0 <= j < l.len() ==> l[j] != '}',
        forall|j: int| 0 <= j < r.len() ==> r[j] != '}',
    ensures
        spec_top_level(l + "} | {"@ + r) == Some((l, false, r)),
{
    reveal_strlit("} | {");
    reveal_strlit("} & {");
    let e = l + "} | {"@ + r;
    let i = l.len() as int;
    lemma_find(e, "} & {"@);
    assert forall|j: int| 0 <= j <= e.len() implies !starts_with(#[trigger] e.skip(j), "} & {"@) by {
        if j == i {
            if starts_with(e.skip(j), "} & {"@) {
                assert(e.skip(j).take(5)[2] == e[i + 2]);
            }
        } else if j < e.len() {
            if j < i {
                assert(e[j] == l[j]);
            } else if j >= i + 5 {
                assert(e[j] == r[j - i - 5]);
            }
            lemma_no_start(e, "} & {"@, j);
        }
    }
    assert(find(e, "} & {"@) is None);
    assert(e.skip(i).take(5) =~= "} | {"@);
    assert forall|j: int| 0 <= j < i implies !starts_with(#[trigger] e.skip(j), "} | {"@) by {
        assert(e[j] == l[j]);
        lemma_no_start(e, "} | {"@, j);
    }
    lemma_find_at(e, "} | {"@, i);
    assert(e.take(i) =~= l);
    assert(e.skip(i + 5) =~= r);
    lemma_trim_same(l);
    lemma_trim_same(r);
}

/// A prefixed keyword has no `}` and keeps the ends of both.
proof fn lemma_all_keywords_one(c: ConditionView)
    ensures
        all_keywords(seq![c]) == c.keywords,
{
    reveal_with_fuel(all_keywords, 2);
    assert(seq![c].drop_last() =~= Seq::<ConditionView>::empty());
    assert(Seq::<Seq<char>>::empty() + c.keywords =~= c.keywords);
}

/// A body split at a block operator is the two blocks combined.
proof fn lemma_expression_blocks(e: Seq<char>, l: Seq<char>, r: Seq<char>, is_and: bool)
    requires
        trim(e) == e,
        spec_top_level(e) == Some((l, is_and, r)),
        trim(l) == l,
        trim(r) == r,
    ensures
        spec_expression(e) == match spec_single(l) {
            Err(x) => Err(x),
            Ok(lr) => match spec_single(r) {
                Err(x) => Err(x),
                Ok(rr) => spec_combine(lr, rr, is_and),
            },
        },
{
}

proof fn lemma_literal_heads()
    ensures
        clean("INCLUDE-TAG:"@),
        clean("EXCLUDE-TAG:"@),
        "INCLUDE-TAG:"@.len() == 12,
        "EXCLUDE-TAG:"@.len() == 12,
        "INCLUDE-TAG:"@[0] == 'I',
        "EXCLUDE-TAG:"@[0] == 'E',
{
    lemma_clean_literals();
    reveal_strlit("INCLUDE-TAG:");
    reveal_strlit("EXCLUDE-TAG:");
}

proof fn lemma_prefixed(prefix: Seq<char>, k: Seq<char>)
    requires
        clean(prefix),
        prefix.len() > 0,
        !white_space(prefix[0]),
        plain_keyword(k),
    ensures
        forall|j: int| 0 <= j < (prefix + k).len() ==> (prefix + k)[j] != '}',
        (prefix + k)[0] == prefix[0],
        (prefix + k).last() == k.last(),
        (prefix + k).len() > 0,
{
    lemma_clean_keyword(k);
    lemma_clean_concat(prefix, k);
}

/// The parse of `{{INCLUDE-TAG:a} & {EXCLUDE-TAG:b}}`.
proof fn lemma_parse_include_but_not(a: Seq<char>, b: Seq<char>)
    requires
        plain_keyword(a),
        plain_keyword(b),
        reads_as("INCLUDE-TAG:"@ + a, "INCLUDE-TAG:"@),
        reads_as("EXCLUDE-TAG:"@ + b, "EXCLUDE-TAG:"@),
    ensures
        spec_parse(wrapped("INCLUDE-TAG:"@ + a + "} & {EXCLUDE-TAG:"@ + b)) == Ok::<RuleView, crate::templates::interpolation::RuleErrorView>(
            RuleView::Combined {
                all_tag: true,
                filters: seq![(true, seq![or_of(seq![a])]), (false, seq![or_of(seq![b])])],
            },
        ),
{
    let l = "INCLUDE-TAG:"@ + a;
    let r = "EXCLUDE-TAG:"@ + b;
    let e = l + "} & {"@ + r;
    assert("INCLUDE-TAG:"@ + a + "} & {EXCLUDE-TAG:"@ + b =~= e) by {
        reveal_strlit("} & {EXCLUDE-TAG:");
        reveal_strlit("} & {");
        reveal_strlit("EXCLUDE-TAG:");
    }
    lemma_literal_heads();
    lemma_prefixed("INCLUDE-TAG:"@, a);
    lemma_prefixed("EXCLUDE-TAG:"@, b);
    assert(e[0] == l[0] && e.last() == r.last());
    lemma_parse_body(e);
    lemma_trim_same(e);
    lemma_trim_same(l);
    lemma_trim_same(r);
    lemma_top_level_and(l, r);
    lemma_expression_blocks(e, l, r, true);
    lemma_keywords_one(a);
    lemma_keywords_one(b);
    lemma_single_include(a);
    lemma_single_exclude(b);
}

/// `{{INCLUDE-TAG:a} & {EXCLUDE-TAG:b}}` keeps the nodes whose name holds
/// `a` but not `b`.
pub proof fn law_include_but_not(a: Seq<char>, b: Seq<char>, name: Seq<char>)
    requires
        plain_keyword(a),
        plain_keyword(b),
        reads_as("INCLUDE-TAG:"@ + a, "INCLUDE-TAG:"@),
        reads_as("EXCLUDE-TAG:"@ + b, "EXCLUDE-TAG:"@),
    ensures
        spec_parse(wrapped("INCLUDE-TAG:"@ + a + "} & {EXCLUDE-TAG:"@ + b)) == Ok::<RuleView, crate::templates::interpolation::RuleErrorView>(
            RuleView::Combined {
                all_tag: true,
                filters: seq![(true, seq![or_of(seq![a])]), (false, seq![or_of(seq![b])])],
            },
        ),
        keeps(
            RuleView::Combined {
                all_tag: true,
                filters: seq![(true, seq![or_of(seq![a])]), (false, seq![or_of(seq![b])])],
            },
            name,
        ) <==> holds(name, a) && !holds(name, b),
{
    lemma_parse_include_but_not(a, b);
    let fs = seq![(true, seq![or_of(seq![a])]), (false, seq![or_of(seq![b])])];
    assert(fs[0] == (true, seq![or_of(seq![a])]) && fs[1] == (false, seq![or_of(seq![b])]));
    lemma_passes_one(name, true, or_of(seq![a]));
    lemma_passes_one(name, false, or_of(seq![b]));
    lemma_or_one(name, a);
    lemma_or_one(name, b);
}

/// The parse of `{{INCLUDE-TAG:a} | {INCLUDE-TAG:b}}`.
#[verifier::spinoff_prover]
#[verifier::rlimit(80)]
proof fn lemma_parse_include_either_block(a: Seq<char>, b: Seq<char>)
    requires
        plain_keyword(a),
        plain_keyword(b),
        reads_as("INCLUDE-TAG:"@ + a, "INCLUDE-TAG:"@),
        reads_as("INCLUDE-TAG:"@ + b, "INCLUDE-TAG:"@),
    ensures
        spec_parse(wrapped("INCLUDE-TAG:"@ + a + "} | {INCLUDE-TAG:"@ + b)) == Ok::<RuleView, crate::templates::interpolation::RuleErrorView>(
            RuleView::Filter { is_include: true, conditions: seq![or_of(seq![a, b])] },
        ),
{
    let l = "INCLUDE-TAG:"@ + a;
    let r = "INCLUDE-TAG:"@ + b;
    let e = l + "} | {"@ + r;
    assert("INCLUDE-TAG:"@ + a + "} | {INCLUDE-TAG:"@ + b =~= e) by {
        reveal_strlit("} | {INCLUDE-TAG:");
        reveal_strlit("} | {");
        reveal_strlit("INCLUDE-TAG:");
    }
    lemma_literal_heads();
    lemma_prefixed("INCLUDE-TAG:"@, a);
    lemma_prefixed("INCLUDE-TAG:"@, b);
    assert(e[0] == l[0] && e.last() == r.last());
    lemma_parse_body(e);
    lemma_trim_same(e);
    lemma_trim_same(l);
    lemma_trim_same(r);
    lemma_top_level_or(l, r);
    lemma_expression_blocks(e, l, r, false);
    lemma_keywords_one(a);
    lemma_keywords_one(b);
    lemma_single_include(a);
    lemma_single_include(b);
    lemma_all_keywords_one(or_of(seq![a]));
    lemma_all_keywords_one(or_of(seq![b]));
    assert(seq![a] + seq![b] =~= seq![a, b]);
}

/// `{{INCLUDE-TAG:a} | {INCLUDE-TAG:b}}` keeps the nodes whose name holds
/// `a` or `b`.
pub proof fn law_include_either_block(a: Seq<char>, b: Seq<char>, name: Seq<char>)
    requires
        plain_keyword(a),
        plain_keyword(b),
        reads_as("INCLUDE-TAG:"@ + a, "INCLUDE-TAG:"@),
        reads_as("INCLUDE-TAG:"@ + b, "INCLUDE-TAG:"@),
    ensures
        spec_parse(wrapped("INCLUDE-TAG:"@ + a + "} | {INCLUDE-TAG:"@ + b)) == Ok::<RuleView, crate::templates::interpolation::RuleErrorView>(
            RuleView::Filter { is_include: true, conditions: seq![or_of(seq![a, b])] },
        ),
        keeps(RuleView::Filter { is_include: true, conditions: seq![or_of(seq![a, b])] }, name)
            <==> holds(name, a) || holds(name, b),
{
    lemma_parse_include_either_block(a, b);
    lemma_passes_one(name, true, or_of(seq![a, b]));
    lemma_or_two(name, a, b);
}

/// Selecting again with the same rule changes nothing.
pub proof fn law_selection_idempotent(proxies: Seq<ProxyConfig>, rule: RuleView)
    ensures
        selected(selected(proxies, rule), rule) == selected(proxies, rule),
    decreases proxies.len(),
{
    let f = |p: ProxyConfig| keeps(rule, p@.name());
    if proxies.len() == 0 {
        reveal(Seq::filter);
    } else {
        let init = proxies.drop_last();
        let x = proxies.last();
        law_selection_idempotent(init, rule);
        assert(init.push(x) =~= proxies);
        init.lemma_filter_push(x, f);
        if f(x) {
            init.filter(f).lemma_filter_push(x, f);
        }
    }
}

/// The same condition as INCLUDE and as EXCLUDE splits the nodes in two:
/// each node is selected by exactly one of them.
pub proof fn law_include_exclude_split(proxies: Seq<ProxyConfig>, c: ConditionView)
    ensures
        selected(proxies, RuleView::Filter { is_include: true, conditions: seq![c] }).len()
            + selected(proxies, RuleView::Filter { is_include: false, conditions: seq![c] }).len()
            == proxies.len(),
        forall|name: Seq<char>|
            keeps(RuleView::Filter { is_include: true, conditions: seq![c] }, name) != keeps(
                RuleView::Filter { is_include: false, conditions: seq![c] },
                name,
            ),
    decreases proxies.len(),
{
    let inc = RuleView::Filter { is_include: true, conditions: seq![c] };
    let exc = RuleView::Filter { is_include: false, conditions: seq![c] };
    assert forall|name: Seq<char>| keeps(inc, name) != keeps(exc, name) by {
        lemma_passes_one(name, true, c);
        lemma_passes_one(name, false, c);
    }
    if proxies.len() == 0 {
        reveal(Seq::filter);
    } else {
        let init = proxies.drop_last();
        let x = proxies.last();
        law_include_exclude_split(init, c);
        assert(init.push(x) =~= proxies);
        init.lemma_filter_push(x, |p: ProxyConfig| keeps(inc, p@.name()));
        init.lemma_filter_push(x, |p: ProxyConfig| keeps(exc, p@.name()));
        assert(keeps(inc, x@.name()) != keeps(exc, x@.name()));
    }
}

/// The parse of `{{EXCLUDE-TAG:a} | {EXCLUDE-TAG:b}}`.
#[verifier::spinoff_prover]
#[verifier::rlimit(80)]
proof fn lemma_parse_exclude_either_block(a: Seq<char>, b: Seq<char>)
    requires
        plain_keyword(a),
        plain_keyword(b),
        reads_as("EXCLUDE-TAG:"@ + a, "EXCLUDE-TAG:"@),
        reads_as("EXCLUDE-TAG:"@ + b, "EXCLUDE-TAG:"@),
    ensures
        spec_parse(wrapped("EXCLUDE-TAG:"@ + a + "} | {EXCLUDE-TAG:"@ + b)) == Ok::<RuleView, crate::templates::interpolation::RuleErrorView>(
            RuleView::Filter { is_include: false, conditions: seq![or_of(seq![a, b])] },
        ),
{
    let l = "EXCLUDE-TAG:"@ + a;
    let r = "EXCLUDE-TAG:"@ + b;
    let e = l + "} | {"@ + r;
    assert("EXCLUDE-TAG:"@ + a + "} | {EXCLUDE-TAG:"@ + b =~= e) by {
        reveal_strlit("} | {EXCLUDE-TAG:");
        reveal_strlit("} | {");
        reveal_strlit("EXCLUDE-TAG:");
    }
    lemma_literal_heads();
    lemma_prefixed("EXCLUDE-TAG:"@, a);
    lemma_prefixed("EXCLUDE-TAG:"@, b);
    assert(e[0] == l[0] && e.last() == r.last());
    lemma_parse_body(e);
    lemma_trim_same(e);
    lemma_trim_same(l);
    lemma_trim_same(r);
    lemma_top_level_or(l, r);
    lemma_expression_blocks(e, l, r, false);
    lemma_keywords_one(a);
    lemma_keywords_one(b);
    lemma_single_exclude(a);
    lemma_single_exclude(b);
    lemma_all_keywords_one(or_of(seq![a]));
    lemma_all_keywords_one(or_of(seq![b]));
    assert(seq![a] + seq![b] =~= seq![a, b]);
}

/// `{{EXCLUDE-TAG:a} | {EXCLUDE-TAG:b}}` stays an EXCLUDE rule: it keeps
/// the nodes whose name holds neither `a` nor `b`.
pub proof fn law_exclude_either_block(a: Seq<char>, b: Seq<char>, name: Seq<char>)
    requires
        plain_keyword(a),
        plain_keyword(b),
        reads_as("EXCLUDE-TAG:"@ + a, "EXCLUDE-TAG:"@),
        reads_as("EXCLUDE-TAG:"@ + b, "EXCLUDE-TAG:"@),
    ensures
        spec_parse(wrapped("EXCLUDE-TAG:"@ + a + "} | {EXCLUDE-TAG:"@ + b)) == Ok::<RuleView, crate::templates::interpolation::RuleErrorView>(
            RuleView::Filter { is_include: false, conditions: seq![or_of(seq![a, b])] },
        ),
        keeps(RuleView::Filter { is_include: false, conditions: seq![or_of(seq![a, b])] }, name)
            <==> !holds(name, a) && !holds(name, b),
{
    lemma_parse_exclude_either_block(a, b);
    lemma_passes_one(name, false, or_of(seq![a, b]));
    lemma_or_two(name, a, b);
}

/// Two blocks joined by `|` that are both INCLUDE, or both EXCLUDE, give
/// one rule of that same kind: a single OR condition over the keywords of
/// the left block and then of the right.
pub proof fn law_or_blocks_keep_kind(l: RuleView, r: RuleView, is_include: bool)
    requires
        spec_to_filter(l) matches Ok(lf) && lf.0 == is_include,
        spec_to_filter(r) matches Ok(rf) && rf.0 == is_include,
    ensures
        spec_combine(l, r, false) matches Ok(RuleView::Filter { is_include: k, conditions: cs }) && k
            == is_include && cs.len() == 1 && cs[0].operator == FilterOperator::Or
            && cs[0].keywords == all_keywords(spec_to_filter(l)->Ok_0.1) + all_keywords(
            spec_to_filter(r)->Ok_0.1,
        ),
{
}

/// Two blocks joined by `|` where one is INCLUDE and the other EXCLUDE are
/// refused: such an OR has no single kind.
pub proof fn law_or_blocks_mixed_refused(l: RuleView, r: RuleView)
    requires
        spec_to_filter(l) is Ok,
        spec_to_filter(r) is Ok,
        spec_to_filter(l)->Ok_0.0 != spec_to_filter(r)->Ok_0.0,
    ensures
        spec_combine(l, r, false) == Err::<RuleView, crate::templates::interpolation::RuleErrorView>(
            crate::templates::interpolation::RuleErrorView::MixedIncludeExclude,
        ),
{
}

} // verus!
