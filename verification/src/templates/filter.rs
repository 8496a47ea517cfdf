//! Which nodes a placeholder selects.

use vstd::prelude::*;
use crate::parsers::ProxyConfig;
use crate::templates::interpolation::{
    ConditionView, FilterCondition, FilterOperator, InterpolationRule, RuleView, conditions_view,
    filters_view,
};
use crate::utils::text::{ascii_lower, is_ascii_text, contains, contains_chars, str_chars, string_views};

verus! {

broadcast use vstd::seq_lib::group_seq_properties;

/// The lower case of a string as `str::to_lowercase` gives it (Unicode
/// `Lowercase` mapping), a function of the text alone.
pub uninterp spec fn lowercase(s: Seq<char>) -> Seq<char>;

/// Calls `str::to_lowercase`; the contract names its result
/// `lowercase(s)`, and states what std documents for ASCII text: its
/// letters are lowered as `to_ascii_lowercase` does, other chars kept.
#[verifier::external_body]
pub(crate) fn to_lowercase(s: &str) -> (res: String)
    ensures
        res@ == lowercase(s@),
        !is_ascii_text(s@) || res@ == ascii_lower(s@),
{
    s.to_lowercase()
}

/// Whether a node name meets a condition: with `And` its lower case holds
/// the lower case of every keyword, with `Or` of at least one.
pub open spec fn condition_holds(name: Seq<char>, c: ConditionView) -> bool {
    match c.operator {
        FilterOperator::And => forall|i: int|
            0 <= i < c.keywords.len() ==> contains(lowercase(name), lowercase(#[trigger] c.keywords[i])),
        FilterOperator::Or => exists|i: int|
            0 <= i < c.keywords.len() && contains(lowercase(name), lowercase(#[trigger] c.keywords[i])),
    }
}

/// Whether a node passes a filter: every condition holds (INCLUDE) or
/// fails (EXCLUDE).
pub open spec fn passes(name: Seq<char>, is_include: bool, conds: Seq<ConditionView>) -> bool {
    forall|j: int| 0 <= j < conds.len() ==> condition_holds(name, #[trigger] conds[j]) == is_include
}

/// Whether a rule keeps a node: ALL-TAG keeps every node, a filter those
/// that pass it, a combined rule those that pass each of its filters.
pub open spec fn keeps(rule: RuleView, name: Seq<char>) -> bool {
    match rule {
        RuleView::AllTag => true,
        RuleView::Filter { is_include, conditions } => passes(name, is_include, conditions),
        RuleView::Combined { all_tag, filters } => forall|k: int|
            0 <= k < filters.len() ==> passes(name, (#[trigger] filters[k]).0, filters[k].1),
    }
}

/// Whether the lowered name holds the lower case of a keyword.
fn name_has_keyword(lower_name: &Vec<char>, keyword: &String, Ghost(name): Ghost<Seq<char>>) -> (res: bool)
    requires
        lower_name@ == lowercase(name),
    ensures
        res == contains(lowercase(name), lowercase(keyword@)),
{
    let k = to_lowercase(keyword.as_str());
    let kc = str_chars(k.as_str());
    contains_chars(lower_name.as_slice(), kc.as_slice())
}

/// Whether a node name meets a condition.
fn condition_matches(lower_name: &Vec<char>, c: &FilterCondition, Ghost(name): Ghost<Seq<char>>) -> (res: bool)
    requires
        lower_name@ == lowercase(name),
    ensures
        res == condition_holds(name, c@),
{
    let ks = &c.keywords;
    let ghost kv = string_views(ks@);
    let mut i: usize = 0;
    match c.operator {
        FilterOperator::And => {
            while i < ks.len()
                invariant
                    c@.operator == FilterOperator::And,
                    i <= ks.len(),
                    lower_name@ == lowercase(name),
                    kv == string_views(ks@),
                    kv == c@.keywords,
                    forall|j: int| 0 <= j < i ==> contains(lowercase(name), lowercase(#[trigger] kv[j])),
                decreases ks.len() - i,
            {
                if !name_has_keyword(lower_name, &ks[i], Ghost(name)) {
                    assert(!contains(lowercase(name), lowercase(c@.keywords[i as int])));
                    return false;
                }
                i = i + 1;
            }
            true
        },
        FilterOperator::Or => {
            while i < ks.len()
                invariant
                    c@.operator == FilterOperator::Or,
                    i <= ks.len(),
                    lower_name@ == lowercase(name),
                    kv == string_views(ks@),
                    kv == c@.keywords,
                    forall|j: int| 0 <= j < i ==> !contains(lowercase(name), lowercase(#[trigger] kv[j])),
                decreases ks.len() - i,
            {
                if name_has_keyword(lower_name, &ks[i], Ghost(name)) {
                    assert(contains(lowercase(name), lowercase(c@.keywords[i as int])));
                    return true;
                }
                i = i + 1;
            }
            false
        },
    }
}

/// Whether a node name passes a filter.
fn passes_filter(lower_name: &Vec<char>, is_include: bool, conds: &Vec<FilterCondition>, Ghost(name): Ghost<Seq<char>>) -> (res: bool)
    requires
        lower_name@ == lowercase(name),
    ensures
        res == passes(name, is_include, conditions_view(conds@)),
{
    let ghost cv = conditions_view(conds@);
    let mut j: usize = 0;
    while j < conds.len()
        invariant
            j <= conds.len(),
            lower_name@ == lowercase(name),
            cv == conditions_view(conds@),
            forall|k: int| 0 <= k < j ==> condition_holds(name, #[trigger] cv[k]) == is_include,
        decreases conds.len() - j,
    {
        if condition_matches(lower_name, &conds[j], Ghost(name)) != is_include {
            assert(condition_holds(name, cv[j as int]) != is_include);
            return false;
        }
        j = j + 1;
    }
    true
}

/// Whether a rule keeps a node.
pub fn rule_keeps(rule: &InterpolationRule, name: &str) -> (res: bool)
    ensures
        res == keeps(rule@, name@),
{
    let lower = to_lowercase(name);
    let lower_name = str_chars(lower.as_str());
    match rule {
        InterpolationRule::AllTag => true,
        InterpolationRule::Filter { is_include, conditions } => passes_filter(
            &lower_name,
            *is_include,
            conditions,
            Ghost(name@),
        ),
        InterpolationRule::Combined { all_tag, filters } => {
            let ghost fv = filters_view(filters@);
            let mut k: usize = 0;
            while k < filters.len()
                invariant
                    k <= filters.len(),
                    lower_name@ == lowercase(name@),
                    fv == filters_view(filters@),
                    rule@ == (RuleView::Combined { all_tag: *all_tag, filters: fv }),
                    forall|m: int| 0 <= m < k ==> passes(name@, (#[trigger] fv[m]).0, fv[m].1),
                decreases filters.len() - k,
            {
                assert(fv[k as int] == (filters@[k as int].0, conditions_view(filters@[k as int].1@)));
                if !passes_filter(&lower_name, filters[k].0, &filters[k].1, Ghost(name@)) {
                    assert(!passes(name@, fv[k as int].0, fv[k as int].1));
                    assert(0 <= k < fv.len());
                    assert(rule@->filters == fv);
                    assert(!keeps(rule@, name@));
                    return false;
                }
                k = k + 1;
            }
            true
        },
    }
}

/// The nodes a rule keeps, in their order.
pub open spec fn selected(proxies: Seq<ProxyConfig>, rule: RuleView) -> Seq<ProxyConfig> {
    proxies.filter(|p: ProxyConfig| keeps(rule, p@.name()))
}

/// The nodes that a placeholder rule selects, in their order.
pub fn filter_proxies_by_rule<'a>(proxies: &'a [ProxyConfig], rule: &InterpolationRule) -> (res: Vec<&'a ProxyConfig>)
    ensures
        res@.unref() == selected(proxies@, rule@),
{
    let mut res: Vec<&'a ProxyConfig> = Vec::new();
    let mut i: usize = 0;
    while i < proxies.len()
        invariant
            i <= proxies.len(),
            res@.unref() == selected(proxies@.take(i as int), rule@),
        decreases proxies.len() - i,
    {
        let p = &proxies[i];
        let ghost before = res@.unref();
        proof {
            proxies@.take(i as int).lemma_filter_push(proxies@[i as int], |p: ProxyConfig| keeps(rule@, p@.name()));
        }
        assert(proxies@.take(i + 1) =~= proxies@.take(i as int).push(proxies@[i as int]));
        if rule_keeps(rule, p.name()) {
            res.push(p);
            assert(res@.unref() =~= before.push(*p));
        } else {
            assert(res@.unref() =~= before);
        }
        i = i + 1;
    }
    assert(proxies@.take(proxies.len() as int) =~= proxies@);
    res
}

} // verus!
