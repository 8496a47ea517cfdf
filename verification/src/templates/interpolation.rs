//! The placeholder language of configuration templates.
//!
//! - `{{ALL-TAG}}`: every node
//! - `{{INCLUDE-TAG:a & b}}` / `{{EXCLUDE-TAG:a & b}}`: nodes whose name holds all keywords
//! - `{{INCLUDE-TAG:a | b}}` or `{{INCLUDE-TAG:a,b}}`: nodes whose name holds one of them
//! - `{{ALL-TAG;INCLUDE-TAG:a}}`: several filters applied one after the other
//! - `{{INCLUDE-TAG:a} & {EXCLUDE-TAG:b}}`, `{{INCLUDE-TAG:a} | {INCLUDE-TAG:b}}`: two
//!   rule blocks joined by an operator

use vstd::prelude::*;
use vstd::slice::slice_subrange;
use vstd::string::StringExecFns;
use crate::utils::text::{
chars_to_string, ends_with, find, find_char, has_char, lemma_find, matches_at,
    starts_with, str_chars, string_views, tokens, tokens_of, trim, trim_bounds, trim_chars,
    views, find_chars, lemma_find_bound, ascii_upper, is_ascii_text,
};

verus! {

broadcast use vstd::seq_lib::group_seq_properties;

/// The upper case of a string as `str::to_uppercase` gives it (Unicode
/// `Uppercase` mapping), a function of the text alone.
pub uninterp spec fn uppercase(s: Seq<char>) -> Seq<char>;

/// Calls `str::to_uppercase`; the contract names its result
/// `uppercase(s)`, and states two things std documents: the text is
/// upper-cased char by char, so the upper case of a text is that of any
/// prefix followed by that of the rest; and ASCII letters are raised as
/// `to_ascii_uppercase` does, other ASCII chars kept.
#[verifier::external_body]
fn to_uppercase(s: &str) -> (res: String)
    ensures
        res@ == uppercase(s@),
        !is_ascii_text(s@) || res@ == ascii_upper(s@),
        forall|k: int| 0 <= k <= s@.len() ==> res@ == #[trigger] uppercase(s@.take(k)) + uppercase(s@.skip(k)),
{
    s.to_uppercase()
}

/// Whether the upper case of a text (as `str::to_uppercase` gives it)
/// begins with a tag.
pub open spec fn reads_as(text: Seq<char>, tag: Seq<char>) -> bool {
    starts_with(uppercase(text), tag)
}

/// Whether the upper case of `text` begins with `tag`. A text that begins
/// with an ASCII tag in upper case does, and an ASCII text's upper case is
/// its ASCII upper case: with these, the laws of the placeholder forms
/// apply to given texts.
pub fn reads_as_tag(text: &str, tag: &str) -> (res: bool)
    ensures
        res == reads_as(text@, tag@),
        is_ascii_text(tag@) && ascii_upper(tag@) == tag@ && starts_with(text@, tag@) ==> res,
        is_ascii_text(text@) ==> uppercase(text@) == ascii_upper(text@),
{
    let u = to_uppercase(text);
    let g = to_uppercase(tag);
    proof {
        let k = tag@.len() as int;
        if starts_with(text@, tag@) {
            assert(text@.take(k) == tag@);
            assert(u@ == uppercase(text@.take(k)) + uppercase(text@.skip(k)));
        }
    }
    let uc = str_chars(u.as_str());
    let r = begins_with(&uc, tag);
    proof {
        if is_ascii_text(tag@) && ascii_upper(tag@) == tag@ && starts_with(text@, tag@) {
            let k = tag@.len() as int;
            assert(g@ == tag@);
            assert(uc@.take(k) =~= tag@);
        }
    }
    r
}

/// How the keywords of a condition combine.
#[derive(Debug, Clone, Copy, PartialEq, Eq, Structural)]
pub enum FilterOperator {
    And,
    Or,
}

/// One filter condition: an operator over keywords.
#[derive(Debug, Clone, PartialEq)]
pub struct FilterCondition {
    pub operator: FilterOperator,
    pub keywords: Vec<String>,
}

/// A parsed placeholder.
#[derive(Debug, Clone, PartialEq)]
pub enum InterpolationRule {
    /// Every node.
    AllTag,
    /// Nodes kept (`is_include`) or dropped (`!is_include`) by every condition.
    Filter { is_include: bool, conditions: Vec<FilterCondition> },
    /// Filters applied one after the other; each pair is (is_include, conditions).
    Combined { all_tag: bool, filters: Vec<(bool, Vec<FilterCondition>)> },
}

/// Why a placeholder was refused.
#[derive(Debug, Clone, PartialEq)]
pub enum RuleError {
    /// The trimmed text is not wrapped with `{{` and `}}`.
    NotWrapped(String),
    /// Nothing between the braces.
    EmptyRule,
    /// A combined rule with neither ALL-TAG nor a filter.
    InvalidRule,
    /// A part that is none of ALL-TAG, INCLUDE-TAG, EXCLUDE-TAG.
    UnknownRule(String),
    /// INCLUDE-TAG / EXCLUDE-TAG (the payload) with no keyword.
    MissingKeywords(String),
    /// INCLUDE-TAG / EXCLUDE-TAG (the payload) whose keyword text, taken at
    /// the byte offset the tag has in the upper-cased rule, would start
    /// inside a char or past the end of the rule.
    UnalignedKeywords(String),
    /// ALL-TAG on one side of `} & {` or `} | {`.
    AllTagInExpression,
    /// A combined rule on one side of `} & {` or `} | {`.
    ComplexCombined,
    /// `} | {` between an INCLUDE and an EXCLUDE block.
    MixedIncludeExclude,
}

/// Parser for placeholders.
pub struct InterpolationParser;

// ---------------------------------------------------------------------
// Mathematical model
// ---------------------------------------------------------------------

pub struct ConditionView {
    pub operator: FilterOperator,
    pub keywords: Seq<Seq<char>>,
}

pub enum RuleView {
    AllTag,
    Filter { is_include: bool, conditions: Seq<ConditionView> },
    Combined { all_tag: bool, filters: Seq<(bool, Seq<ConditionView>)> },
}

pub enum RuleErrorView {
    NotWrapped(Seq<char>),
    EmptyRule,
    InvalidRule,
    UnknownRule(Seq<char>),
    MissingKeywords(Seq<char>),
    UnalignedKeywords(Seq<char>),
    AllTagInExpression,
    ComplexCombined,
    MixedIncludeExclude,
}

impl View for FilterCondition {
    type V = ConditionView;

    open spec fn view(&self) -> ConditionView {
        ConditionView { operator: self.operator, keywords: string_views(self.keywords@) }
    }
}

pub open spec fn conditions_view(c: Seq<FilterCondition>) -> Seq<ConditionView> {
    c.map_values(|x: FilterCondition| x@)
}

pub open spec fn filters_view(f: Seq<(bool, Vec<FilterCondition>)>) -> Seq<(bool, Seq<ConditionView>)> {
    f.map_values(|x: (bool, Vec<FilterCondition>)| (x.0, conditions_view(x.1@)))
}

impl View for InterpolationRule {
    type V = RuleView;

    open spec fn view(&self) -> RuleView {
        match self {
            InterpolationRule::AllTag => RuleView::AllTag,
            InterpolationRule::Filter { is_include, conditions } => RuleView::Filter {
                is_include: *is_include,
                conditions: conditions_view(conditions@),
            },
            InterpolationRule::Combined { all_tag, filters } => RuleView::Combined {
                all_tag: *all_tag,
                filters: filters_view(filters@),
            },
        }
    }
}

impl View for RuleError {
    type V = RuleErrorView;

    open spec fn view(&self) -> RuleErrorView {
        match self {
            RuleError::NotWrapped(s) => RuleErrorView::NotWrapped(s@),
            RuleError::EmptyRule => RuleErrorView::EmptyRule,
            RuleError::InvalidRule => RuleErrorView::InvalidRule,
            RuleError::UnknownRule(s) => RuleErrorView::UnknownRule(s@),
            RuleError::MissingKeywords(s) => RuleErrorView::MissingKeywords(s@),
            RuleError::UnalignedKeywords(s) => RuleErrorView::UnalignedKeywords(s@),
            RuleError::AllTagInExpression => RuleErrorView::AllTagInExpression,
            RuleError::ComplexCombined => RuleErrorView::ComplexCombined,
            RuleError::MixedIncludeExclude => RuleErrorView::MixedIncludeExclude,
        }
    }
}

pub open spec fn result_view<T: View, E: View>(r: Result<T, E>) -> Result<T::V, E::V> {
    match r {
        Ok(x) => Ok(x@),
        Err(e) => Err(e@),
    }
}

/// The operator and keywords written after `INCLUDE-TAG:` / `EXCLUDE-TAG:`:
/// `&` makes an AND list, else `|` an OR list, else `,` an OR list.
pub open spec fn keyword_list(kw: Seq<char>) -> ConditionView {
    if find_char(kw, '&') is Some {
        ConditionView { operator: FilterOperator::And, keywords: tokens(kw, '&') }
    } else if find_char(kw, '|') is Some {
        ConditionView { operator: FilterOperator::Or, keywords: tokens(kw, '|') }
    } else {
        ConditionView { operator: FilterOperator::Or, keywords: tokens(kw, ',') }
    }
}

/// How many bytes UTF-8 takes for a char.
pub open spec fn utf8_width(c: char) -> int {
    if (c as u32) < 0x80 {
        1
    } else if (c as u32) < 0x800 {
        2
    } else if (c as u32) < 0x10000 {
        3
    } else {
        4
    }
}

/// The text after its first `n` bytes of UTF-8, where `n` bytes end on a
/// char boundary within the text.
pub open spec fn skip_bytes(s: Seq<char>, n: int) -> Option<Seq<char>>
    decreases s.len(),
{
    if n <= 0 {
        Some(s)
    } else if s.len() == 0 {
        None
    } else if utf8_width(s[0]) <= n {
        skip_bytes(s.drop_first(), n - utf8_width(s[0]))
    } else {
        None
    }
}

/// The conditions of a rule whose upper case begins with `rule_type` and a
/// colon: the keyword text is the rule after as many bytes as the tag and
/// its colon take.
pub open spec fn spec_conditions(rule: Seq<char>, rule_type: Seq<char>) -> Result<
    Seq<ConditionView>,
    RuleErrorView,
> {
    match skip_bytes(rule, rule_type.len() as int + 1) {
        None => Err(RuleErrorView::UnalignedKeywords(rule_type)),
        Some(kw) => if trim(kw).len() == 0 {
            Err(RuleErrorView::MissingKeywords(rule_type))
        } else if keyword_list(kw).keywords.len() == 0 {
            Err(RuleErrorView::MissingKeywords(rule_type))
        } else {
            Ok(seq![keyword_list(kw)])
        },
    }
}

/// One rule block (no `;`).
#[verifier::opaque]
pub open spec fn spec_single(rule: Seq<char>) -> Result<RuleView, RuleErrorView> {
    let r = trim(rule);
    let u = uppercase(r);
    if u == "ALL-TAG"@ {
        Ok(RuleView::AllTag)
    } else if starts_with(u, "INCLUDE-TAG:"@) {
        match spec_conditions(r, "INCLUDE-TAG"@) {
            Ok(c) => Ok(RuleView::Filter { is_include: true, conditions: c }),
            Err(e) => Err(e),
        }
    } else if starts_with(u, "EXCLUDE-TAG:"@) {
        match spec_conditions(r, "EXCLUDE-TAG"@) {
            Ok(c) => Ok(RuleView::Filter { is_include: false, conditions: c }),
            Err(e) => Err(e),
        }
    } else if starts_with(u, "ALL-TAG:"@) {
        Ok(RuleView::AllTag)
    } else {
        Err(RuleErrorView::UnknownRule(r))
    }
}

/// What one part of a `;`-combined rule contributes: `None` for ALL-TAG,
/// else a filter (is_include, conditions).
#[verifier::opaque]
pub open spec fn spec_part(part: Seq<char>) -> Result<
    Option<(bool, Seq<ConditionView>)>,
    RuleErrorView,
> {
    let u = uppercase(part);
    if u == "ALL-TAG"@ || starts_with(u, "ALL-TAG:"@) {
        Ok(None)
    } else if starts_with(u, "INCLUDE-TAG:"@) {
        match spec_conditions(part, "INCLUDE-TAG"@) {
            Ok(c) => Ok(Some((true, c))),
            Err(e) => Err(e),
        }
    } else if starts_with(u, "EXCLUDE-TAG:"@) {
        match spec_conditions(part, "EXCLUDE-TAG"@) {
            Ok(c) => Ok(Some((false, c))),
            Err(e) => Err(e),
        }
    } else {
        Err(RuleErrorView::UnknownRule(part))
    }
}

/// One part of a `;`-combined rule folded into (all_tag, filters).
pub open spec fn spec_step(acc: (bool, Seq<(bool, Seq<ConditionView>)>), part: Seq<char>) -> Result<
    (bool, Seq<(bool, Seq<ConditionView>)>),
    RuleErrorView,
> {
    match spec_part(part) {
        Err(e) => Err(e),
        Ok(None) => Ok((true, acc.1)),
        Ok(Some(f)) => Ok((acc.0, acc.1.push(f))),
    }
}

/// The parts of a `;`-combined rule folded from left to right; the first
/// refused part gives the error.
pub open spec fn spec_fold(parts: Seq<Seq<char>>) -> Result<
    (bool, Seq<(bool, Seq<ConditionView>)>),
    RuleErrorView,
>
    decreases parts.len(),
{
    if parts.len() == 0 {
        Ok((false, Seq::empty()))
    } else {
        match spec_fold(parts.drop_last()) {
            Ok(acc) => spec_step(acc, parts.last()),
            Err(e) => Err(e),
        }
    }
}

/// All keywords of the conditions, in order.
pub open spec fn all_keywords(c: Seq<ConditionView>) -> Seq<Seq<char>>
    decreases c.len(),
{
    if c.len() == 0 {
        Seq::empty()
    } else {
        all_keywords(c.drop_last()) + c.last().keywords
    }
}

/// A rule block seen as one filter, for `} & {` and `} | {`.
pub open spec fn spec_to_filter(r: RuleView) -> Result<(bool, Seq<ConditionView>), RuleErrorView> {
    match r {
        RuleView::AllTag => Err(RuleErrorView::AllTagInExpression),
        RuleView::Filter { is_include, conditions } => Ok((is_include, conditions)),
        RuleView::Combined { all_tag, filters } => if all_tag && filters.len() == 1 {
            Ok(filters[0])
        } else {
            Err(RuleErrorView::ComplexCombined)
        },
    }
}

/// Two rule blocks joined by `&` (both filters in turn) or `|` (one OR
/// condition over the keywords of both, same kind only).
pub open spec fn spec_combine(l: RuleView, r: RuleView, is_and: bool) -> Result<
    RuleView,
    RuleErrorView,
> {
    match spec_to_filter(l) {
        Err(e) => Err(e),
        Ok(lf) => match spec_to_filter(r) {
            Err(e) => Err(e),
            Ok(rf) => if is_and {
                Ok(RuleView::Combined { all_tag: true, filters: seq![lf, rf] })
            } else if lf.0 != rf.0 {
                Err(RuleErrorView::MixedIncludeExclude)
            } else {
                Ok(
                    RuleView::Filter {
                        is_include: lf.0,
                        conditions: seq![
                            ConditionView {
                                operator: FilterOperator::Or,
                                keywords: all_keywords(lf.1) + all_keywords(rf.1),
                            },
                        ],
                    },
                )
            },
        },
    }
}

/// The first top-level `} & {` (else `} | {`) of an expression: the trimmed
/// text on its left, whether it is `&`, and the trimmed text on its right.
pub open spec fn spec_top_level(e: Seq<char>) -> Option<(Seq<char>, bool, Seq<char>)> {
    match find(e, "} & {"@) {
        Some(i) => Some((trim(e.take(i)), true, trim(e.skip(i + 5)))),
        None => match find(e, "} | {"@) {
            Some(i) => Some((trim(e.take(i)), false, trim(e.skip(i + 5)))),
            None => None,
        },
    }
}

/// A rule expression (the text between the outer braces).
pub open spec fn spec_expression(expr: Seq<char>) -> Result<RuleView, RuleErrorView> {
    let e = trim(expr);
    match spec_top_level(e) {
        Some((l, is_and, r)) => match spec_single(trim(l)) {
            Err(x) => Err(x),
            Ok(lr) => match spec_single(trim(r)) {
                Err(x) => Err(x),
                Ok(rr) => spec_combine(lr, rr, is_and),
            },
        },
        None => {
            let parts = tokens(e, ';');
            if parts.len() == 0 {
                Err(RuleErrorView::EmptyRule)
            } else if parts.len() == 1 {
                spec_single(parts[0])
            } else {
                match spec_fold(parts) {
                    Err(x) => Err(x),
                    Ok(acc) => if acc.1.len() == 0 && !acc.0 {
                        Err(RuleErrorView::InvalidRule)
                    } else {
                        Ok(RuleView::Combined { all_tag: acc.0, filters: acc.1 })
                    },
                }
            }
        },
    }
}

/// A whole placeholder, `{{` ... `}}` after trimming.
pub open spec fn spec_parse(rule: Seq<char>) -> Result<RuleView, RuleErrorView> {
    let r = trim(rule);
    if !(starts_with(r, "{{"@) && ends_with(r, "}}"@)) {
        Err(RuleErrorView::NotWrapped(r))
    } else {
        let e = r.subrange(2, r.len() - 2);
        if trim(e).len() == 0 {
            Err(RuleErrorView::EmptyRule)
        } else {
            spec_expression(e)
        }
    }
}

// ---------------------------------------------------------------------
// Parser
// ---------------------------------------------------------------------

fn strings_of(v: &Vec<Vec<char>>) -> (res: Vec<String>)
    ensures
        string_views(res@) == views(v@),
{
    let mut res: Vec<String> = Vec::new();
    let mut i: usize = 0;
    while i < v.len()
        invariant
            i <= v.len(),
            string_views(res@) == views(v@).take(i as int),
        decreases v.len() - i,
    {
        let ghost old_res = string_views(res@);
        let x = chars_to_string(v[i].as_slice());
        let ghost xv = x@;
        res.push(x);
        assert(string_views(res@) =~= old_res.push(xv));
        assert(views(v@).take(i + 1) =~= views(v@).take(i as int).push(v@[i as int]@));
        i = i + 1;
    }
    assert(views(v@).take(v.len() as int) =~= views(v@));
    res
}

impl InterpolationParser {
    /// Parses a placeholder such as `{{INCLUDE-TAG:香港 & 高速}}`.
    pub fn parse(rule: &str) -> (res: Result<InterpolationRule, RuleError>)
        ensures
            result_view(res) == spec_parse(rule@),
    {
        let all = str_chars(rule);
        let (lo, hi) = trim_bounds(all.as_slice());
        let r = slice_subrange(all.as_slice(), lo, hi);
        assert(r@ == trim(rule@));
        let open = str_chars("{{");
        let close = str_chars("}}");
        proof {
            reveal_strlit("{{");
            reveal_strlit("}}");
        }
        let n = r.len();
        let wrapped = matches_at(r, 0, open.as_slice()) && n >= 2 && matches_at(
            r,
            n - 2,
            close.as_slice(),
        );
        assert(r@.skip(0) =~= r@);
        proof {
            if n >= 2 {
                assert(r@.skip(n - 2) == r@.skip(r@.len() - 2));
            }
        }
        if !wrapped {
            return Err(RuleError::NotWrapped(chars_to_string(r)));
        }
        assert(n >= 4) by {
            if n < 4 {
                assert(r@.take(2)[1] == '{');
                assert(r@.skip(n - 2)[0] == '}');
                assert(r@[1] == '{');
                assert(r@[n - 2] == '}');
            }
        }
        let e = slice_subrange(r, 2, n - 2);
        let (elo, ehi) = trim_bounds(e);
        if elo == ehi {
            return Err(RuleError::EmptyRule);
        }
        Self::parse_rule_expression(e)
    }

    fn parse_rule_expression(expr: &[char]) -> (res: Result<InterpolationRule, RuleError>)
        ensures
            result_view(res) == spec_expression(expr@),
    {
        let e = trim_chars(expr);
        if let Some((left, is_and, right)) = Self::find_top_level_operator(e.as_slice()) {
            return Self::parse_operator_expression(left.as_slice(), is_and, right.as_slice());
        }
        let parts = tokens_of(e.as_slice(), ';');
        if parts.len() == 0 {
            return Err(RuleError::EmptyRule);
        }
        if parts.len() == 1 {
            return Self::parse_single_rule(parts[0].as_slice());
        }
        Self::parse_combined(&parts)
    }

    /// Two rule blocks around a top-level operator.
    fn parse_operator_expression(left: &[char], is_and: bool, right: &[char]) -> (res: Result<
        InterpolationRule,
        RuleError,
    >)
        ensures
            result_view(res) == (match spec_single(trim(left@)) {
                Err(x) => Err(x),
                Ok(lr) => match spec_single(trim(right@)) {
                    Err(x) => Err(x),
                    Ok(rr) => spec_combine(lr, rr, is_and),
                },
            }),
    {
        let left_rule = match Self::parse_single_rule(trim_chars(left).as_slice()) {
            Ok(x) => x,
            Err(x) => return Err(x),
        };
        let right_rule = match Self::parse_single_rule(trim_chars(right).as_slice()) {
            Ok(x) => x,
            Err(x) => return Err(x),
        };
        Self::combine_rules(&left_rule, &right_rule, is_and)
    }

    /// Several `;`-separated parts, folded from left to right.
    fn parse_combined(parts: &Vec<Vec<char>>) -> (res: Result<InterpolationRule, RuleError>)
        ensures
            result_view(res) == (match spec_fold(views(parts@)) {
                Err(x) => Err(x),
                Ok(acc) => if acc.1.len() == 0 && !acc.0 {
                    Err(RuleErrorView::InvalidRule)
                } else {
                    Ok(RuleView::Combined { all_tag: acc.0, filters: acc.1 })
                },
            }),
    {
        let mut all_tag = false;
        let mut filters: Vec<(bool, Vec<FilterCondition>)> = Vec::new();
        let mut i: usize = 0;
        assert(views(parts@).take(0) =~= Seq::<Seq<char>>::empty());
        assert(filters_view(filters@) =~= Seq::<(bool, Seq<ConditionView>)>::empty());
        while i < parts.len()
            invariant
                i <= parts.len(),
                spec_fold(views(parts@).take(i as int)) == Ok::<
                    (bool, Seq<(bool, Seq<ConditionView>)>),
                    RuleErrorView,
                >((all_tag, filters_view(filters@))),
            decreases parts.len() - i,
        {
            let ghost ps = views(parts@);
            proof {
                lemma_fold_step(ps, i as int);
            }
            assert(ps[i as int] == parts@[i as int]@);
            let part = parts[i].as_slice();
            let ghost fv = filters_view(filters@);
            match Self::parse_part(part) {
                Err(x) => {
                    proof {
                        lemma_fold_err(ps, i + 1);
                    }
                    return Err(x);
                },
                Ok(None) => {
                    all_tag = true;
                },
                Ok(Some((is_include, conditions))) => {
                    let ghost cv = conditions_view(conditions@);
                    filters.push((is_include, conditions));
                    assert(filters_view(filters@) =~= fv.push((is_include, cv)));
                },
            }
            i = i + 1;
        }
        assert(views(parts@).take(parts.len() as int) =~= views(parts@));
        if filters.len() == 0 && !all_tag {
            return Err(RuleError::InvalidRule);
        }
        Ok(InterpolationRule::Combined { all_tag, filters })
    }
}

/// The trimmed text before `pos` and after the five chars of an operator.
fn split_around(expr: &[char], pos: usize) -> (res: (Vec<char>, Vec<char>))
    requires
        pos + 5 <= expr.len(),
    ensures
        res.0@ == trim(expr@.take(pos as int)),
        res.1@ == trim(expr@.skip(pos + 5)),
{
    let left = trim_chars(slice_subrange(expr, 0, pos));
    let right = trim_chars(slice_subrange(expr, pos + 5, expr.len()));
    assert(expr@.subrange(0, pos as int) =~= expr@.take(pos as int));
    assert(expr@.subrange(pos + 5, expr@.len() as int) =~= expr@.skip(pos + 5));
    (left, right)
}

/// One more part of a fold.
proof fn lemma_fold_step(ps: Seq<Seq<char>>, i: int)
    requires
        0 <= i < ps.len(),
    ensures
        spec_fold(ps.take(i + 1)) == (match spec_fold(ps.take(i)) {
            Ok(acc) => spec_step(acc, ps[i]),
            Err(e) => Err(e),
        }),
{
    assert(ps.take(i + 1).drop_last() =~= ps.take(i));
    assert(ps.take(i + 1).last() == ps[i]);
}

/// A refused part refuses the whole fold.
proof fn lemma_fold_err(ps: Seq<Seq<char>>, k: int)
    requires
        0 <= k <= ps.len(),
        spec_fold(ps.take(k)) is Err,
    ensures
        spec_fold(ps) == spec_fold(ps.take(k)),
    decreases ps.len(),
{
    if k == ps.len() {
        assert(ps.take(k) =~= ps);
    } else {
        assert(ps.drop_last().take(k) =~= ps.take(k));
        lemma_fold_err(ps.drop_last(), k);
    }
}

fn copy_strings(v: &Vec<String>) -> (res: Vec<String>)
    ensures
        string_views(res@) == string_views(v@),
{
    let mut res: Vec<String> = Vec::new();
    let mut i: usize = 0;
    while i < v.len()
        invariant
            i <= v.len(),
            string_views(res@) == string_views(v@).take(i as int),
        decreases v.len() - i,
    {
        let ghost old_res = string_views(res@);
        let x = v[i].clone();
        res.push(x);
        assert(string_views(res@) =~= old_res.push(v@[i as int]@));
        assert(string_views(v@).take(i + 1) =~= string_views(v@).take(i as int).push(v@[i as int]@));
        i = i + 1;
    }
    assert(string_views(v@).take(v.len() as int) =~= string_views(v@));
    res
}

fn copy_conditions(v: &Vec<FilterCondition>) -> (res: Vec<FilterCondition>)
    ensures
        conditions_view(res@) == conditions_view(v@),
{
    let mut res: Vec<FilterCondition> = Vec::new();
    let mut i: usize = 0;
    while i < v.len()
        invariant
            i <= v.len(),
            conditions_view(res@) == conditions_view(v@).take(i as int),
        decreases v.len() - i,
    {
        let ghost old_res = conditions_view(res@);
        let c = FilterCondition { operator: v[i].operator, keywords: copy_strings(&v[i].keywords) };
        let ghost cv = c@;
        assert(cv == v@[i as int]@);
        res.push(c);
        assert(conditions_view(res@) =~= old_res.push(cv));
        assert(conditions_view(v@).take(i + 1) =~= conditions_view(v@).take(i as int).push(v@[i as int]@));
        i = i + 1;
    }
    assert(conditions_view(v@).take(v.len() as int) =~= conditions_view(v@));
    res
}

/// All keywords of the conditions, in order.
fn keywords_of_all(v: &Vec<FilterCondition>, out: &mut Vec<String>)
    ensures
        string_views(final(out)@) == string_views(old(out)@) + all_keywords(conditions_view(v@)),
{
    let mut i: usize = 0;
    while i < v.len()
        invariant
            i <= v.len(),
            string_views(out@) == string_views(old(out)@) + all_keywords(
                conditions_view(v@).take(i as int),
            ),
        decreases v.len() - i,
    {
        let ghost before = string_views(out@);
        assert(conditions_view(v@).take(i + 1).drop_last() =~= conditions_view(v@).take(i as int));
        let ks = &v[i].keywords;
        let mut j: usize = 0;
        while j < ks.len()
            invariant
                j <= ks.len(),
                string_views(out@) == before + string_views(ks@).take(j as int),
            decreases ks.len() - j,
        {
            let ghost old_out = string_views(out@);
            out.push(ks[j].clone());
            assert(string_views(out@) =~= old_out.push(ks@[j as int]@));
            assert(string_views(ks@).take(j + 1) =~= string_views(ks@).take(j as int).push(ks@[j as int]@));
            j = j + 1;
        }
        assert(string_views(ks@).take(ks.len() as int) =~= string_views(ks@));
        i = i + 1;
    }
    assert(conditions_view(v@).take(v.len() as int) =~= conditions_view(v@));
}

impl InterpolationParser {
    /// The first top-level `} & {` (else `} | {`).
    fn find_top_level_operator(expr: &[char]) -> (res: Option<(Vec<char>, bool, Vec<char>)>)
        ensures
            match spec_top_level(expr@) {
                Some((l, a, r)) => res matches Some((x, b, y)) && x@ == l && b == a && y@ == r,
                None => res is None,
            },
    {
        let and_op = str_chars("} & {");
        let or_op = str_chars("} | {");
        proof {
            reveal_strlit("} & {");
            reveal_strlit("} | {");
        }
        assert(and_op@.len() == 5);
        assert(or_op@.len() == 5);
        proof {
            lemma_find_bound(expr@, and_op@);
            lemma_find_bound(expr@, or_op@);
        }
        if let Some(pos) = find_chars(expr, and_op.as_slice()) {
            let (left, right) = split_around(expr, pos);
            return Some((left, true, right));
        }
        assert(find(expr@, "} & {"@) is None);
        if let Some(pos) = find_chars(expr, or_op.as_slice()) {
            let (left, right) = split_around(expr, pos);
            return Some((left, false, right));
        }
        None
    }

    /// A rule block seen as one filter.
    fn rule_to_filter(rule: &InterpolationRule) -> (res: Result<(bool, Vec<FilterCondition>), RuleError>)
        ensures
            match spec_to_filter(rule@) {
                Ok(f) => res matches Ok(g) && g.0 == f.0 && conditions_view(g.1@) == f.1,
                Err(e) => res matches Err(x) && x@ == e,
            },
    {
        match rule {
            InterpolationRule::AllTag => Err(RuleError::AllTagInExpression),
            InterpolationRule::Filter { is_include, conditions } => Ok((*is_include, copy_conditions(conditions))),
            InterpolationRule::Combined { all_tag, filters } => {
                if *all_tag && filters.len() == 1 {
                    assert(filters_view(filters@)[0] == (filters@[0].0, conditions_view(filters@[0].1@)));
                    Ok((filters[0].0, copy_conditions(&filters[0].1)))
                } else {
                    Err(RuleError::ComplexCombined)
                }
            },
        }
    }

    /// Two rule blocks joined by `&` or `|`.
    fn combine_rules(left: &InterpolationRule, right: &InterpolationRule, is_and: bool) -> (res: Result<InterpolationRule, RuleError>)
        ensures
            result_view(res) == spec_combine(left@, right@, is_and),
    {
        let left_filter = match Self::rule_to_filter(left) {
            Ok(f) => f,
            Err(e) => return Err(e),
        };
        let right_filter = match Self::rule_to_filter(right) {
            Ok(f) => f,
            Err(e) => return Err(e),
        };
        if is_and {
            let ghost lf = (left_filter.0, conditions_view(left_filter.1@));
            let ghost rf = (right_filter.0, conditions_view(right_filter.1@));
            let filters = vec![left_filter, right_filter];
            assert(filters_view(filters@) =~= seq![lf, rf]);
            return Ok(InterpolationRule::Combined { all_tag: true, filters });
        }
        if left_filter.0 != right_filter.0 {
            return Err(RuleError::MixedIncludeExclude);
        }
        let mut keywords: Vec<String> = Vec::new();
        assert(string_views(keywords@) =~= Seq::<Seq<char>>::empty());
        keywords_of_all(&left_filter.1, &mut keywords);
        keywords_of_all(&right_filter.1, &mut keywords);
        let cond = FilterCondition { operator: FilterOperator::Or, keywords };
        let ghost cv = cond@;
        let conditions = vec![cond];
        assert(conditions_view(conditions@) =~= seq![cv]);
        Ok(InterpolationRule::Filter { is_include: left_filter.0, conditions })
    }

    /// The conditions after `INCLUDE-TAG:` / `EXCLUDE-TAG:`.
    fn parse_filter_conditions(rule: &[char], rule_type: &str) -> (res: Result<Vec<FilterCondition>, RuleError>)
        requires
            rule_type@ == "INCLUDE-TAG"@ || rule_type@ == "EXCLUDE-TAG"@,
        ensures
            match spec_conditions(rule@, rule_type@) {
                Ok(c) => res matches Ok(x) && conditions_view(x@) == c,
                Err(e) => res matches Err(x) && x@ == e,
            },
    {
        proof {
            reveal_strlit("INCLUDE-TAG");
            reveal_strlit("EXCLUDE-TAG");
        }
        assert(rule_type@.len() == 11);
        let start = match skip_bytes_index(rule, 12) {
            Some(k) => k,
            None => return Err(RuleError::UnalignedKeywords(String::from_str(rule_type))),
        };
        let kw = slice_subrange(rule, start, rule.len());
        assert(kw@ =~= rule@.skip(start as int));
        let (lo, hi) = trim_bounds(kw);
        if lo == hi {
            return Err(RuleError::MissingKeywords(String::from_str(rule_type)));
        }
        let (operator, pieces) = if has_char(kw, '&') {
            (FilterOperator::And, tokens_of(kw, '&'))
        } else if has_char(kw, '|') {
            (FilterOperator::Or, tokens_of(kw, '|'))
        } else {
            (FilterOperator::Or, tokens_of(kw, ','))
        };
        if pieces.len() == 0 {
            return Err(RuleError::MissingKeywords(String::from_str(rule_type)));
        }
        let keywords = strings_of(&pieces);
        let cond = FilterCondition { operator, keywords };
        let ghost cv = cond@;
        let conditions = vec![cond];
        assert(conditions_view(conditions@) =~= seq![cv]);
        Ok(conditions)
    }

    /// One rule block (no `;`).
    fn parse_single_rule(rule: &[char]) -> (res: Result<InterpolationRule, RuleError>)
        ensures
            result_view(res) == spec_single(rule@),
    {
        reveal(spec_single);
        let r = trim_chars(rule);
        let u = upper_chars(r.as_slice());
        if text_is(&u, "ALL-TAG") {
            return Ok(InterpolationRule::AllTag);
        }
        if begins_with(&u, "INCLUDE-TAG:") {
            return match Self::parse_filter_conditions(r.as_slice(), "INCLUDE-TAG") {
                Ok(conditions) => Ok(InterpolationRule::Filter { is_include: true, conditions }),
                Err(e) => Err(e),
            };
        }
        if begins_with(&u, "EXCLUDE-TAG:") {
            return match Self::parse_filter_conditions(r.as_slice(), "EXCLUDE-TAG") {
                Ok(conditions) => Ok(InterpolationRule::Filter { is_include: false, conditions }),
                Err(e) => Err(e),
            };
        }
        if begins_with(&u, "ALL-TAG:") {
            return Ok(InterpolationRule::AllTag);
        }
        Err(RuleError::UnknownRule(chars_to_string(r.as_slice())))
    }

    /// What one part of a `;`-combined rule contributes.
    fn parse_part(part: &[char]) -> (res: Result<Option<(bool, Vec<FilterCondition>)>, RuleError>)
        ensures
            match spec_part(part@) {
                Ok(None) => res matches Ok(None),
                Ok(Some(f)) => res matches Ok(Some(g)) && g.0 == f.0 && conditions_view(g.1@) == f.1,
                Err(e) => res matches Err(x) && x@ == e,
            },
    {
        reveal(spec_part);
        let u = upper_chars(part);
        if text_is(&u, "ALL-TAG") || begins_with(&u, "ALL-TAG:") {
            return Ok(None);
        }
        if begins_with(&u, "INCLUDE-TAG:") {
            return match Self::parse_filter_conditions(part, "INCLUDE-TAG") {
                Ok(conditions) => Ok(Some((true, conditions))),
                Err(e) => Err(e),
            };
        }
        if begins_with(&u, "EXCLUDE-TAG:") {
            return match Self::parse_filter_conditions(part, "EXCLUDE-TAG") {
                Ok(conditions) => Ok(Some((false, conditions))),
                Err(e) => Err(e),
            };
        }
        Err(RuleError::UnknownRule(chars_to_string(part)))
    }
}

/// The upper case of a text.
fn upper_chars(s: &[char]) -> (res: Vec<char>)
    ensures
        res@ == uppercase(s@),
{
    let text = chars_to_string(s);
    let up = to_uppercase(text.as_str());
    str_chars(up.as_str())
}

fn text_is(s: &Vec<char>, lit: &str) -> (res: bool)
    ensures
        res == (s@ == lit@),
{
    let l = str_chars(lit);
    crate::parsers::uri::same_chars(s.as_slice(), l.as_slice())
}

fn begins_with(s: &Vec<char>, lit: &str) -> (res: bool)
    ensures
        res == starts_with(s@, lit@),
{
    let l = str_chars(lit);
    assert(s@.skip(0) =~= s@);
    matches_at(s.as_slice(), 0, l.as_slice())
}

/// How many bytes UTF-8 takes for a char.
fn utf8_width_of(c: char) -> (res: usize)
    ensures
        res == utf8_width(c),
{
    let u = c as u32;
    if u < 0x80 {
        1
    } else if u < 0x800 {
        2
    } else if u < 0x10000 {
        3
    } else {
        4
    }
}

/// The char index where the first `n` bytes of UTF-8 end, if they end on
/// a char boundary within the text.
fn skip_bytes_index(s: &[char], n: usize) -> (res: Option<usize>)
    ensures
        match skip_bytes(s@, n as int) {
            Some(t) => res matches Some(k) && k <= s.len() && s@.skip(k as int) == t,
            None => res is None,
        },
{
    let mut i: usize = 0;
    let mut used: usize = 0;
    assert(s@.skip(0) =~= s@);
    while used < n
        invariant
            i <= s.len(),
            used <= n,
            skip_bytes(s@, n as int) == skip_bytes(s@.skip(i as int), n - used),
        decreases n - used,
    {
        if i == s.len() {
            return None;
        }
        let w = utf8_width_of(s[i]);
        assert(s@.skip(i as int)[0] == s@[i as int]);
        assert(s@.skip(i as int).drop_first() =~= s@.skip(i + 1));
        if w > n - used {
            return None;
        }
        used = used + w;
        i = i + 1;
    }
    Some(i)
}

} // verus!
