//! Character-sequence helpers shared by the parsers: trimming, searching,
//! splitting and building strings, each with its mathematical meaning.

use vstd::prelude::*;
use vstd::slice::slice_subrange;
use vstd::string::StringExecFns;

verus! {

broadcast use vstd::seq_lib::group_seq_properties;

// ---------------------------------------------------------------------
// White space, and `String::push`
// ---------------------------------------------------------------------

/// The chars with the Unicode `White_Space` property (PropList.txt):
/// U+0009..U+000D, U+0020, U+0085, U+00A0, U+1680, U+2000..U+200A,
/// U+2028, U+2029, U+202F, U+205F and U+3000.
pub open spec fn white_space(c: char) -> bool {
    let u = c as u32;
    (0x9 <= u && u <= 0xd) || u == 0x20 || u == 0x85 || u == 0xa0 || u == 0x1680 || (0x2000 <= u
        && u <= 0x200a) || u == 0x2028 || u == 0x2029 || u == 0x202f || u == 0x205f || u == 0x3000
}

/// Whether a char has the Unicode `White_Space` property, as
/// `char::is_whitespace` tells.
pub fn char_is_whitespace(c: char) -> (b: bool)
    ensures
        b == white_space(c),
{
    let u = c as u32;
    (0x9 <= u && u <= 0xd) || u == 0x20 || u == 0x85 || u == 0xa0 || u == 0x1680 || (0x2000 <= u
        && u <= 0x200a) || u == 0x2028 || u == 0x2029 || u == 0x202f || u == 0x205f || u == 0x3000
}

/// `String::push` appends one char.
pub assume_specification[ String::push ](string: &mut String, ch: char)
    ensures
        final(string)@ == old(string)@.push(ch),
;

// ---------------------------------------------------------------------
// Specifications
// ---------------------------------------------------------------------

/// `s` with leading white space removed.
pub open spec fn trim_start(s: Seq<char>) -> Seq<char>
    decreases s.len(),
{
    if s.len() > 0 && white_space(s[0]) {
        trim_start(s.drop_first())
    } else {
        s
    }
}

/// `s` with trailing white space removed.
pub open spec fn trim_end(s: Seq<char>) -> Seq<char>
    decreases s.len(),
{
    if s.len() > 0 && white_space(s.last()) {
        trim_end(s.drop_last())
    } else {
        s
    }
}

/// `s` with white space removed at both ends (what `str::trim` gives).
pub open spec fn trim(s: Seq<char>) -> Seq<char> {
    trim_end(trim_start(s))
}

pub open spec fn starts_with(s: Seq<char>, p: Seq<char>) -> bool {
    p.len() <= s.len() && s.take(p.len() as int) == p
}

pub open spec fn ends_with(s: Seq<char>, p: Seq<char>) -> bool {
    p.len() <= s.len() && s.skip(s.len() - p.len()) == p
}

/// Index of the first occurrence of `p` in `s`.
pub open spec fn find(s: Seq<char>, p: Seq<char>) -> Option<int>
    decreases s.len(),
{
    if starts_with(s, p) {
        Some(0)
    } else if s.len() == 0 {
        None
    } else {
        match find(s.drop_first(), p) {
            Some(i) => Some(i + 1),
            None => None,
        }
    }
}

pub open spec fn contains(s: Seq<char>, p: Seq<char>) -> bool {
    find(s, p) is Some
}

/// Index of the first occurrence of `c` in `s`.
pub open spec fn find_char(s: Seq<char>, c: char) -> Option<int>
    decreases s.len(),
{
    if s.len() == 0 {
        None
    } else if s[0] == c {
        Some(0)
    } else {
        match find_char(s.drop_first(), c) {
            Some(i) => Some(i + 1),
            None => None,
        }
    }
}

/// Index of the last occurrence of `c` in `s`.
pub open spec fn rfind_char(s: Seq<char>, c: char) -> Option<int>
    decreases s.len(),
{
    if s.len() == 0 {
        None
    } else if s.last() == c {
        Some(s.len() - 1)
    } else {
        rfind_char(s.drop_last(), c)
    }
}

/// The pieces of `s` between occurrences of `c` (what `str::split` with a
/// char yields): there is always at least one piece.
pub open spec fn split(s: Seq<char>, c: char) -> Seq<Seq<char>>
    decreases s.len(),
{
    if s.len() == 0 {
        seq![Seq::<char>::empty()]
    } else {
        let p = split(s.drop_last(), c);
        if s.last() == c {
            p.push(Seq::<char>::empty())
        } else {
            p.update(p.len() - 1, p.last().push(s.last()))
        }
    }
}

pub open spec fn nonempty(s: Seq<char>) -> bool {
    s.len() > 0
}

/// The trimmed, non-empty pieces of `s` between occurrences of `c`.
pub open spec fn tokens(s: Seq<char>, c: char) -> Seq<Seq<char>> {
    split(s, c).map_values(|x: Seq<char>| trim(x)).filter(|x: Seq<char>| nonempty(x))
}

/// Every char is ASCII.
pub open spec fn is_ascii_text(s: Seq<char>) -> bool {
    forall|i: int| 0 <= i < s.len() ==> (#[trigger] s[i] as u32) < 0x80
}

/// ASCII upper case of one char; other chars are kept.
pub open spec fn upper_char(c: char) -> char {
    if 'a' <= c && c <= 'z' {
        ((c as u32) - 32) as char
    } else {
        c
    }
}

/// ASCII lower case of one char; other chars are kept.
pub open spec fn lower_char(c: char) -> char {
    if 'A' <= c && c <= 'Z' {
        ((c as u32) + 32) as char
    } else {
        c
    }
}

pub open spec fn ascii_upper(s: Seq<char>) -> Seq<char> {
    s.map_values(|c: char| upper_char(c))
}

pub open spec fn ascii_lower(s: Seq<char>) -> Seq<char> {
    s.map_values(|c: char| lower_char(c))
}

/// Every occurrence of `pat` (from left to right, not overlapping)
/// replaced by `rep`.
pub open spec fn replace_all(s: Seq<char>, pat: Seq<char>, rep: Seq<char>) -> Seq<char>
    recommends
        pat.len() > 0,
    decreases s.len(),
{
    if pat.len() == 0 {
        s
    } else {
        match find(s, pat) {
            Some(i) => if 0 <= i && i + pat.len() <= s.len() {
                s.take(i) + rep + replace_all(s.skip(i + pat.len()), pat, rep)
            } else {
                s
            },
            None => s,
        }
    }
}

/// The parts joined with `sep` between neighbours.
pub open spec fn join(parts: Seq<Seq<char>>, sep: Seq<char>) -> Seq<char>
    decreases parts.len(),
{
    if parts.len() == 0 {
        Seq::empty()
    } else if parts.len() == 1 {
        parts[0]
    } else {
        join(parts.drop_last(), sep) + sep + parts.last()
    }
}

pub open spec fn views(v: Seq<Vec<char>>) -> Seq<Seq<char>> {
    v.map_values(|x: Vec<char>| x@)
}

pub open spec fn string_views(v: Seq<String>) -> Seq<Seq<char>> {
    v.map_values(|x: String| x@)
}

// ---------------------------------------------------------------------
// Lemmas
// ---------------------------------------------------------------------

pub proof fn lemma_find_short(s: Seq<char>, p: Seq<char>)
    requires
        s.len() < p.len(),
    ensures
        find(s, p) is None,
    decreases s.len(),
{
    if s.len() > 0 {
        lemma_find_short(s.drop_first(), p);
    }
}

/// What `find` means: the first position where `p` starts.
pub proof fn lemma_find(s: Seq<char>, p: Seq<char>)
    ensures
        match find(s, p) {
            Some(i) => 0 <= i && i + p.len() <= s.len() && starts_with(s.skip(i), p)
                && forall|j: int| 0 <= j < i ==> !starts_with(#[trigger] s.skip(j), p),
            None => forall|j: int| 0 <= j <= s.len() ==> !starts_with(#[trigger] s.skip(j), p),
        },
    decreases s.len(),
{
    if starts_with(s, p) {
        assert(s.skip(0) =~= s);
    } else if s.len() == 0 {
        assert forall|j: int| 0 <= j <= s.len() implies !starts_with(#[trigger] s.skip(j), p) by {
            assert(s.skip(j) =~= s);
        }
    } else {
        lemma_find(s.drop_first(), p);
        assert(s.skip(0) =~= s);
        assert forall|j: int| 1 <= j <= s.len() implies #[trigger] s.skip(j) =~= s.drop_first().skip(
            j - 1,
        ) by {}
        match find(s.drop_first(), p) {
            Some(i) => {
                assert(s.skip(i + 1) =~= s.drop_first().skip(i));
                assert forall|j: int| 0 <= j < i + 1 implies !starts_with(#[trigger] s.skip(j), p) by {
                    if j > 0 {
                        assert(s.skip(j) =~= s.drop_first().skip(j - 1));
                    }
                }
            },
            None => {
                assert forall|j: int| 0 <= j <= s.len() implies !starts_with(
                    #[trigger] s.skip(j),
                    p,
                ) by {
                    if j > 0 {
                        assert(s.skip(j) =~= s.drop_first().skip(j - 1));
                    }
                }
            },
        }
    }
}

/// Where `find` succeeds, `p` fits after the position.
pub proof fn lemma_find_bound(s: Seq<char>, p: Seq<char>)
    ensures
        find(s, p) matches Some(i) ==> 0 <= i && i + p.len() <= s.len(),
{
    lemma_find(s, p);
}

pub proof fn lemma_find_char(s: Seq<char>, c: char)
    ensures
        match find_char(s, c) {
            Some(i) => 0 <= i < s.len() && s[i] == c && forall|j: int| 0 <= j < i ==> s[j] != c,
            None => forall|j: int| 0 <= j < s.len() ==> s[j] != c,
        },
    decreases s.len(),
{
    if s.len() > 0 && s[0] != c {
        lemma_find_char(s.drop_first(), c);
    }
}

pub proof fn lemma_rfind_char(s: Seq<char>, c: char)
    ensures
        match rfind_char(s, c) {
            Some(i) => 0 <= i < s.len() && s[i] == c && forall|j: int| i < j < s.len() ==> s[j]
                != c,
            None => forall|j: int| 0 <= j < s.len() ==> s[j] != c,
        },
    decreases s.len(),
{
    if s.len() > 0 && s.last() != c {
        lemma_rfind_char(s.drop_last(), c);
        assert forall|j: int| 0 <= j < s.len() - 1 implies s.drop_last()[j] == s[j] by {}
    }
}

pub proof fn lemma_split_len(s: Seq<char>, c: char)
    ensures
        split(s, c).len() >= 1,
    decreases s.len(),
{
    if s.len() > 0 {
        lemma_split_len(s.drop_last(), c);
    }
}

/// A string free of `c` is one piece.
pub proof fn lemma_split_free(s: Seq<char>, c: char)
    requires
        forall|j: int| 0 <= j < s.len() ==> s[j] != c,
    ensures
        split(s, c) == seq![s],
    decreases s.len(),
{
    if s.len() > 0 {
        lemma_split_free(s.drop_last(), c);
        assert(s.drop_last().push(s.last()) =~= s);
        assert(split(s, c) =~= seq![s]);
    } else {
        assert(s =~= Seq::<char>::empty());
    }
}

pub proof fn lemma_trim_start_ws(s: Seq<char>)
    ensures
        trim_start(s).len() == 0 || !white_space(trim_start(s)[0]),
        trim_start(s).len() <= s.len(),
    decreases s.len(),
{
    if s.len() > 0 && white_space(s[0]) {
        lemma_trim_start_ws(s.drop_first());
    }
}

pub proof fn lemma_trim_end_ws(s: Seq<char>)
    ensures
        trim_end(s).len() == 0 || !white_space(trim_end(s).last()),
        trim_end(s).len() <= s.len(),
        trim_end(s).len() > 0 ==> trim_end(s)[0] == s[0],
    decreases s.len(),
{
    if s.len() > 0 && white_space(s.last()) {
        lemma_trim_end_ws(s.drop_last());
    }
}

// ---------------------------------------------------------------------
// Executable helpers
// ---------------------------------------------------------------------

/// The chars of a string slice, in order.
pub fn str_chars(s: &str) -> (res: Vec<char>)
    ensures
        res@ == s@,
{
    let mut res: Vec<char> = Vec::new();
    for c in it: s.chars()
        invariant
            it.seq() == s@,
            res@ == s@.take(it.index()),
    {
        res.push(c);
    }
    res
}

/// A `String` holding exactly the given chars.
pub fn chars_to_string(s: &[char]) -> (res: String)
    ensures
        res@ == s@,
{
    let mut res = String::new();
    let mut i: usize = 0;
    while i < s.len()
        invariant
            i <= s.len(),
            res@ == s@.take(i as int),
        decreases s.len() - i,
    {
        res.push(s[i]);
        i = i + 1;
    }
    res
}

/// Copy of a range of chars.
pub fn sub_chars(s: &[char], lo: usize, hi: usize) -> (res: Vec<char>)
    requires
        lo <= hi <= s.len(),
    ensures
        res@ == s@.subrange(lo as int, hi as int),
{
    let mut res: Vec<char> = Vec::new();
    let mut i: usize = lo;
    while i < hi
        invariant
            lo <= i <= hi <= s.len(),
            res@ == s@.subrange(lo as int, i as int),
        decreases hi - i,
    {
        res.push(s[i]);
        i = i + 1;
    }
    res
}

/// Bounds of the trimmed part of `s`.
pub fn trim_bounds(s: &[char]) -> (r: (usize, usize))
    ensures
        r.0 <= r.1 <= s.len(),
        s@.subrange(r.0 as int, r.1 as int) == trim(s@),
{
    let n = s.len();
    let mut lo: usize = 0;
    while lo < n && char_is_whitespace(s[lo])
        invariant
            lo <= n == s.len(),
            trim_start(s@) == trim_start(s@.skip(lo as int)),
        decreases n - lo,
    {
        assert(s@.skip(lo as int).drop_first() =~= s@.skip(lo + 1));
        lo = lo + 1;
    }
    assert(trim_start(s@.skip(lo as int)) == s@.skip(lo as int));
    let mut hi: usize = n;
    while hi > lo && char_is_whitespace(s[hi - 1])
        invariant
            lo <= hi <= n == s.len(),
            trim_start(s@) == s@.skip(lo as int),
            trim(s@) == trim_end(s@.subrange(lo as int, hi as int)),
        decreases hi,
    {
        assert(s@.subrange(lo as int, hi as int).drop_last() =~= s@.subrange(
            lo as int,
            hi - 1,
        ));
        hi = hi - 1;
    }
    (lo, hi)
}

pub fn trim_chars(s: &[char]) -> (res: Vec<char>)
    ensures
        res@ == trim(s@),
{
    let (lo, hi) = trim_bounds(s);
    sub_chars(s, lo, hi)
}

/// Whether `p` occurs in `s` at position `i`.
pub fn matches_at(s: &[char], i: usize, p: &[char]) -> (res: bool)
    requires
        i <= s.len(),
    ensures
        res == starts_with(s@.skip(i as int), p@),
{
    if s.len() - i < p.len() {
        return false;
    }
    let mut k: usize = 0;
    while k < p.len()
        invariant
            i + p.len() <= s.len(),
            k <= p.len(),
            forall|j: int| 0 <= j < k ==> s@[i + j] == p@[j],
        decreases p.len() - k,
    {
        if s[i + k] != p[k] {
            assert(s@.skip(i as int).take(p.len() as int)[k as int] != p@[k as int]);
            return false;
        }
        k = k + 1;
    }
    assert(s@.skip(i as int).take(p.len() as int) =~= p@);
    true
}

/// First occurrence of `p` in `s`.
pub fn find_chars(s: &[char], p: &[char]) -> (res: Option<usize>)
    ensures
        match find(s@, p@) {
            Some(i) => res == Some(i as usize),
            None => res is None,
        },
        res matches Some(i) ==> i + p.len() <= s.len() && find(s@, p@) == Some(i as int),
        res is None ==> find(s@, p@) is None,
{
    proof {
        lemma_find(s@, p@);
    }
    let n = s.len();
    let mut i: usize = 0;
    while i <= n
        invariant
            i <= n + 1,
            n == s.len(),
            i <= n ==> find(s@, p@) == match find(s@.skip(i as int), p@) {
                Some(k) => Some(k + i),
                None => None,
            },
            i > n ==> find(s@, p@) is None,
        decreases n + 1 - i,
    {
        if matches_at(s, i, p) {
            return Some(i);
        }
        if i == n {
            assert(s@.skip(i as int).len() == 0);
            return None;
        }
        assert(s@.skip(i as int).drop_first() =~= s@.skip(i + 1));
        i = i + 1;
    }
    None
}

/// First occurrence of `c` in `s`.
pub fn find_char_in(s: &[char], c: char) -> (res: Option<usize>)
    ensures
        match find_char(s@, c) {
            Some(i) => res == Some(i as usize),
            None => res is None,
        },
        res matches Some(i) ==> i < s.len() && s@[i as int] == c && find_char(s@, c) == Some(
            i as int,
        ),
        res is None ==> find_char(s@, c) is None,
{
    proof {
        lemma_find_char(s@, c);
    }
    let n = s.len();
    let mut i: usize = 0;
    while i < n
        invariant
            i <= n == s.len(),
            find_char(s@, c) == match find_char(s@.skip(i as int), c) {
                Some(k) => Some(k + i),
                None => None,
            },
        decreases n - i,
    {
        if s[i] == c {
            return Some(i);
        }
        assert(s@.skip(i as int).drop_first() =~= s@.skip(i + 1));
        i = i + 1;
    }
    None
}

/// Last occurrence of `c` in `s`.
pub fn rfind_char_in(s: &[char], c: char) -> (res: Option<usize>)
    ensures
        match rfind_char(s@, c) {
            Some(i) => res == Some(i as usize),
            None => res is None,
        },
        res matches Some(i) ==> i < s.len() && s@[i as int] == c && rfind_char(s@, c) == Some(
            i as int,
        ),
        res is None ==> rfind_char(s@, c) is None,
{
    proof {
        lemma_rfind_char(s@, c);
    }
    let mut j: usize = s.len();
    while j > 0
        invariant
            j <= s.len(),
            rfind_char(s@, c) == rfind_char(s@.take(j as int), c),
        decreases j,
    {
        if s[j - 1] == c {
            return Some(j - 1);
        }
        assert(s@.take(j as int).drop_last() =~= s@.take(j - 1));
        j = j - 1;
    }
    None
}

/// Whether `c` occurs in `s`.
pub fn has_char(s: &[char], c: char) -> (res: bool)
    ensures
        res == (find_char(s@, c) is Some),
{
    find_char_in(s, c).is_some()
}

/// Whether `p` occurs in `s`.
pub fn contains_chars(s: &[char], p: &[char]) -> (res: bool)
    ensures
        res == contains(s@, p@),
{
    find_chars(s, p).is_some()
}

/// The pieces of `s` between occurrences of `c`.
pub fn split_chars(s: &[char], c: char) -> (res: Vec<Vec<char>>)
    ensures
        views(res@) == split(s@, c),
{
    let mut pieces: Vec<Vec<char>> = Vec::new();
    let mut cur: Vec<char> = Vec::new();
    let mut i: usize = 0;
    assert(s@.take(0) =~= Seq::<char>::empty());
    assert(views(pieces@).push(cur@) =~= split(s@.take(0), c));
    while i < s.len()
        invariant
            i <= s.len(),
            views(pieces@).push(cur@) == split(s@.take(i as int), c),
        decreases s.len() - i,
    {
        let ghost before = views(pieces@).push(cur@);
        assert(s@.take(i + 1).drop_last() =~= s@.take(i as int));
        assert(s@.take(i + 1).last() == s@[i as int]);
        if s[i] == c {
            let piece = cur;
            pieces.push(piece);
            cur = Vec::new();
            assert(views(pieces@).push(cur@) =~= before.push(Seq::<char>::empty()));
        } else {
            cur.push(s[i]);
            assert(views(pieces@).push(cur@) =~= before.update(
                before.len() - 1,
                before.last().push(s@[i as int]),
            ));
        }
        i = i + 1;
    }
    assert(s@.take(s.len() as int) =~= s@);
    pieces.push(cur);
    assert(views(pieces@) =~= split(s@, c));
    pieces
}

/// The trimmed, non-empty pieces of `s` between occurrences of `c`.
pub fn tokens_of(s: &[char], c: char) -> (res: Vec<Vec<char>>)
    ensures
        views(res@) == tokens(s@, c),
{
    let pieces = split_chars(s, c);
    let ghost trimmed = views(pieces@).map_values(|x: Seq<char>| trim(x));
    let mut res: Vec<Vec<char>> = Vec::new();
    let mut i: usize = 0;
    while i < pieces.len()
        invariant
            i <= pieces.len(),
            trimmed == views(pieces@).map_values(|x: Seq<char>| trim(x)),
            views(res@) == trimmed.take(i as int).filter(|x: Seq<char>| nonempty(x)),
        decreases pieces.len() - i,
    {
        let t = trim_chars(pieces[i].as_slice());
        assert(trimmed.take(i + 1) =~= trimmed.take(i as int).push(t@));
        proof {
            trimmed.take(i as int).lemma_filter_push(t@, |x: Seq<char>| nonempty(x));
        }
        if t.len() > 0 {
            res.push(t);
            assert(views(res@) =~= trimmed.take(i as int).filter(|x: Seq<char>| nonempty(x)).push(
                trimmed[i as int],
            ));
        }
        i = i + 1;
    }
    assert(trimmed.take(pieces.len() as int) =~= trimmed);
    res
}

fn char_from_ascii(u: u32) -> (c: char)
    requires
        u < 128,
    ensures
        c == u as char,
{
    (u as u8) as char
}

/// Concatenation of two char sequences.
pub fn concat_chars(a: &[char], b: &[char]) -> (res: Vec<char>)
    ensures
        res@ == a@ + b@,
{
    let mut res = sub_chars(a, 0, a.len());
    let mut i: usize = 0;
    assert(a@.subrange(0, a.len() as int) =~= a@);
    while i < b.len()
        invariant
            i <= b.len(),
            res@ == a@ + b@.take(i as int),
        decreases b.len() - i,
    {
        res.push(b[i]);
        assert(a@ + b@.take(i + 1) =~= (a@ + b@.take(i as int)).push(b@[i as int]));
        i = i + 1;
    }
    assert(b@.take(b.len() as int) =~= b@);
    res
}

/// Appends `b` to `a`.
pub fn push_all(a: &mut Vec<char>, b: &[char])
    ensures
        final(a)@ == old(a)@ + b@,
{
    let mut i: usize = 0;
    while i < b.len()
        invariant
            i <= b.len(),
            a@ == old(a)@ + b@.take(i as int),
        decreases b.len() - i,
    {
        a.push(b[i]);
        assert(old(a)@ + b@.take(i + 1) =~= (old(a)@ + b@.take(i as int)).push(b@[i as int]));
        i = i + 1;
    }
    assert(b@.take(b.len() as int) =~= b@);
}

/// The parts joined with `sep`.
pub fn join_chars(parts: &Vec<Vec<char>>, sep: &[char]) -> (res: Vec<char>)
    ensures
        res@ == join(views(parts@), sep@),
{
    let mut res: Vec<char> = Vec::new();
    let mut i: usize = 0;
    while i < parts.len()
        invariant
            i <= parts.len(),
            res@ == join(views(parts@).take(i as int), sep@),
        decreases parts.len() - i,
    {
        let ghost prev = views(parts@).take(i as int);
        assert(views(parts@).take(i + 1).drop_last() =~= prev);
        if i > 0 {
            push_all(&mut res, sep);
        } else {
            assert(views(parts@).take(1) =~= seq![parts@[0]@]);
        }
        push_all(&mut res, parts[i].as_slice());
        i = i + 1;
    }
    assert(views(parts@).take(parts.len() as int) =~= views(parts@));
    res
}

/// The char of a decimal digit.
pub open spec fn digit_char(d: nat) -> char {
    (('0' as u32) + d) as char
}

/// The decimal text of a number, without leading zeros.
pub open spec fn decimal_text(n: nat) -> Seq<char>
    decreases n,
{
    if n < 10 {
        seq![digit_char(n)]
    } else {
        decimal_text(n / 10).push(digit_char(n % 10))
    }
}

/// The decimal text of a number.
pub fn decimal_chars(n: u64) -> (res: Vec<char>)
    ensures
        res@ == decimal_text(n as nat),
    decreases n,
{
    let d: u64 = n % 10;
    let c = char_from_ascii((48 + d) as u32);
    if n < 10 {
        let mut v: Vec<char> = Vec::new();
        v.push(c);
        assert(v@ =~= seq![digit_char(n as nat)]);
        v
    } else {
        let mut v = decimal_chars(n / 10);
        v.push(c);
        v
    }
}

/// Equality of two string slices.
pub fn str_eq(a: &str, b: &str) -> (res: bool)
    ensures
        res == (a@ == b@),
{
    let x = str_chars(a);
    let y = str_chars(b);
    if x.len() != y.len() {
        return false;
    }
    let mut i: usize = 0;
    while i < x.len()
        invariant
            x.len() == y.len(),
            x@ == a@,
            y@ == b@,
            i <= x.len(),
            forall|j: int| 0 <= j < i ==> x@[j] == y@[j],
        decreases x.len() - i,
    {
        if x[i] != y[i] {
            assert(a@[i as int] != b@[i as int]);
            return false;
        }
        i = i + 1;
    }
    assert(x@ =~= y@);
    true
}

proof fn lemma_replace_step(t: Seq<char>, pat: Seq<char>, rep: Seq<char>)
    requires
        pat.len() > 0,
    ensures
        match find(t, pat) {
            Some(k) => 0 <= k && k + pat.len() <= t.len() && replace_all(t, pat, rep) == t.take(k)
                + rep + replace_all(t.skip(k + pat.len()), pat, rep),
            None => replace_all(t, pat, rep) == t,
        },
{
    lemma_find_bound(t, pat);
}

/// Every occurrence of `pat` replaced by `rep`, left to right.
pub fn replace_all_chars(s: &[char], pat: &[char], rep: &[char]) -> (res: Vec<char>)
    requires
        pat.len() > 0,
    ensures
        res@ == replace_all(s@, pat@, rep@),
{
    let mut out: Vec<char> = Vec::new();
    let mut i: usize = 0;
    assert(s@.skip(0) =~= s@);
    loop
        invariant
            i <= s.len(),
            pat.len() > 0,
            out@ + replace_all(s@.skip(i as int), pat@, rep@) == replace_all(s@, pat@, rep@),
        decreases s.len() - i,
    {
        let rest = slice_subrange(s, i, s.len());
        assert(rest@ =~= s@.skip(i as int));
        proof {
            lemma_replace_step(rest@, pat@, rep@);
        }
        match find_chars(rest, pat) {
            Some(k) => {
                push_all(&mut out, slice_subrange(rest, 0, k));
                push_all(&mut out, rep);
                assert(rest@.subrange(0, k as int) =~= rest@.take(k as int));
                assert(rest@.skip(k + pat.len()) =~= s@.skip(i + k + pat.len()));
                assert(out@ + replace_all(s@.skip(i + k + pat.len()), pat@, rep@) =~= replace_all(
                    s@,
                    pat@,
                    rep@,
                ));
                i = i + k + pat.len();
            },
            None => {
                push_all(&mut out, rest);
                return out;
            },
        }
    }
}

/// `s` without one trailing carriage return.
pub open spec fn strip_cr(p: Seq<char>) -> Seq<char> {
    if p.len() > 0 && p.last() == '\r' {
        p.drop_last()
    } else {
        p
    }
}

/// The lines of `s` as `str::lines` yields them: split at `\n`, a `\r`
/// before a `\n` dropped, no empty last line after a final `\n`.
pub open spec fn lines(s: Seq<char>) -> Seq<Seq<char>> {
    let pieces = split(s, '\n');
    let body = pieces.drop_last().map_values(|p: Seq<char>| strip_cr(p));
    if pieces.last().len() == 0 {
        body
    } else {
        body.push(pieces.last())
    }
}

/// The lines of `s`.
pub fn lines_of(s: &[char]) -> (res: Vec<Vec<char>>)
    ensures
        views(res@) == lines(s@),
{
    let mut pieces = split_chars(s, '\n');
    proof {
        lemma_split_len(s@, '\n');
    }
    let ghost ps = views(pieces@);
    let last = pieces.pop().unwrap();
    assert(views(pieces@) =~= ps.drop_last());
    let mut res: Vec<Vec<char>> = Vec::new();
    let mut i: usize = 0;
    while i < pieces.len()
        invariant
            i <= pieces.len(),
            views(pieces@) == ps.drop_last(),
            views(res@) == ps.drop_last().map_values(|p: Seq<char>| strip_cr(p)).take(i as int),
        decreases pieces.len() - i,
    {
        let p = pieces[i].as_slice();
        let n = p.len();
        let item = if n > 0 && p[n - 1] == '\r' {
            sub_chars(p, 0, n - 1)
        } else {
            sub_chars(p, 0, n)
        };
        assert(p@.subrange(0, n as int) =~= p@);
        assert(n > 0 ==> p@.subrange(0, n - 1) =~= p@.drop_last());
        let ghost before = views(res@);
        res.push(item);
        assert(views(res@) =~= before.push(strip_cr(p@)));
        assert(ps.drop_last().map_values(|p: Seq<char>| strip_cr(p)).take(i + 1) =~= ps.drop_last().map_values(
            |p: Seq<char>| strip_cr(p),
        ).take(i as int).push(strip_cr(p@)));
        i = i + 1;
    }
    assert(ps.drop_last().map_values(|p: Seq<char>| strip_cr(p)).take(pieces.len() as int)
        =~= ps.drop_last().map_values(|p: Seq<char>| strip_cr(p)));
    if last.len() > 0 {
        let ghost before = views(res@);
        res.push(last);
        assert(views(res@) =~= before.push(ps.last()));
    }
    res
}

} // verus!
