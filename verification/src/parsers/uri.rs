//! The parts of a proxy URI `scheme://user@host:port/path?query#name`,
//! query parameters, percent-decoding, booleans and ports.

use vstd::prelude::*;
use vstd::slice::slice_subrange;
use vstd::string::StringExecFns;
use crate::utils::text::{
    chars_to_string, find_char, find_char_in, lemma_find_char, lemma_rfind_char, rfind_char,
    rfind_char_in, split, split_chars, str_chars, views,
};

verus! {

broadcast use vstd::seq_lib::group_seq_properties;

// ---------------------------------------------------------------------
// Percent-decoding (urlencoding)
// ---------------------------------------------------------------------

/// What `urlencoding::decode` gives for a string: `None` where the decoded
/// bytes are not UTF-8.
pub uninterp spec fn url_decoded(s: Seq<char>) -> Option<Seq<char>>;

/// Calls `urlencoding::decode`. The contract names its result
/// `url_decoded(s)` (a function of the text alone) and states the one fact
/// that its source shows plainly: a text without `%` comes back unchanged.
#[verifier::external_body]
fn percent_decode(s: &str) -> (res: Option<String>)
    ensures
        opt_string(res) == url_decoded(s@),
        s@.contains('%') || opt_string(res) == Some(s@),
{
    match urlencoding::decode(s) {
        Ok(d) => Some(d.into_owned()),
        Err(_) => None,
    }
}

pub open spec fn opt_string(o: Option<String>) -> Option<Seq<char>> {
    match o {
        Some(x) => Some(x@),
        None => None,
    }
}

/// The percent-decoded text, or the text itself where decoding fails.
pub open spec fn decode_or_keep(s: Seq<char>) -> Seq<char> {
    match url_decoded(s) {
        Some(d) => d,
        None => s,
    }
}

/// Percent-decodes `s`, keeping it as it is where the result would not be
/// UTF-8.
pub fn url_decode(s: &[char]) -> (res: String)
    ensures
        res@ == decode_or_keep(s@),
        !s@.contains('%') ==> res@ == s@,
{
    let text = chars_to_string(s);
    match percent_decode(text.as_str()) {
        Some(d) => d,
        None => text,
    }
}

// ---------------------------------------------------------------------
// Booleans and ports
// ---------------------------------------------------------------------

/// `1`/`true` and `0`/`false`.
pub open spec fn spec_parse_bool(s: Seq<char>) -> Option<bool> {
    if s == "1"@ || s == "true"@ {
        Some(true)
    } else if s == "0"@ || s == "false"@ {
        Some(false)
    } else {
        None
    }
}

/// Parses `1`/`true` and `0`/`false`.
pub fn parse_bool(s: &[char]) -> (res: Option<bool>)
    ensures
        res == spec_parse_bool(s@),
{
    let one = str_chars("1");
    let t = str_chars("true");
    let zero = str_chars("0");
    let f = str_chars("false");
    if same_chars(s, one.as_slice()) || same_chars(s, t.as_slice()) {
        Some(true)
    } else if same_chars(s, zero.as_slice()) || same_chars(s, f.as_slice()) {
        Some(false)
    } else {
        None
    }
}

/// Equality of two char slices.
pub fn same_chars(a: &[char], b: &[char]) -> (res: bool)
    ensures
        res == (a@ == b@),
{
    if a.len() != b.len() {
        return false;
    }
    let mut i: usize = 0;
    while i < a.len()
        invariant
            a.len() == b.len(),
            i <= a.len(),
            forall|j: int| 0 <= j < i ==> a@[j] == b@[j],
        decreases a.len() - i,
    {
        if a[i] != b[i] {
            return false;
        }
        i = i + 1;
    }
    assert(a@ =~= b@);
    true
}

pub open spec fn is_digit(c: char) -> bool {
    '0' <= c && c <= '9'
}

/// `s` without its trailing chars that are not ASCII digits.
pub open spec fn trim_end_non_digits(s: Seq<char>) -> Seq<char>
    decreases s.len(),
{
    if s.len() > 0 && !is_digit(s.last()) {
        trim_end_non_digits(s.drop_last())
    } else {
        s
    }
}

pub open spec fn digit_value(c: char) -> nat {
    ((c as u32) - ('0' as u32)) as nat
}

/// The number written in decimal by the digits `d`.
pub open spec fn decimal_value(d: Seq<char>) -> nat
    decreases d.len(),
{
    if d.len() == 0 {
        0
    } else {
        decimal_value(d.drop_last()) * 10 + digit_value(d.last())
    }
}

/// The digits part of a port: the text after an optional leading `+`.
pub open spec fn unsigned_digits(s: Seq<char>) -> Seq<char> {
    if s.len() > 0 && s[0] == '+' {
        s.drop_first()
    } else {
        s
    }
}

pub open spec fn all_digits(d: Seq<char>) -> bool {
    forall|i: int| 0 <= i < d.len() ==> is_digit(#[trigger] d[i])
}

/// What `str::parse::<u16>` accepts: an optional `+`, then one or more ASCII
/// digits whose value is at most 65535.
pub open spec fn spec_parse_u16(s: Seq<char>) -> Option<u16> {
    let d = unsigned_digits(s);
    if d.len() == 0 || !all_digits(d) || decimal_value(d) > 65535 {
        None
    } else {
        Some(decimal_value(d) as u16)
    }
}

proof fn lemma_decimal_grows(d: Seq<char>, k: int)
    requires
        0 <= k <= d.len(),
    ensures
        decimal_value(d.take(k)) <= decimal_value(d),
    decreases d.len() - k,
{
    if k < d.len() {
        lemma_decimal_grows(d, k + 1);
        assert(d.take(k + 1).drop_last() =~= d.take(k));
        assert(decimal_value(d.take(k + 1)) == decimal_value(d.take(k)) * 10 + digit_value(
            d[k],
        ));
    } else {
        assert(d.take(k) =~= d);
    }
}

/// Whether every char is an ASCII digit.
fn check_digits(d: &[char]) -> (res: bool)
    ensures
        res == all_digits(d@),
{
    let mut i: usize = 0;
    while i < d.len()
        invariant
            i <= d.len(),
            forall|j: int| 0 <= j < i ==> is_digit(#[trigger] d@[j]),
        decreases d.len() - i,
    {
        if !('0' <= d[i] && d[i] <= '9') {
            assert(!is_digit(d@[i as int]));
            return false;
        }
        i = i + 1;
    }
    true
}

/// The value of the digits, or `None` above 65535.
fn digits_value(d: &[char]) -> (res: Option<u16>)
    requires
        all_digits(d@),
    ensures
        match res {
            Some(v) => v == decimal_value(d@),
            None => decimal_value(d@) > 65535,
        },
{
    let mut v: u32 = 0;
    let mut k: usize = 0;
    while k < d.len()
        invariant
            k <= d.len(),
            all_digits(d@),
            v == decimal_value(d@.take(k as int)),
            v <= 65535,
        decreases d.len() - k,
    {
        assert(d@.take(k + 1).drop_last() =~= d@.take(k as int));
        assert(is_digit(d@[k as int]));
        let digit: u32 = (d[k] as u32) - ('0' as u32);
        let next: u32 = v * 10 + digit;
        assert(next == decimal_value(d@.take(k + 1)));
        if next > 65535 {
            proof {
                lemma_decimal_grows(d@, k + 1);
            }
            return None;
        }
        v = next;
        k = k + 1;
    }
    assert(d@.take(d.len() as int) =~= d@);
    Some(v as u16)
}

/// Parses a port as `str::parse::<u16>` does.
pub fn parse_u16(s: &[char]) -> (res: Option<u16>)
    ensures
        res == spec_parse_u16(s@),
{
    let start: usize = if s.len() > 0 && s[0] == '+' {
        1
    } else {
        0
    };
    let d = slice_subrange(s, start, s.len());
    assert(d@ =~= unsigned_digits(s@));
    if d.len() == 0 {
        return None;
    }
    if !check_digits(d) {
        return None;
    }
    digits_value(d)
}

// ---------------------------------------------------------------------
// Query parameters
// ---------------------------------------------------------------------

/// One `key=value` piece, cut at its first `=`.
pub open spec fn pair_of(piece: Seq<char>) -> (Seq<char>, Seq<char>) {
    match find_char(piece, '=') {
        Some(i) => (piece.take(i), piece.skip(i + 1)),
        None => (piece, Seq::empty()),
    }
}

pub open spec fn has_eq(piece: Seq<char>) -> bool {
    find_char(piece, '=') is Some
}

/// The `key=value` pairs of a query, in order; pieces without `=` are
/// skipped.
pub open spec fn query_pairs(q: Seq<char>) -> Seq<(Seq<char>, Seq<char>)> {
    split(q, '&').filter(|p: Seq<char>| has_eq(p)).map_values(|p: Seq<char>| pair_of(p))
}

/// The value of the last pair with the key (later pairs overwrite earlier ones).
pub open spec fn lookup(pairs: Seq<(Seq<char>, Seq<char>)>, key: Seq<char>) -> Option<Seq<char>>
    decreases pairs.len(),
{
    if pairs.len() == 0 {
        None
    } else if pairs.last().0 == key {
        Some(pairs.last().1)
    } else {
        lookup(pairs.drop_last(), key)
    }
}

/// Query parameters: every `key=value` pair in order.
pub struct QueryParams {
    pub pairs: Vec<(String, String)>,
}

impl View for QueryParams {
    type V = Seq<(Seq<char>, Seq<char>)>;

    open spec fn view(&self) -> Seq<(Seq<char>, Seq<char>)> {
        self.pairs@.map_values(|p: (String, String)| (p.0@, p.1@))
    }
}

impl QueryParams {
    /// The value for `key`, the last one where the key repeats.
    pub fn get(&self, key: &str) -> (res: Option<String>)
        ensures
            match lookup(self@, key@) {
                Some(v) => res matches Some(x) && x@ == v,
                None => res is None,
            },
    {
        let wanted = String::from_str(key);
        let mut i: usize = self.pairs.len();
        assert(self@.take(i as int) =~= self@);
        while i > 0
            invariant
                i <= self.pairs.len(),
                wanted@ == key@,
                lookup(self@, key@) == lookup(self@.take(i as int), key@),
            decreases i,
        {
            assert(self@.take(i as int).drop_last() =~= self@.take(i - 1));
            assert(self@.take(i as int).last() == self@[i - 1]);
            if self.pairs[i - 1].0 == wanted {
                return Some(self.pairs[i - 1].1.clone());
            }
            i = i - 1;
        }
        None
    }
}

/// Splits a query into its `key=value` pairs.
pub fn parse_query_params(query: &[char]) -> (res: QueryParams)
    ensures
        res@ == query_pairs(query@),
{
    let pieces = split_chars(query, '&');
    let ghost ps = views(pieces@);
    let mut pairs: Vec<(String, String)> = Vec::new();
    let mut i: usize = 0;
    while i < pieces.len()
        invariant
            i <= pieces.len(),
            ps == views(pieces@),
            pairs@.map_values(|p: (String, String)| (p.0@, p.1@)) == ps.take(i as int).filter(
                |p: Seq<char>| has_eq(p),
            ).map_values(|p: Seq<char>| pair_of(p)),
        decreases pieces.len() - i,
    {
        let piece = pieces[i].as_slice();
        let ghost before = pairs@.map_values(|p: (String, String)| (p.0@, p.1@));
        assert(ps.take(i + 1) =~= ps.take(i as int).push(piece@));
        proof {
            ps.take(i as int).lemma_filter_push(piece@, |p: Seq<char>| has_eq(p));
            lemma_find_char(piece@, '=');
        }
        match find_char_in(piece, '=') {
            Some(eq) => {
                let key = chars_to_string(slice_subrange(piece, 0, eq));
                let value = chars_to_string(slice_subrange(piece, eq + 1, piece.len()));
                assert(piece@.subrange(0, eq as int) =~= piece@.take(eq as int));
                assert(piece@.subrange(eq + 1, piece@.len() as int) =~= piece@.skip(eq + 1));
                let ghost kv = (key@, value@);
                pairs.push((key, value));
                assert(pairs@.map_values(|p: (String, String)| (p.0@, p.1@)) =~= before.push(kv));
                assert(ps.take(i + 1).filter(|p: Seq<char>| has_eq(p)) == ps.take(i as int).filter(
                    |p: Seq<char>| has_eq(p),
                ).push(piece@));
                assert(ps.take(i + 1).filter(|p: Seq<char>| has_eq(p)).map_values(
                    |p: Seq<char>| pair_of(p),
                ) =~= before.push(pair_of(piece@)));
            },
            None => {},
        }
        i = i + 1;
    }
    assert(ps.take(pieces.len() as int) =~= ps);
    QueryParams { pairs }
}

// ---------------------------------------------------------------------
// URI parts
// ---------------------------------------------------------------------

/// Why a proxy URI was refused.
#[derive(Debug, Clone, Copy, PartialEq, Eq, Structural)]
pub enum ProxyParseError {
    /// The URI does not start with the protocol's scheme.
    WrongScheme,
    /// No `@` between the user part and the host.
    InvalidFormat,
    /// No `:` between host and port.
    InvalidHostPort,
    /// The port is not a number from 0 to 65535.
    InvalidPort,
    /// No parser knows the scheme.
    UnsupportedScheme,
}

/// The parts of `user@host:port?query#name` (the scheme removed).
pub struct UriParts {
    pub user: Vec<char>,
    pub server: Vec<char>,
    pub port: u16,
    pub query: Option<Vec<char>>,
    pub fragment: Option<Vec<char>>,
}

pub struct UriPartsView {
    pub user: Seq<char>,
    pub server: Seq<char>,
    pub port: u16,
    pub query: Option<Seq<char>>,
    pub fragment: Option<Seq<char>>,
}

pub open spec fn opt_chars(o: Option<Vec<char>>) -> Option<Seq<char>> {
    match o {
        Some(v) => Some(v@),
        None => None,
    }
}

impl View for UriParts {
    type V = UriPartsView;

    open spec fn view(&self) -> UriPartsView {
        UriPartsView {
            user: self.user@,
            server: self.server@,
            port: self.port,
            query: opt_chars(self.query),
            fragment: opt_chars(self.fragment),
        }
    }
}

/// `s` cut at the first `c`: the text before it, and the text after it if
/// there is one.
pub open spec fn cut_first(s: Seq<char>, c: char) -> (Seq<char>, Option<Seq<char>>) {
    match find_char(s, c) {
        Some(i) => (s.take(i), Some(s.skip(i + 1))),
        None => (s, None),
    }
}

/// `rest` read as `user@host:port[/path][?query][#name]`: the name after
/// the first `#`, the query after the first `?` before it, the user before
/// the first `@`, then (where `cut_path`) the host part ends at the first
/// `/`, and the port is after its last `:` with trailing non-digits dropped.
pub open spec fn spec_uri_parts(rest: Seq<char>, cut_path: bool) -> Result<
    UriPartsView,
    ProxyParseError,
> {
    let (main, fragment) = cut_first(rest, '#');
    let (user_host, query) = cut_first(main, '?');
    match find_char(user_host, '@') {
        None => Err(ProxyParseError::InvalidFormat),
        Some(at) => {
            let user = user_host.take(at);
            let host_part = user_host.skip(at + 1);
            let host_port = if cut_path {
                cut_first(host_part, '/').0
            } else {
                host_part
            };
            match rfind_char(host_port, ':') {
                None => Err(ProxyParseError::InvalidHostPort),
                Some(colon) => match spec_parse_u16(
                    trim_end_non_digits(host_port.skip(colon + 1)),
                ) {
                    None => Err(ProxyParseError::InvalidPort),
                    Some(port) => Ok(
                        UriPartsView {
                            user,
                            server: host_port.take(colon),
                            port,
                            query,
                            fragment,
                        },
                    ),
                },
            }
        },
    }
}

/// Bounds of `s` without its trailing non-digits.
fn trim_end_non_digits_len(s: &[char]) -> (n: usize)
    ensures
        n <= s.len(),
        s@.take(n as int) == trim_end_non_digits(s@),
{
    let mut n: usize = s.len();
    assert(s@.take(n as int) =~= s@);
    while n > 0 && !('0' <= s[n - 1] && s[n - 1] <= '9')
        invariant
            n <= s.len(),
            trim_end_non_digits(s@) == trim_end_non_digits(s@.take(n as int)),
        decreases n,
    {
        assert(s@.take(n as int).drop_last() =~= s@.take(n - 1));
        n = n - 1;
    }
    n
}

/// Cuts `s` at the first `c`.
fn cut_first_exec(s: &[char], c: char) -> (res: (&[char], Option<&[char]>))
    ensures
        res.0@ == cut_first(s@, c).0,
        match cut_first(s@, c).1 {
            Some(t) => res.1 matches Some(x) && x@ == t,
            None => res.1 is None,
        },
{
    proof {
        lemma_find_char(s@, c);
    }
    match find_char_in(s, c) {
        Some(i) => {
            let before = slice_subrange(s, 0, i);
            let after = slice_subrange(s, i + 1, s.len());
            assert(s@.subrange(0, i as int) =~= s@.take(i as int));
            assert(s@.subrange(i + 1, s@.len() as int) =~= s@.skip(i + 1));
            (before, Some(after))
        },
        None => (s, None),
    }
}

fn copy_opt(o: Option<&[char]>) -> (res: Option<Vec<char>>)
    ensures
        match o {
            Some(x) => res matches Some(y) && y@ == x@,
            None => res is None,
        },
{
    match o {
        Some(x) => Some(slice_to_chars(x)),
        None => None,
    }
}

fn slice_to_chars(x: &[char]) -> (res: Vec<char>)
    ensures
        res@ == x@,
{
    let mut res: Vec<char> = Vec::new();
    let mut i: usize = 0;
    while i < x.len()
        invariant
            i <= x.len(),
            res@ == x@.take(i as int),
        decreases x.len() - i,
    {
        res.push(x[i]);
        i = i + 1;
    }
    assert(x@.take(x.len() as int) =~= x@);
    res
}

/// The host and port of `host:port`.
fn host_and_port(host_port: &[char]) -> (res: Result<(Vec<char>, u16), ProxyParseError>)
    ensures
        match rfind_char(host_port@, ':') {
            None => res == Err::<(Vec<char>, u16), ProxyParseError>(ProxyParseError::InvalidHostPort),
            Some(colon) => match spec_parse_u16(trim_end_non_digits(host_port@.skip(colon + 1))) {
                None => res == Err::<(Vec<char>, u16), ProxyParseError>(ProxyParseError::InvalidPort),
                Some(port) => res matches Ok(r) && r.0@ == host_port@.take(colon) && r.1 == port,
            },
        },
{
    let colon = match rfind_char_in(host_port, ':') {
        Some(colon) => colon,
        None => return Err(ProxyParseError::InvalidHostPort),
    };
    let port_text = slice_subrange(host_port, colon + 1, host_port.len());
    assert(port_text@ =~= host_port@.skip(colon + 1));
    let n = trim_end_non_digits_len(port_text);
    let digits = slice_subrange(port_text, 0, n);
    assert(digits@ =~= port_text@.take(n as int));
    let port = match parse_u16(digits) {
        Some(p) => p,
        None => return Err(ProxyParseError::InvalidPort),
    };
    let server = slice_subrange(host_port, 0, colon);
    assert(server@ =~= host_port@.take(colon as int));
    Ok((slice_to_chars(server), port))
}

/// Splits `user@host:port[/path][?query][#name]` into its parts.
pub fn uri_parts(rest: &[char], cut_path: bool) -> (res: Result<UriParts, ProxyParseError>)
    ensures
        match spec_uri_parts(rest@, cut_path) {
            Ok(p) => res matches Ok(q) && q@ == p,
            Err(e) => res == Err::<UriParts, ProxyParseError>(e),
        },
{
    let (main, fragment) = cut_first_exec(rest, '#');
    let (user_host, query) = cut_first_exec(main, '?');
    let at = match find_char_in(user_host, '@') {
        Some(at) => at,
        None => return Err(ProxyParseError::InvalidFormat),
    };
    let user = slice_subrange(user_host, 0, at);
    let host_part = slice_subrange(user_host, at + 1, user_host.len());
    assert(user@ =~= user_host@.take(at as int));
    assert(host_part@ =~= user_host@.skip(at + 1));
    let host_port = if cut_path {
        cut_first_exec(host_part, '/').0
    } else {
        host_part
    };
    let (server, port) = match host_and_port(host_port) {
        Ok(hp) => hp,
        Err(e) => return Err(e),
    };
    Ok(
        UriParts {
            user: slice_to_chars(user),
            server,
            port,
            query: copy_opt(query),
            fragment: copy_opt(fragment),
        },
    )
}

// ---------------------------------------------------------------------
// Optional parameters
// ---------------------------------------------------------------------

pub open spec fn opt_decode(o: Option<Seq<char>>) -> Option<Seq<char>> {
    match o {
        Some(s) => Some(decode_or_keep(s)),
        None => None,
    }
}

pub open spec fn opt_bool(o: Option<Seq<char>>) -> Option<bool> {
    match o {
        Some(s) => spec_parse_bool(s),
        None => None,
    }
}

/// The query of a URI, empty where it has none.
pub open spec fn query_or_empty(q: Option<Seq<char>>) -> Seq<char> {
    match q {
        Some(q) => q,
        None => Seq::empty(),
    }
}

impl QueryParams {
    /// The percent-decoded value for `key`.
    pub fn get_decoded(&self, key: &str) -> (res: Option<String>)
        ensures
            opt_string(res) == opt_decode(lookup(self@, key@)),
    {
        match self.get(key) {
            Some(v) => {
                let c = str_chars(v.as_str());
                Some(url_decode(c.as_slice()))
            },
            None => None,
        }
    }

    /// The value for `key`, as written.
    pub fn get_raw(&self, key: &str) -> (res: Option<String>)
        ensures
            opt_string(res) == lookup(self@, key@),
    {
        self.get(key)
    }

    /// The value for `key` read as `1`/`true`/`0`/`false`.
    pub fn get_bool(&self, key: &str) -> (res: Option<bool>)
        ensures
            res == opt_bool(lookup(self@, key@)),
    {
        match self.get(key) {
            Some(v) => {
                let c = str_chars(v.as_str());
                parse_bool(c.as_slice())
            },
            None => None,
        }
    }
}

/// The query parameters of the URI parts (none where it has no query).
pub fn params_of(parts: &UriParts) -> (res: QueryParams)
    ensures
        res@ == query_pairs(query_or_empty(parts@.query)),
{
    match &parts.query {
        Some(q) => parse_query_params(q.as_slice()),
        None => {
            let empty: Vec<char> = Vec::new();
            parse_query_params(empty.as_slice())
        },
    }
}

/// The name in the fragment, percent-decoded, or the default name.
pub fn name_of(parts: &UriParts, default: &str) -> (res: String)
    ensures
        res@ == match parts@.fragment {
            Some(f) => decode_or_keep(f),
            None => default@,
        },
{
    match &parts.fragment {
        Some(f) => url_decode(f.as_slice()),
        None => String::from_str(default),
    }
}

} // verus!
