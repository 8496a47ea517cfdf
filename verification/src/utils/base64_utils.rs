//! Base64 decoding of subscription bodies.
//!
//! Both alphabets are read (`+` / `-` for 62, `/` / `_` for 63), white
//! space anywhere is skipped, and up to two `=` may close the text; the
//! last group may be short (2 or 3 digits), as unpadded bodies often are.

use vstd::prelude::*;
use crate::utils::text::{char_is_whitespace, str_chars, sub_chars, white_space};

verus! {

broadcast use vstd::seq_lib::group_seq_properties;

/// Why a text is not Base64.
#[derive(Debug, Clone, Copy, PartialEq, Eq, Structural)]
pub enum Base64Error {
    /// A char outside both alphabets (the `=` padding aside).
    InvalidChar,
    /// One digit left over after the last full group.
    InvalidLength,
}

/// The value of a Base64 digit.
pub open spec fn sextet(c: char) -> Option<int> {
    if 'A' <= c && c <= 'Z' {
        Some(c as int - 'A' as int)
    } else if 'a' <= c && c <= 'z' {
        Some(c as int - 'a' as int + 26)
    } else if '0' <= c && c <= '9' {
        Some(c as int - '0' as int + 52)
    } else if c == '+' || c == '-' {
        Some(62)
    } else if c == '/' || c == '_' {
        Some(63)
    } else {
        None
    }
}

/// The text without its white space.
pub open spec fn without_ws(s: Seq<char>) -> Seq<char> {
    s.filter(|c: char| !white_space(c))
}

/// How many `=` close the text (at most two).
pub open spec fn padding(s: Seq<char>) -> int {
    if s.len() >= 2 && s[s.len() - 1] == '=' && s[s.len() - 2] == '=' {
        2
    } else if s.len() >= 1 && s[s.len() - 1] == '=' {
        1
    } else {
        0
    }
}

/// The digits of a text: white space dropped, closing padding cut.
pub open spec fn digits_of(s: Seq<char>) -> Seq<char> {
    let c = without_ws(s);
    c.take(c.len() - padding(c))
}

pub open spec fn byte(x: int) -> u8 {
    x as u8
}

/// The bytes of a run of digit values: three per full group of four, two
/// for a last group of three, one for a last group of two.
pub open spec fn decode_values(v: Seq<int>) -> Seq<u8>
    decreases v.len(),
{
    if v.len() >= 4 {
        seq![
            byte(v[0] * 4 + v[1] / 16),
            byte((v[1] % 16) * 16 + v[2] / 4),
            byte((v[2] % 4) * 64 + v[3]),
        ] + decode_values(v.skip(4))
    } else if v.len() == 3 {
        seq![byte(v[0] * 4 + v[1] / 16), byte((v[1] % 16) * 16 + v[2] / 4)]
    } else if v.len() == 2 {
        seq![byte(v[0] * 4 + v[1] / 16)]
    } else {
        Seq::empty()
    }
}

/// What a text decodes to, or why it does not.
pub open spec fn spec_decode(s: Seq<char>) -> Result<Seq<u8>, Base64Error> {
    let d = digits_of(s);
    if exists|j: int| 0 <= j < d.len() && #[trigger] sextet(d[j]) is None {
        Err(Base64Error::InvalidChar)
    } else if d.len() % 4 == 1 {
        Err(Base64Error::InvalidLength)
    } else {
        Ok(decode_values(d.map_values(|c: char| sextet(c)->Some_0)))
    }
}

/// The value of a digit.
fn sextet_of(c: char) -> (res: Option<u8>)
    ensures
        match sextet(c) {
            Some(v) => res == Some(v as u8) && 0 <= v < 64,
            None => res is None,
        },
{
    let u = c as u32;
    if 'A' <= c && c <= 'Z' {
        Some((u - 65) as u8)
    } else if 'a' <= c && c <= 'z' {
        Some((u - 97 + 26) as u8)
    } else if '0' <= c && c <= '9' {
        Some((u - 48 + 52) as u8)
    } else if c == '+' || c == '-' {
        Some(62)
    } else if c == '/' || c == '_' {
        Some(63)
    } else {
        None
    }
}

/// The text without its white space.
fn strip_ws(s: &Vec<char>) -> (res: Vec<char>)
    ensures
        res@ == without_ws(s@),
{
    let mut res: Vec<char> = Vec::new();
    let mut i: usize = 0;
    while i < s.len()
        invariant
            i <= s.len(),
            res@ == s@.take(i as int).filter(|c: char| !white_space(c)),
        decreases s.len() - i,
    {
        proof {
            s@.take(i as int).lemma_filter_push(s@[i as int], |c: char| !white_space(c));
        }
        assert(s@.take(i + 1) =~= s@.take(i as int).push(s@[i as int]));
        if !char_is_whitespace(s[i]) {
            res.push(s[i]);
        }
        i = i + 1;
    }
    assert(s@.take(s.len() as int) =~= s@);
    res
}

/// The three bytes of a full group.
fn group_bytes(v0: u8, v1: u8, v2: u8, v3: u8) -> (res: (u8, u8, u8))
    requires
        v0 < 64,
        v1 < 64,
        v2 < 64,
        v3 < 64,
    ensures
        res.0 == byte(v0 * 4 + v1 / 16),
        res.1 == byte((v1 % 16) * 16 + v2 / 4),
        res.2 == byte((v2 % 4) * 64 + v3),
{
    let b0: u8 = v0 * 4 + v1 / 16;
    let b1: u8 = (v1 % 16) * 16 + v2 / 4;
    let b2: u8 = (v2 % 4) * 64 + v3;
    (b0, b1, b2)
}

proof fn lemma_decode_step(v: Seq<int>, k: int)
    requires
        0 <= k,
        k + 4 <= v.len(),
    ensures
        decode_values(v.skip(k)) == seq![
            byte(v[k] * 4 + v[k + 1] / 16),
            byte((v[k + 1] % 16) * 16 + v[k + 2] / 4),
            byte((v[k + 2] % 4) * 64 + v[k + 3]),
        ] + decode_values(v.skip(k + 4)),
{
    let w = v.skip(k);
    assert(w.skip(4) =~= v.skip(k + 4));
    assert(w[0] == v[k] && w[1] == v[k + 1] && w[2] == v[k + 2] && w[3] == v[k + 3]);
}

/// The values of the digits; the first char that is no digit is refused.
fn digit_values(d: &Vec<char>) -> (res: Result<Vec<u8>, Base64Error>)
    ensures
        match res {
            Ok(v) => v.len() == d.len() && (forall|j: int| 0 <= j < d.len() ==> #[trigger] sextet(d@[j])
                == Some(v@[j] as int)) && (forall|j: int| 0 <= j < v.len() ==> v@[j] < 64),
            Err(e) => e == Base64Error::InvalidChar && exists|j: int| 0 <= j < d.len() && #[trigger] sextet(d@[j]) is None,
        },
{
    let mut vals: Vec<u8> = Vec::new();
    let mut i: usize = 0;
    while i < d.len()
        invariant
            i <= d.len(),
            vals.len() == i,
            forall|j: int| 0 <= j < i ==> #[trigger] sextet(d@[j]) == Some(vals@[j] as int),
            forall|j: int| 0 <= j < i ==> vals@[j] < 64,
        decreases d.len() - i,
    {
        match sextet_of(d[i]) {
            Some(v) => {
                vals.push(v);
            },
            None => {
                assert(sextet(d@[i as int]) is None);
                return Err(Base64Error::InvalidChar);
            },
        }
        i = i + 1;
    }
    Ok(vals)
}

pub open spec fn as_ints(v: Seq<u8>) -> Seq<int> {
    v.map_values(|x: u8| x as int)
}

/// The bytes of a run of digit values.
fn decode_run(vals: &Vec<u8>) -> (res: Vec<u8>)
    requires
        vals.len() % 4 != 1,
        forall|j: int| 0 <= j < vals.len() ==> vals@[j] < 64,
    ensures
        res@ == decode_values(as_ints(vals@)),
{
    let ghost dv = as_ints(vals@);
    let len = vals.len();
    let mut out: Vec<u8> = Vec::new();
    let mut k: usize = 0;
    assert(dv.skip(0) =~= dv);
    while len - k >= 4
        invariant
            k <= len,
            len == vals.len(),
            dv == as_ints(vals@),
            forall|j: int| 0 <= j < len ==> vals@[j] < 64,
            out@ + decode_values(dv.skip(k as int)) == decode_values(dv),
        decreases len - k,
    {
        let (b0, b1, b2) = group_bytes(vals[k], vals[k + 1], vals[k + 2], vals[k + 3]);
        proof {
            lemma_decode_step(dv, k as int);
        }
        let ghost before = out@;
        out.push(b0);
        out.push(b1);
        out.push(b2);
        assert(out@ =~= before + seq![b0, b1, b2]);
        assert(out@ + decode_values(dv.skip(k + 4)) =~= before + decode_values(dv.skip(k as int)));
        k = k + 4;
    }
    let rest = len - k;
    let ghost tail = dv.skip(k as int);
    assert(tail.len() == rest);
    if rest == 3 {
        let (b0, b1, _b2) = group_bytes(vals[k], vals[k + 1], vals[k + 2], 0);
        assert(tail[0] == vals@[k as int] && tail[1] == vals@[k + 1] && tail[2] == vals@[k + 2]);
        out.push(b0);
        out.push(b1);
    } else if rest == 2 {
        let (b0, _b1, _b2) = group_bytes(vals[k], vals[k + 1], 0, 0);
        assert(tail[0] == vals@[k as int] && tail[1] == vals@[k + 1]);
        out.push(b0);
    }
    assert(out@ =~= decode_values(dv));
    out
}

/// Decodes Base64 text.
pub fn decode(input: &str) -> (res: Result<Vec<u8>, Base64Error>)
    ensures
        match spec_decode(input@) {
            Ok(b) => res matches Ok(v) && v@ == b,
            Err(e) => res == Err::<Vec<u8>, Base64Error>(e),
        },
{
    let all = str_chars(input);
    let c = strip_ws(&all);
    let n = c.len();
    let pad: usize = if n >= 2 && c[n - 1] == '=' && c[n - 2] == '=' {
        2
    } else if n >= 1 && c[n - 1] == '=' {
        1
    } else {
        0
    };
    let digits = sub_chars(c.as_slice(), 0, n - pad);
    assert(digits@ =~= digits_of(input@));
    let vals = match digit_values(&digits) {
        Ok(v) => v,
        Err(e) => return Err(e),
    };
    let ghost d = digits@;
    assert(!exists|j: int| 0 <= j < d.len() && #[trigger] sextet(d[j]) is None);
    if vals.len() % 4 == 1 {
        return Err(Base64Error::InvalidLength);
    }
    let out = decode_run(&vals);
    assert(as_ints(vals@) =~= d.map_values(|ch: char| sextet(ch)->Some_0));
    Ok(out)
}

// ---------------------------------------------------------------------
// Encoding, and the law that decoding undoes it
// ---------------------------------------------------------------------

/// The standard-alphabet digit of a value below 64.
pub open spec fn digit_of(v: int) -> char {
    if v < 26 {
        (65 + v) as char
    } else if v < 52 {
        (97 + v - 26) as char
    } else if v < 62 {
        (48 + v - 52) as char
    } else if v == 62 {
        '+'
    } else {
        '/'
    }
}

/// The digit values of bytes: four per three bytes, the last group cut
/// short.
pub open spec fn encode_values(b: Seq<u8>) -> Seq<int>
    decreases b.len(),
{
    if b.len() >= 3 {
        seq![
            (b[0] as int) / 4,
            ((b[0] as int) % 4) * 16 + (b[1] as int) / 16,
            ((b[1] as int) % 16) * 4 + (b[2] as int) / 64,
            (b[2] as int) % 64,
        ] + encode_values(b.skip(3))
    } else if b.len() == 2 {
        seq![(b[0] as int) / 4, ((b[0] as int) % 4) * 16 + (b[1] as int) / 16, ((b[1] as int) % 16) * 4]
    } else if b.len() == 1 {
        seq![(b[0] as int) / 4, ((b[0] as int) % 4) * 16]
    } else {
        Seq::empty()
    }
}

/// How many `=` close the Base64 text of `n` bytes.
pub open spec fn pad_len(n: nat) -> nat {
    if n % 3 == 1 {
        2
    } else if n % 3 == 2 {
        1
    } else {
        0
    }
}

/// Standard Base64 with padding.
pub open spec fn spec_encode(b: Seq<u8>) -> Seq<char> {
    encode_values(b).map_values(|v: int| digit_of(v)) + Seq::new(pad_len(b.len()), |i: int| '=')
}

proof fn lemma_encode_values(b: Seq<u8>)
    ensures
        encode_values(b).len() == 4 * (b.len() / 3) + (if b.len() % 3 == 0 {
            0int
        } else {
            (b.len() % 3) as int + 1
        }),
        forall|i: int| 0 <= i < encode_values(b).len() ==> 0 <= #[trigger] encode_values(b)[i] < 64,
        decode_values(encode_values(b)) == b,
    decreases b.len(),
{
    let v = encode_values(b);
    if b.len() >= 3 {
        lemma_encode_values(b.skip(3));
        let head = seq![
            (b[0] as int) / 4,
            ((b[0] as int) % 4) * 16 + (b[1] as int) / 16,
            ((b[1] as int) % 16) * 4 + (b[2] as int) / 64,
            (b[2] as int) % 64,
        ];
        assert(v == head + encode_values(b.skip(3)));
        assert(v.skip(4) =~= encode_values(b.skip(3)));
        assert(v[0] == head[0] && v[1] == head[1] && v[2] == head[2] && v[3] == head[3]);
        assert forall|i: int| 0 <= i < v.len() implies 0 <= #[trigger] v[i] < 64 by {
            if i >= 4 {
                assert(v[i] == encode_values(b.skip(3))[i - 4]);
            }
        }
        let x0 = b[0] as int;
        let x1 = b[1] as int;
        let x2 = b[2] as int;
        assert(byte(v[0] * 4 + v[1] / 16) == b[0]) by {
            assert((x0 / 4) * 4 + ((x0 % 4) * 16 + x1 / 16) / 16 == x0) by (nonlinear_arith)
                requires
                    0 <= x0 < 256,
                    0 <= x1 < 256,
            ;
        }
        assert(byte((v[1] % 16) * 16 + v[2] / 4) == b[1]) by {
            assert((((x0 % 4) * 16 + x1 / 16) % 16) * 16 + ((x1 % 16) * 4 + x2 / 64) / 4 == x1)
                by (nonlinear_arith)
                requires
                    0 <= x0 < 256,
                    0 <= x1 < 256,
                    0 <= x2 < 256,
            ;
        }
        assert(byte((v[2] % 4) * 64 + v[3]) == b[2]) by {
            assert((((x1 % 16) * 4 + x2 / 64) % 4) * 64 + x2 % 64 == x2) by (nonlinear_arith)
                requires
                    0 <= x1 < 256,
                    0 <= x2 < 256,
            ;
        }
        assert(b =~= seq![b[0], b[1], b[2]] + b.skip(3));
    } else if b.len() == 2 {
        let x0 = b[0] as int;
        let x1 = b[1] as int;
        assert(byte(v[0] * 4 + v[1] / 16) == b[0]) by {
            assert((x0 / 4) * 4 + ((x0 % 4) * 16 + x1 / 16) / 16 == x0) by (nonlinear_arith)
                requires
                    0 <= x0 < 256,
                    0 <= x1 < 256,
            ;
        }
        assert(byte((v[1] % 16) * 16 + v[2] / 4) == b[1]) by {
            assert((((x0 % 4) * 16 + x1 / 16) % 16) * 16 + ((x1 % 16) * 4) / 4 == x1)
                by (nonlinear_arith)
                requires
                    0 <= x0 < 256,
                    0 <= x1 < 256,
            ;
        }
        assert(b =~= seq![b[0], b[1]]);
    } else if b.len() == 1 {
        let x0 = b[0] as int;
        assert(byte(v[0] * 4 + v[1] / 16) == b[0]) by {
            assert((x0 / 4) * 4 + ((x0 % 4) * 16) / 16 == x0) by (nonlinear_arith)
                requires
                    0 <= x0 < 256,
            ;
        }
        assert(b =~= seq![b[0]]);
    } else {
        assert(b =~= Seq::<u8>::empty());
    }
}

proof fn lemma_digit_of(v: int)
    requires
        0 <= v < 64,
    ensures
        sextet(digit_of(v)) == Some(v),
        !white_space(digit_of(v)),
        digit_of(v) != '=',
{
}

/// Decoding the Base64 text of bytes gives the bytes back.
pub proof fn law_decode_encode(b: Seq<u8>)
    ensures
        spec_decode(spec_encode(b)) == Ok::<Seq<u8>, Base64Error>(b),
{
    let v = encode_values(b);
    lemma_encode_values(b);
    let d = v.map_values(|x: int| digit_of(x));
    let p = Seq::new(pad_len(b.len()), |i: int| '=');
    let t = spec_encode(b);
    assert forall|i: int| 0 <= i < d.len() implies sextet(#[trigger] d[i]) == Some(v[i]) && !white_space(
        d[i],
    ) && d[i] != '=' by {
        lemma_digit_of(v[i]);
    }
    // no white space: the text is its own digits and padding
    assert(t == d + p);
    assert forall|i: int| 0 <= i < t.len() implies !white_space(#[trigger] t[i]) by {
        if i < d.len() {
            assert(t[i] == d[i]);
        } else {
            assert(t[i] == '=');
        }
    }
    lemma_filter_no_ws(t);
    assert(without_ws(t) == t);
    // the padding
    if pad_len(b.len()) == 2 {
        assert(d.len() >= 2);
        assert(t[t.len() - 1] == '=' && t[t.len() - 2] == '=');
    } else if pad_len(b.len()) == 1 {
        assert(d.len() >= 3);
        assert(t[t.len() - 1] == '=' && t[t.len() - 2] == d[d.len() - 1]);
    } else if t.len() > 0 {
        assert(t[t.len() - 1] == d[d.len() - 1]);
    }
    assert(padding(t) == pad_len(b.len()));
    assert(digits_of(t) =~= d);
    assert(d.map_values(|c: char| sextet(c)->Some_0) =~= v);
}

proof fn lemma_filter_no_ws(s: Seq<char>)
    requires
        forall|i: int| 0 <= i < s.len() ==> !white_space(#[trigger] s[i]),
    ensures
        without_ws(s) == s,
    decreases s.len(),
{
    reveal(Seq::filter);
    if s.len() > 0 {
        lemma_filter_no_ws(s.drop_last());
        assert(!white_space(s[s.len() - 1]));
        assert(s.drop_last().push(s.last()) =~= s);
    }
}

} // verus!
