//! Decimal integer parsing with the rules of Rust's `FromStr` for integers:
//! an optional sign (`+` for any type, `-` only for signed types), then one or
//! more ASCII digits and nothing else; values out of range are rejected.
use vstd::prelude::*;
use crate::text::{chars_of, fold, folded, eq_lit};

verus! {

pub open spec fn is_digit(c: char) -> bool {
    '0' <= c && c <= '9'
}

pub open spec fn digit_value(c: char) -> int {
    (c as int) - ('0' as int)
}

pub open spec fn all_digits(s: Seq<char>) -> bool {
    forall|i: int| 0 <= i < s.len() ==> is_digit(#[trigger] s[i])
}

/// The number that a run of decimal digits denotes.
pub open spec fn digits_value(s: Seq<char>) -> int
    decreases s.len(),
{
    if s.len() == 0 {
        0
    } else {
        digits_value(s.drop_last()) * 10 + digit_value(s.last())
    }
}

/// The value of a non-empty run of digits; `None` for anything else.
pub open spec fn digit_run_value(s: Seq<char>) -> Option<int> {
    if s.len() > 0 && all_digits(s) {
        Some(digits_value(s))
    } else {
        None
    }
}

/// The value that `FromStr` reads for an unsigned integer type, before the
/// range check.
pub open spec fn unsigned_text_value(s: Seq<char>) -> Option<int> {
    if s.len() > 0 && s[0] == '+' {
        digit_run_value(s.drop_first())
    } else {
        digit_run_value(s)
    }
}

/// The value that `FromStr` reads for a signed integer type, before the
/// range check.
pub open spec fn signed_text_value(s: Seq<char>) -> Option<int> {
    if s.len() > 0 && s[0] == '-' {
        match digit_run_value(s.drop_first()) {
            Some(v) => Some(-v),
            None => None,
        }
    } else {
        unsigned_text_value(s)
    }
}

/// The value read from `s` when it lies in `lo..=hi`.
pub open spec fn in_range(v: Option<int>, lo: int, hi: int) -> Option<int> {
    match v {
        Some(x) => if lo <= x && x <= hi { Some(x) } else { None },
        None => None,
    }
}

pub proof fn lemma_digits_value_nonneg(s: Seq<char>)
    requires
        all_digits(s),
    ensures
        digits_value(s) >= 0,
    decreases s.len(),
{
    if s.len() > 0 {
        lemma_digits_value_nonneg(s.drop_last());
    }
}

proof fn lemma_digits_value_grows(s: Seq<char>, k: int)
    requires
        all_digits(s),
        0 <= k <= s.len(),
    ensures
        digits_value(s.take(k)) <= digits_value(s),
    decreases s.len() - k,
{
    if k < s.len() {
        assert(s.take(k + 1).drop_last() =~= s.take(k));
        lemma_digits_value_grows(s, k + 1);
        lemma_digits_value_nonneg(s.take(k));
        assert(all_digits(s.take(k + 1)));
    } else {
        assert(s.take(k) =~= s);
    }
}

/// Read a non-empty run of digits starting at `start`; `None` when the run is
/// empty, holds a non-digit, or denotes a number above `max`.
fn digit_run_bounded(s: &[char], start: usize, max: u64) -> (r: Option<u64>)
    requires
        start <= s@.len(),
    ensures
        r == (match in_range(digit_run_value(s@.skip(start as int)), 0, max as int) {
            Some(v) => Some(v as u64),
            None => None::<u64>,
        }),
{
    let ghost t = s@.skip(start as int);
    if start >= s.len() {
        return None;
    }
    let mut acc: u64 = 0;
    let mut k = start;
    let mut too_big = false;
    while k < s.len()
        invariant
            start <= k <= s@.len(),
            t == s@.skip(start as int),
            all_digits(t.take(k - start)),
            !too_big ==> acc as int == digits_value(t.take(k - start)) && acc <= max,
            too_big ==> digits_value(t.take(k - start)) > max,
        decreases s@.len() - k,
    {
        let c = s[k];
        if !('0' <= c && c <= '9') {
            assert(t[k - start] == c);
            assert(!all_digits(t));
            return None;
        }
        let d: u64 = ((c as u32) - ('0' as u32)) as u64;
        assert(t.take(k - start + 1).drop_last() =~= t.take(k - start));
        assert(t.take(k - start + 1).last() == c);
        proof { lemma_digits_value_nonneg(t.take(k - start)); }
        if !too_big {
            let next: u128 = (acc as u128) * 10 + (d as u128);
            if next > max as u128 {
                too_big = true;
            } else {
                acc = next as u64;
            }
        }
        assert(all_digits(t.take(k - start + 1)));
        k = k + 1;
    }
    assert(t.take(k - start) =~= t);
    if too_big {
        None
    } else {
        proof { lemma_digits_value_nonneg(t); }
        Some(acc)
    }
}

/// Read an unsigned integer no larger than `max` with `FromStr` rules.
pub fn parse_unsigned(s: &[char], max: u64) -> (r: Option<u64>)
    ensures
        r == (match in_range(unsigned_text_value(s@), 0, max as int) {
            Some(v) => Some(v as u64),
            None => None::<u64>,
        }),
{
    if s.len() > 0 && s[0] == '+' {
        assert(s@.skip(1) =~= s@.drop_first());
        digit_run_bounded(s, 1, max)
    } else {
        assert(s@.skip(0) =~= s@);
        digit_run_bounded(s, 0, max)
    }
}

/// Read a signed integer in `-(neg_max)..=pos_max` with `FromStr` rules.
pub fn parse_signed(s: &[char], neg_max: u64, pos_max: u64) -> (r: Option<i128>)
    requires
        neg_max <= 0x8000_0000_0000_0000,
        pos_max <= 0x7fff_ffff_ffff_ffff,
    ensures
        r == (match in_range(signed_text_value(s@), -(neg_max as int), pos_max as int) {
            Some(v) => Some(v as i128),
            None => None::<i128>,
        }),
{
    if s.len() > 0 && s[0] == '-' {
        assert(s@.skip(1) =~= s@.drop_first());
        match digit_run_bounded(s, 1, neg_max) {
            Some(m) => Some(-(m as i128)),
            None => {
                proof {
                    if digit_run_value(s@.drop_first()) is Some {
                        lemma_digits_value_nonneg(s@.drop_first());
                    }
                }
                None
            },
        }
    } else {
        match parse_unsigned(s, pos_max) {
            Some(m) => Some(m as i128),
            None => {
                proof {
                    let t = if s@.len() > 0 && s@[0] == '+' { s@.drop_first() } else { s@ };
                    if digit_run_value(t) is Some {
                        lemma_digits_value_nonneg(t);
                    }
                }
                None
            },
        }
    }
}

/// `str::parse::<u8>`.
pub fn parse_u8(s: &str) -> (r: Option<u8>)
    ensures
        r == (match in_range(unsigned_text_value(s@), 0, 255) {
            Some(v) => Some(v as u8),
            None => None::<u8>,
        }),
{
    let cs = chars_of(s);
    match parse_unsigned(&cs, 255) {
        Some(v) => Some(v as u8),
        None => None,
    }
}

/// `str::parse::<u16>`.
pub fn parse_u16(s: &str) -> (r: Option<u16>)
    ensures
        r == (match in_range(unsigned_text_value(s@), 0, 65535) {
            Some(v) => Some(v as u16),
            None => None::<u16>,
        }),
{
    let cs = chars_of(s);
    match parse_unsigned(&cs, 65535) {
        Some(v) => Some(v as u16),
        None => None,
    }
}

/// `str::parse::<i32>`.
pub fn parse_i32(s: &[char]) -> (r: Option<i32>)
    ensures
        r == (match in_range(signed_text_value(s@), -0x8000_0000, 0x7fff_ffff) {
            Some(v) => Some(v as i32),
            None => None::<i32>,
        }),
{
    match parse_signed(s, 0x8000_0000, 0x7fff_ffff) {
        Some(v) => Some(v as i32),
        None => None,
    }
}

/// Every character of `m` is a digit or a dot, at most one is a dot, and at
/// least one is a digit.
pub open spec fn mantissa_ok(m: Seq<char>) -> bool {
    &&& forall|i: int| 0 <= i < m.len() ==> is_digit(#[trigger] m[i]) || m[i] == '.'
    &&& forall|i: int, j: int| 0 <= i < j < m.len() ==> !(#[trigger] m[i] == '.' && #[trigger] m[j] == '.')
    &&& exists|i: int| 0 <= i < m.len() && is_digit(#[trigger] m[i])
}

/// Empty, or `e`/`E`, an optional sign and one or more digits.
pub open spec fn exponent_ok(x: Seq<char>) -> bool {
    x.len() == 0 || ((x[0] == 'e' || x[0] == 'E') && {
        let y = x.drop_first();
        let z = if y.len() > 0 && (y[0] == '+' || y[0] == '-') { y.drop_first() } else { y };
        z.len() > 0 && all_digits(z)
    })
}

/// Position of the first `e` or `E` in `s`, or its length.
pub open spec fn exponent_start(s: Seq<char>) -> int
    decreases s.len(),
{
    if s.len() == 0 {
        0
    } else if s[0] == 'e' || s[0] == 'E' {
        0
    } else {
        1 + exponent_start(s.drop_first())
    }
}

/// The text that `f64::from_str` accepts, as its documentation gives the
/// grammar: an optional sign, then `inf`, `infinity` or `nan` in any ASCII
/// case, or digits with at most one dot and at least one digit, followed by an
/// optional exponent.
pub open spec fn float_text_ok(s: Seq<char>) -> bool {
    let b = if s.len() > 0 && (s[0] == '+' || s[0] == '-') { s.drop_first() } else { s };
    ||| folded(b) == "inf"@
    ||| folded(b) == "infinity"@
    ||| folded(b) == "nan"@
    ||| (mantissa_ok(b.take(exponent_start(b))) && exponent_ok(b.skip(exponent_start(b))))
}

proof fn lemma_exponent_start(s: Seq<char>)
    ensures
        0 <= exponent_start(s) <= s.len(),
        forall|i: int| 0 <= i < exponent_start(s) ==> #[trigger] s[i] != 'e' && s[i] != 'E',
        exponent_start(s) < s.len() ==> (s[exponent_start(s)] == 'e' || s[exponent_start(s)] == 'E'),
    decreases s.len(),
{
    if s.len() > 0 && !(s[0] == 'e' || s[0] == 'E') {
        lemma_exponent_start(s.drop_first());
        assert forall|i: int| 0 <= i < exponent_start(s) implies #[trigger] s[i] != 'e' && s[i] != 'E' by {
            if i > 0 {
                assert(s[i] == s.drop_first()[i - 1]);
            }
        }
    }
}

fn check_mantissa(s: &[char], lo: usize, hi: usize) -> (r: bool)
    requires
        lo <= hi <= s@.len(),
    ensures
        r == mantissa_ok(s@.subrange(lo as int, hi as int)),
{
    let ghost m = s@.subrange(lo as int, hi as int);
    let mut k = lo;
    let mut dots: usize = 0;
    let mut digits = false;
    while k < hi
        invariant
            lo <= k <= hi <= s@.len(),
            m == s@.subrange(lo as int, hi as int),
            dots <= 1,
            forall|i: int| 0 <= i < k - lo ==> is_digit(#[trigger] m[i]) || m[i] == '.',
            dots == 0 ==> forall|i: int| 0 <= i < k - lo ==> #[trigger] m[i] != '.',
            dots == 1 ==> exists|i: int| 0 <= i < k - lo && #[trigger] m[i] == '.',
            dots == 1 ==> forall|i: int, j: int| 0 <= i < j < k - lo ==> !(#[trigger] m[i] == '.' && #[trigger] m[j] == '.'),
            digits == exists|i: int| 0 <= i < k - lo && is_digit(#[trigger] m[i]),
        decreases hi - k,
    {
        let c = s[k];
        assert(m[k - lo] == c);
        if c == '.' {
            if dots == 1 {
                proof {
                    let j = choose|i: int| 0 <= i < k - lo && m[i] == '.';
                    assert(m[j] == '.' && m[k - lo] == '.');
                }
                return false;
            }
            dots = 1;
        } else if '0' <= c && c <= '9' {
            digits = true;
        } else {
            assert(!(is_digit(m[k - lo]) || m[k - lo] == '.'));
            return false;
        }
        k = k + 1;
    }
    digits
}

fn check_exponent(s: &[char], lo: usize) -> (r: bool)
    requires
        lo <= s@.len(),
    ensures
        r == exponent_ok(s@.skip(lo as int)),
{
    let ghost x = s@.skip(lo as int);
    if lo == s.len() {
        return true;
    }
    if !(s[lo] == 'e' || s[lo] == 'E') {
        return false;
    }
    let ghost y = x.drop_first();
    assert(y =~= s@.skip(lo as int + 1));
    let mut k = lo + 1;
    if k < s.len() && (s[k] == '+' || s[k] == '-') {
        k = k + 1;
    }
    let ghost z = s@.skip(k as int);
    assert(z =~= (if y.len() > 0 && (y[0] == '+' || y[0] == '-') { y.drop_first() } else { y }));
    if k == s.len() {
        return false;
    }
    let start = k;
    assert(x[0] == s@[lo as int]);
    assert(exponent_ok(x) == (z.len() > 0 && all_digits(z)));
    while k < s.len()
        invariant
            start <= k <= s@.len(),
            z == s@.skip(start as int),
            exponent_ok(s@.skip(lo as int)) == (z.len() > 0 && all_digits(z)),
            z.len() > 0,
            forall|i: int| 0 <= i < k - start ==> is_digit(#[trigger] z[i]),
        decreases s@.len() - k,
    {
        if !('0' <= s[k] && s[k] <= '9') {
            assert(!is_digit(z[k - start]));
            return false;
        }
        k = k + 1;
    }
    true
}

/// Whether `f64::from_str` accepts `s`.
pub fn float_literal_ok(s: &[char]) -> (r: bool)
    ensures
        r == float_text_ok(s@),
{
    let start: usize = if s.len() > 0 && (s[0] == '+' || s[0] == '-') { 1 } else { 0 };
    let ghost b = s@.skip(start as int);
    assert(b =~= (if s@.len() > 0 && (s@[0] == '+' || s@[0] == '-') { s@.drop_first() } else { s@ }));
    let mut body: Vec<char> = Vec::new();
    let mut k = start;
    while k < s.len()
        invariant
            start <= k <= s@.len(),
            body@ == s@.subrange(start as int, k as int),
        decreases s@.len() - k,
    {
        body.push(s[k]);
        k = k + 1;
    }
    assert(body@ =~= b);
    let low = fold(&body);
    if eq_lit(&low, "inf") || eq_lit(&low, "infinity") || eq_lit(&low, "nan") {
        return true;
    }
    let mut e: usize = 0;
    while e < body.len() && body[e] != 'e' && body[e] != 'E'
        invariant
            e <= body@.len(),
            forall|i: int| 0 <= i < e ==> #[trigger] body@[i] != 'e' && body@[i] != 'E',
        decreases body@.len() - e,
    {
        e = e + 1;
    }
    proof {
        lemma_exponent_start(b);
        let p = exponent_start(b);
        if p < e {
            assert(b[p] == body@[p]);
        }
        if e < p {
            assert(b[e as int] != 'e' && b[e as int] != 'E');
        }
        assert(p == e);
        assert(b.take(p) =~= body@.subrange(0, e as int));
    }
    let m = check_mantissa(&body, 0, e);
    let x = check_exponent(&body, e);
    m && x
}

/// The decimal digits of `n`, most significant first (`0` for zero).
pub open spec fn decimal(n: nat) -> Seq<char>
    decreases n,
{
    if n < 10 {
        seq![(n + 48) as char]
    } else {
        decimal(n / 10).push(((n % 10) + 48) as char)
    }
}

/// The decimal text of an integer, with `-` before a negative one, as
/// `Display` writes it.
pub open spec fn signed_decimal(i: int) -> Seq<char> {
    if i < 0 {
        seq!['-'] + decimal((-i) as nat)
    } else {
        decimal(i as nat)
    }
}

fn digit_char(d: u64) -> (r: char)
    requires
        d < 10,
    ensures
        r == (d + 48) as char,
{
    let b: u8 = (d as u8) + 48;
    b as char
}

/// The decimal digits of `n`.
pub fn decimal_chars(n: u64) -> (r: Vec<char>)
    ensures
        r@ == decimal(n as nat),
    decreases n,
{
    if n < 10 {
        let mut r: Vec<char> = Vec::new();
        r.push(digit_char(n));
        assert(r@ =~= decimal(n as nat));
        r
    } else {
        let mut r = decimal_chars(n / 10);
        r.push(digit_char(n % 10));
        r
    }
}

/// The decimal text of a `u64`, as `u64::to_string` writes it.
pub fn u64_text(n: u64) -> (r: String)
    ensures
        r@ == decimal(n as nat),
{
    crate::text::string_from_chars(&decimal_chars(n))
}

/// The decimal text of an `i64`, as `i64::to_string` writes it.
pub fn i64_text(i: i64) -> (r: String)
    ensures
        r@ == signed_decimal(i as int),
{
    if i < 0 {
        let magnitude: u64 = if i == i64::MIN {
            0x8000_0000_0000_0000
        } else {
            (-i) as u64
        };
        let mut cs: Vec<char> = Vec::new();
        cs.push('-');
        let ds = decimal_chars(magnitude);
        let mut k: usize = 0;
        while k < ds.len()
            invariant
                k <= ds@.len(),
                cs@ == seq!['-'] + ds@.take(k as int),
            decreases ds@.len() - k,
        {
            cs.push(ds[k]);
            assert(cs@ =~= seq!['-'] + ds@.take(k + 1));
            k = k + 1;
        }
        assert(ds@.take(ds@.len() as int) =~= ds@);
        crate::text::string_from_chars(&cs)
    } else {
        crate::text::string_from_chars(&decimal_chars(i as u64))
    }
}

} // verus!
