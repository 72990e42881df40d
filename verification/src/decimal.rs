//! Exact decimal numbers.
//!
//! Device-bus numeric property values are decimal strings. The bridge
//! never needs machine floating point on them: it scales, divides and
//! reformats. A value is kept as an integer mantissa with a decimal
//! scale, so `mantissa / 10^scale` is the number denoted, held in the
//! canonical form with no trailing fractional zeros.

use vstd::prelude::*;
use crate::text::{
    all_digits, digit_val, digits_val, find_from, pow10, dec_str_of, pad_str_of, int_str_of,
    parse_digits, str_chars,
};

verus! {

/// One above the largest mantissa magnitude that a parsed decimal may
/// carry.
pub const MANTISSA_LIMIT: i128 = 100_000_000_000_000_000;

/// The largest scale that a parsed decimal may carry.
pub const SCALE_LIMIT: u32 = 17;

/// A decimal number `mantissa / 10^scale`.
#[derive(Clone, Copy, Debug, PartialEq, Eq, Structural)]
pub struct Decimal {
    /// The signed digits of the number.
    pub mantissa: i128,
    /// How many of the low digits lie behind the decimal point.
    pub scale: u32,
}

/// Two scaled integers denote the same rational number.
pub open spec fn frac_eq(m1: int, s1: nat, m2: int, s2: nat) -> bool {
    m1 * pow10(s2) == m2 * pow10(s1)
}

impl Decimal {
    /// Canonical well-formed decimal: bounded, and with no trailing zero
    /// behind the decimal point, so each rational value has one form.
    pub open spec fn wf(self) -> bool {
        &&& -MANTISSA_LIMIT < self.mantissa < MANTISSA_LIMIT
        &&& self.scale <= SCALE_LIMIT
        &&& self.scale > 0 ==> self.mantissa % 10 != 0
        &&& self.mantissa == 0 ==> self.scale == 0
    }
}

/// The scaled-integer reading of an unsigned decimal digit string with an
/// optional fractional part: `"12.34"` denotes `(1234, 2)`; no sign, no
/// exponent. `None` when the string is not of that shape or is empty of
/// digits.
pub open spec fn spec_parse_dec_body(s: Seq<char>) -> Option<(int, nat)> {
    match find_from(s, 0, '.') {
        None => {
            if s.len() > 0 && all_digits(s) {
                Some((digits_val(s), 0))
            } else {
                None
            }
        },
        Some(i) => {
            let ip = s.take(i);
            let fp = s.skip(i + 1);
            if ip.len() + fp.len() > 0 && all_digits(ip) && all_digits(fp) {
                Some((digits_val(ip) * pow10(fp.len()) + digits_val(fp), fp.len()))
            } else {
                None
            }
        },
    }
}

/// The scaled-integer reading of a signed decimal string, with one
/// optional leading `'+'` or `'-'`.
pub open spec fn spec_parse_decimal(s: Seq<char>) -> Option<(int, nat)> {
    if s.len() > 0 && s[0] == '-' {
        match spec_parse_dec_body(s.skip(1)) {
            Some((n, sc)) => Some((-n, sc)),
            None => None,
        }
    } else if s.len() > 0 && s[0] == '+' {
        spec_parse_dec_body(s.skip(1))
    } else {
        spec_parse_dec_body(s)
    }
}

/// The decimal string denoting `m / 10^s`: the sign, the integer digits,
/// and, when `s > 0`, a point followed by exactly `s` fractional digits.
pub open spec fn dec_string_of(m: int, s: nat) -> Seq<char> {
    if s == 0 {
        int_str_of(m)
    } else {
        let mag = if m < 0 { -m } else { m };
        let sign: Seq<char> = if m < 0 { seq!['-'] } else { Seq::empty() };
        sign + dec_str_of(mag / pow10(s)) + seq!['.'] + pad_str_of(mag % pow10(s), s)
    }
}

/// `10^e` is positive.
pub proof fn lemma_pow10_pos(e: nat)
    ensures
        pow10(e) >= 1,
    decreases e,
{
    if e > 0 {
        lemma_pow10_pos((e - 1) as nat);
    }
}

/// `10^a * 10^b == 10^(a+b)`.
pub proof fn lemma_pow10_add(a: nat, b: nat)
    ensures
        pow10(a) * pow10(b) == pow10(a + b),
    decreases a,
{
    if a == 0 {
        assert(pow10(0) * pow10(b) == pow10(b));
    } else {
        lemma_pow10_add((a - 1) as nat, b);
        assert(pow10(a) * pow10(b) == 10 * (pow10((a - 1) as nat) * pow10(b)))
            by (nonlinear_arith)
            requires pow10(a) == 10 * pow10((a - 1) as nat);
    }
}

/// `10^e` for bounded exponents.
pub fn pow10_u128(e: u32) -> (r: u128)
    requires
        e <= 34,
    ensures
        r == pow10(e as nat),
{
    let mut acc: u128 = 1;
    let mut i: u32 = 0;
    while i < e
        invariant
            i <= e <= 34,
            acc == pow10(i as nat),
        decreases e - i,
    {
        proof {
            lemma_pow10_le34(i as nat);
        }
        acc = acc * 10;
        i = i + 1;
    }
    acc
}

/// `10^e` stays within `u128` bounds for `e <= 34`.
proof fn lemma_pow10_le34(e: nat)
    requires
        e <= 34,
    ensures
        pow10(e) <= pow10(34),
        pow10(34) == 0x1ed09bead87c0378d8e6400000000,
    decreases 34 - e,
{
    if e < 34 {
        lemma_pow10_le34(e + 1);
        lemma_pow10_pos(e);
    } else {
        lemma_pow10_34_value();
    }
}

/// The literal value of `10^34`.
proof fn lemma_pow10_34_value()
    ensures
        pow10(34) == 0x1ed09bead87c0378d8e6400000000,
{
    assert(pow10(34) == 0x1ed09bead87c0378d8e6400000000) by {
        reveal_with_fuel(pow10, 35);
    }
}

impl Decimal {
    /// Builds the canonical decimal denoting `mantissa / 10^scale`.
    pub fn new(mantissa: i128, scale: u32) -> (d: Decimal)
        requires
            -MANTISSA_LIMIT < mantissa < MANTISSA_LIMIT,
            scale <= SCALE_LIMIT,
        ensures
            d.wf(),
            (d.mantissa as int, d.scale as nat) == canon_frac(mantissa as int, scale as nat),
            frac_eq(d.mantissa as int, d.scale as nat, mantissa as int, scale as nat),
    {
        let mut m = mantissa;
        let mut s = scale;
        while s > 0 && m % 10 == 0
            invariant
                -MANTISSA_LIMIT < m < MANTISSA_LIMIT,
                s <= SCALE_LIMIT,
                frac_eq(m as int, s as nat, mantissa as int, scale as nat),
                canon_frac(m as int, s as nat) == canon_frac(mantissa as int, scale as nat),
            decreases s,
        {
            proof {
                lemma_strip_zero(m as int, s as nat, mantissa as int, scale as nat);
            }
            m = m / 10;
            s = s - 1;
        }
        proof {
            if m == 0 && s != 0 {
                assert(m % 10 == 0);
            }
            lemma_canon_props(mantissa as int, scale as nat);
        }
        Decimal { mantissa: m, scale: s }
    }

    /// Parses a decimal string into its canonical form. Returns the value
    /// the string denotes when it is a plain signed decimal of at most
    /// seventeen significant digits on a scale of at most seventeen;
    /// `None` otherwise.
    pub fn parse_chars(v: &Vec<char>) -> (r: Option<Decimal>)
        ensures
            ({
                match spec_parse_decimal(v@) {
                    Some((n, sc)) => {
                        if sc <= SCALE_LIMIT && -MANTISSA_LIMIT < n < MANTISSA_LIMIT {
                            match r {
                                Some(d) => d.wf() && (d.mantissa as int, d.scale as nat)
                                    == canon_frac(n, sc),
                                None => false,
                            }
                        } else {
                            r is None
                        }
                    },
                    None => r is None,
                }
            }),
    {
        let n = v.len();
        let (neg, body_from): (bool, usize) = if n > 0 && v[0] == '-' {
            (true, 1)
        } else if n > 0 && v[0] == '+' {
            (false, 1)
        } else {
            (false, 0)
        };
        proof {
            if body_from == 1 {
                assert(v@.skip(1) =~= v@.subrange(1, n as int));
            } else {
                assert(v@ =~= v@.subrange(0, n as int));
            }
        }
        match parse_dec_body(v, body_from) {
            Some((mag, sc)) => {
                let m: i128 = if neg {
                    -(mag as i128)
                } else {
                    mag as i128
                };
                Some(Decimal::new(m, sc))
            },
            None => None,
        }
    }

    /// Parses a decimal string slice into its canonical form.
    pub fn parse(s: &str) -> (r: Option<Decimal>)
        ensures
            ({
                match spec_parse_decimal(s@) {
                    Some((n, sc)) => {
                        if sc <= SCALE_LIMIT && -MANTISSA_LIMIT < n < MANTISSA_LIMIT {
                            match r {
                                Some(d) => d.wf() && (d.mantissa as int, d.scale as nat)
                                    == canon_frac(n, sc),
                                None => false,
                            }
                        } else {
                            r is None
                        }
                    },
                    None => r is None,
                }
            }),
    {
        let v = str_chars(s);
        Decimal::parse_chars(&v)
    }
}

/// Stripping one trailing zero keeps the denoted value.
proof fn lemma_strip_zero(m: int, s: nat, m0: int, s0: nat)
    requires
        s > 0,
        m % 10 == 0,
        frac_eq(m, s, m0, s0),
    ensures
        frac_eq(m / 10, (s - 1) as nat, m0, s0),
{
    let mdiv = m / 10;
    assert(m == 10 * mdiv);
    assert(pow10(s) == 10 * pow10((s - 1) as nat));
    assert((10 * mdiv) * pow10(s0) == 10 * (mdiv * pow10(s0))) by (nonlinear_arith);
    assert(m0 * (10 * pow10((s - 1) as nat)) == 10 * (m0 * pow10((s - 1) as nat)))
        by (nonlinear_arith);
}

/// The canonical form keeps the value, shrinks the magnitude, and meets
/// the well-formedness conditions on its digits.
pub proof fn lemma_canon_props(m: int, s: nat)
    ensures
        ({
            let (cm, cs) = canon_frac(m, s);
            &&& cs <= s
            &&& frac_eq(cm, cs, m, s)
            &&& (m >= 0 ==> 0 <= cm <= m)
            &&& (m < 0 ==> m <= cm < 0)
            &&& (cs > 0 ==> cm % 10 != 0)
            &&& (cm == 0 ==> cs == 0)
        }),
    decreases s,
{
    if s > 0 && m % 10 == 0 {
        lemma_strip_zero(m, s, m, s);
        lemma_canon_props(m / 10, (s - 1) as nat);
        let (cm, cs) = canon_frac(m / 10, (s - 1) as nat);
        assert(frac_eq(cm, cs, m / 10, (s - 1) as nat));
        assert(m == 10 * (m / 10));
        assert(frac_eq(m / 10, (s - 1) as nat, m, s)) by {
            assert(pow10(s) == 10 * pow10((s - 1) as nat));
            assert((m / 10) * (10 * pow10((s - 1) as nat)) == 10 * ((m / 10) * pow10(
                (s - 1) as nat,
            ))) by (nonlinear_arith);
            assert(m * pow10((s - 1) as nat) == (10 * (m / 10)) * pow10((s - 1) as nat));
            assert((10 * (m / 10)) * pow10((s - 1) as nat) == 10 * ((m / 10) * pow10(
                (s - 1) as nat,
            ))) by (nonlinear_arith);
        }
        lemma_frac_eq_trans(cm, cs, m / 10, (s - 1) as nat, m, s);
        if m > 0 {
            assert(0 <= m / 10 <= m);
        } else if m < 0 {
            assert(m <= m / 10 <= 0);
            if m / 10 == 0 {
                assert(m == 10 * (m / 10));
            }
        }
    } else {
        if m == 0 && s != 0 {
            assert(m % 10 == 0);
        }
    }
}

/// Value equality of scaled pairs carries across a middle pair.
proof fn lemma_frac_eq_trans(a: int, sa: nat, b: int, sb: nat, c: int, sc: nat)
    requires
        frac_eq(a, sa, b, sb),
        frac_eq(b, sb, c, sc),
    ensures
        frac_eq(a, sa, c, sc),
{
    lemma_pow10_pos(sa);
    lemma_pow10_pos(sb);
    lemma_pow10_pos(sc);
    assert((a * pow10(sc)) * pow10(sb) == (c * pow10(sa)) * pow10(sb)) by (nonlinear_arith)
        requires
            a * pow10(sb) == b * pow10(sa),
            b * pow10(sc) == c * pow10(sb);
    assert(a * pow10(sc) == c * pow10(sa)) by (nonlinear_arith)
        requires
            (a * pow10(sc)) * pow10(sb) == (c * pow10(sa)) * pow10(sb),
            pow10(sb) >= 1;
}

/// `10^e` within `i128` range for small exponents.
pub fn pow10_i128(e: u32) -> (r: i128)
    requires
        e <= SCALE_LIMIT,
    ensures
        r == pow10(e as nat),
        1 <= r <= MANTISSA_LIMIT,
{
    proof {
        lemma_pow10_pos(e as nat);
        lemma_pow10_le17(e as nat);
        lemma_pow10_17_value();
    }
    let p = pow10_u128(e);
    p as i128
}

/// Parses the unsigned body of a decimal string starting at `from`,
/// returning the magnitude and scale when within the representable
/// bounds.
fn parse_dec_body(v: &Vec<char>, from: usize) -> (r: Option<(u128, u32)>)
    requires
        from <= v@.len(),
    ensures
        ({
            let s = v@.subrange(from as int, v@.len() as int);
            match spec_parse_dec_body(s) {
                Some((n, sc)) => {
                    if sc <= SCALE_LIMIT && n < MANTISSA_LIMIT {
                        match r {
                            Some((mag, rsc)) => mag == n && rsc == sc,
                            None => false,
                        }
                    } else {
                        r is None
                    }
                },
                None => r is None,
            }
        }),
{
    let ghost s = v@.subrange(from as int, v@.len() as int);
    let n = v.len();
    match crate::text::find_char(v, from, '.') {
        None => {
            proof {
                lemma_find_sub_none(v@, from as int, '.');
            }
            match parse_digits(v, from, n) {
                Some(mag) => {
                    if mag < MANTISSA_LIMIT as u128 {
                        Some((mag, 0))
                    } else {
                        None
                    }
                },
                None => None,
            }
        },
        Some(dot) => {
            proof {
                lemma_find_sub_some(v@, from as int, '.', dot as int);
                assert(s.take(dot - from) =~= v@.subrange(from as int, dot as int));
                assert(s.skip(dot - from + 1) =~= v@.subrange(dot + 1, n as int));
            }
            let ip_len = dot - from;
            let fp_len = n - dot - 1;
            if ip_len == 0 && fp_len == 0 {
                return None;
            }
            // Fractional digits beyond the representable scale are refused.
            if fp_len > SCALE_LIMIT as usize {
                proof {
                    lemma_big_scale_or_digits(s, dot - from);
                }
                return None;
            }
            let ip = match parse_whole_or_empty(v, from, dot) {
                Some(x) => x,
                None => {
                    proof {
                        let ipsq = s.take(dot - from);
                        let fpsq = s.skip(dot - from + 1);
                        if all_digits(ipsq) && all_digits(fpsq) {
                            crate::text::lemma_digits_val_nonneg(ipsq);
                            crate::text::lemma_digits_val_nonneg(fpsq);
                            lemma_pow10_pos(fpsq.len());
                            assert(digits_val(ipsq) * pow10(fpsq.len()) >= digits_val(ipsq))
                                by (nonlinear_arith)
                                requires
                                    digits_val(ipsq) >= 0,
                                    pow10(fpsq.len()) >= 1;
                        }
                    }
                    return None;
                },
            };
            let fp = match parse_whole_or_empty(v, dot + 1, n) {
                Some(x) => x,
                None => {
                    proof {
                        let ipsq = s.take(dot - from);
                        let fpsq = s.skip(dot - from + 1);
                        if all_digits(ipsq) && all_digits(fpsq) {
                            crate::text::lemma_digits_val_nonneg(ipsq);
                            lemma_pow10_pos(fpsq.len());
                            assert(digits_val(ipsq) * pow10(fpsq.len()) >= 0)
                                by (nonlinear_arith)
                                requires
                                    digits_val(ipsq) >= 0,
                                    pow10(fpsq.len()) >= 1;
                        }
                    }
                    return None;
                },
            };
            if ip >= MANTISSA_LIMIT as u128 {
                proof {
                    let ipv = digits_val(s.take(dot - from));
                    let fpv = digits_val(s.skip(dot - from + 1));
                    let sc = s.skip(dot - from + 1).len();
                    crate::text::lemma_digits_val_nonneg(s.skip(dot - from + 1));
                    lemma_pow10_pos(sc);
                    assert(ipv * pow10(sc) >= ipv) by (nonlinear_arith)
                        requires ipv >= 0, pow10(sc) >= 1;
                }
                return None;
            }
            let p = pow10_u128(fp_len as u32);
            proof {
                lemma_combined_bound(ip as int, fp_len as nat);
                lemma_digits_bound(s.skip(dot - from + 1));
                lemma_pow10_34_value();
                assert(fp < p);
                assert(ip * p + fp < ip * p + p);
            }
            let mag = ip * p + fp;
            if mag < MANTISSA_LIMIT as u128 {
                Some((mag, fp_len as u32))
            } else {
                None
            }
        },
    }
}

/// A digit string of length `w` denotes less than `10^w`.
proof fn lemma_digits_bound(s: Seq<char>)
    requires
        all_digits(s),
    ensures
        digits_val(s) < pow10(s.len()),
    decreases s.len(),
{
    if s.len() == 0 {
    } else {
        let pre = s.drop_last();
        assert(all_digits(pre));
        lemma_digits_bound(pre);
        crate::text::lemma_digits_val_nonneg(pre);
        assert(pow10(s.len()) == 10 * pow10(pre.len()));
        assert(digits_val(pre) * 10 + digit_val(s.last()) < 10 * pow10(pre.len()))
            by (nonlinear_arith)
            requires
                digits_val(pre) < pow10(pre.len()),
                digits_val(pre) >= 0,
                digit_val(s.last()) <= 9;
    }
}

/// `ip * 10^w + anything-below-limit` stays within `u128` range for the
/// bounded `ip` and `w` the parser admits.
proof fn lemma_combined_bound(ip: int, w: nat)
    requires
        0 <= ip < MANTISSA_LIMIT,
        w <= SCALE_LIMIT,
    ensures
        ip * pow10(w) + pow10(w) <= pow10(34),
{
    lemma_pow10_le17(w);
    lemma_pow10_pos(w);
    assert(ip * pow10(w) + pow10(w) == (ip + 1) * pow10(w)) by (nonlinear_arith);
    assert((ip + 1) * pow10(w) <= MANTISSA_LIMIT * pow10(SCALE_LIMIT as nat))
        by (nonlinear_arith)
        requires
            0 < ip + 1 <= MANTISSA_LIMIT,
            0 < pow10(w) <= pow10(SCALE_LIMIT as nat);
    assert(MANTISSA_LIMIT * pow10(17) == pow10(34)) by {
        lemma_pow10_17_value();
        lemma_pow10_34_from_17();
    }
}

/// `10^e <= 10^17` for `e <= 17`.
proof fn lemma_pow10_le17(e: nat)
    requires
        e <= 17,
    ensures
        pow10(e) <= pow10(17),
    decreases 17 - e,
{
    if e < 17 {
        lemma_pow10_le17(e + 1);
        lemma_pow10_pos(e);
    }
}

/// The literal value of `10^17`.
proof fn lemma_pow10_17_value()
    ensures
        pow10(17) == 100_000_000_000_000_000,
{
    assert(pow10(17) == 100_000_000_000_000_000) by {
        reveal_with_fuel(pow10, 18);
    }
}

/// `10^17 * 10^17 == 10^34`.
proof fn lemma_pow10_34_from_17()
    ensures
        MANTISSA_LIMIT * pow10(17) == pow10(34),
{
    lemma_pow10_add(17, 17);
    lemma_pow10_17_value();
}

/// When the fractional part is longer than the representable scale, the
/// body either fails to parse or has a scale above the limit.
proof fn lemma_big_scale_or_digits(s: Seq<char>, dot: int)
    requires
        find_from(s, 0, '.') == Some(dot),
        0 <= dot < s.len(),
        s.len() - dot - 1 > SCALE_LIMIT,
    ensures
        match spec_parse_dec_body(s) {
            Some((n, sc)) => sc > SCALE_LIMIT,
            None => true,
        },
{
}

/// Parses `v[from..to]` as digits, allowing the empty range to denote 0.
fn parse_whole_or_empty(v: &Vec<char>, from: usize, to: usize) -> (r: Option<u128>)
    requires
        from <= to <= v@.len(),
    ensures
        ({
            let s = v@.subrange(from as int, to as int);
            match r {
                Some(x) => all_digits(s) && x == digits_val(s),
                None => !all_digits(s) || digits_val(s) > u128::MAX,
            }
        }),
{
    if from == to {
        proof {
            assert(v@.subrange(from as int, to as int) =~= Seq::<char>::empty());
        }
        Some(0)
    } else {
        parse_digits(v, from, to)
    }
}

/// A `find` on the suffix view agrees with a `find` from `from`: no hit.
proof fn lemma_find_sub_none(w: Seq<char>, from: int, c: char)
    requires
        0 <= from <= w.len(),
        find_from(w, from, c) is None,
    ensures
        find_from(w.subrange(from, w.len() as int), 0, c) is None,
{
    lemma_find_shift(w, from, c, from);
}

/// A `find` on the suffix view agrees with a `find` from `from`: a hit.
proof fn lemma_find_sub_some(w: Seq<char>, from: int, c: char, at: int)
    requires
        0 <= from <= w.len(),
        find_from(w, from, c) == Some(at),
    ensures
        from <= at < w.len(),
        find_from(w.subrange(from, w.len() as int), 0, c) == Some(at - from),
        w.subrange(from, w.len() as int)[at - from] == c,
    decreases w.len() - from,
{
    lemma_find_bounds(w, from, c);
    lemma_find_shift(w, from, c, from);
}

/// A found position lies in range.
proof fn lemma_find_bounds(w: Seq<char>, from: int, c: char)
    requires
        0 <= from,
    ensures
        match find_from(w, from, c) {
            Some(at) => from <= at < w.len() && w[at] == c,
            None => true,
        },
    decreases w.len() - from,
{
    if from < w.len() && w[from] != c {
        lemma_find_bounds(w, from + 1, c);
    }
}

/// Division truncating toward zero, as Rust's `/` computes it on signed
/// integers.
pub open spec fn div_trunc(a: int, b: int) -> int {
    if a >= 0 && b > 0 {
        a / b
    } else if a < 0 && b > 0 {
        -((-a) / b)
    } else if a >= 0 && b < 0 {
        -(a / (-b))
    } else {
        (-a) / (-b)
    }
}

/// Truncating signed division.
pub fn div_trunc_i128(a: i128, b: i128) -> (r: i128)
    requires
        b != 0,
        a > i128::MIN,
        b > i128::MIN,
    ensures
        r == div_trunc(a as int, b as int),
{
    let am: u128 = if a < 0 { (-a) as u128 } else { a as u128 };
    let bm: u128 = if b < 0 { (-b) as u128 } else { b as u128 };
    let q = am / bm;
    proof {
        assert(q <= am) by (nonlinear_arith)
            requires q == am / bm, bm >= 1, am >= 0;
    }
    if (a < 0) != (b < 0) {
        -(q as i128)
    } else {
        q as i128
    }
}

/// The canonical scaled form of `m / 10^s`: trailing fractional zeros
/// stripped.
pub open spec fn canon_frac(m: int, s: nat) -> (int, nat)
    decreases s,
{
    if s > 0 && m % 10 == 0 {
        canon_frac(m / 10, (s - 1) as nat)
    } else {
        (m, s)
    }
}

/// Formats `num / 10^scale` as the canonical decimal string, trailing
/// fractional zeros stripped.
pub fn format_scaled(num: i128, scale: u32) -> (out: String)
    requires
        num > i128::MIN,
        scale <= 34,
    ensures
        out@ == dec_string_of(canon_frac(num as int, scale as nat).0, canon_frac(
            num as int,
            scale as nat,
        ).1),
{
    let neg = num < 0;
    let mut mag: u128 = if neg { (-num) as u128 } else { num as u128 };
    let mut s: u32 = scale;
    let ghost signed = |m: u128| if neg { -(m as int) } else { m as int };
    proof {
        lemma_mag_mod(mag as int, neg);
    }
    while s > 0 && mag % 10 == 0
        invariant
            s <= 34,
            canon_frac(num as int, scale as nat) == canon_frac(
                if neg { -(mag as int) } else { mag as int },
                s as nat,
            ),
            neg == (num < 0),
            num > i128::MIN,
            neg ==> mag <= i128::MAX,
            !neg ==> mag <= i128::MAX,
        decreases s,
    {
        proof {
            lemma_mag_mod(mag as int, neg);
            lemma_mag_div(mag as int, neg);
        }
        mag = mag / 10;
        s = s - 1;
        proof {
            lemma_mag_mod(mag as int, neg);
        }
    }
    proof {
        lemma_mag_mod(mag as int, neg);
        if mag == 0 && neg {
            assert(canon_frac(0, s as nat) == (0int, s as nat));
        }
    }
    let ghost m_final = if neg { -(mag as int) } else { mag as int };
    let ghost pair = canon_frac(num as int, scale as nat);
    proof {
        assert(pair == (m_final, s as nat));
    }
    let mut chars: Vec<char> = Vec::new();
    if s == 0 {
        if neg && mag > 0 {
            chars.push('-');
            push_dec_u128_local(&mut chars, mag);
            proof {
                assert(chars@ =~= int_str_of(m_final));
            }
        } else {
            push_dec_u128_local(&mut chars, mag);
            proof {
                if neg {
                    assert(m_final == 0);
                }
                assert(chars@ =~= int_str_of(m_final));
            }
        }
    } else {
        let p = pow10_u128(s);
        proof {
            lemma_pow10_pos(s as nat);
        }
        let ip = mag / p;
        let fp = mag % p;
        if neg {
            chars.push('-');
        }
        push_dec_u128_local(&mut chars, ip);
        chars.push('.');
        let ghost before = chars@;
        push_pad_u128_local(&mut chars, fp, s as usize);
        proof {
            lemma_pow10_pos(s as nat);
            if neg {
                assert(mag > 0);
                assert(m_final < 0);
                assert(-m_final == mag);
            }
            assert(chars@ =~= dec_string_of(m_final, s as nat));
        }
    }
    crate::text::string_from_chars(&chars)
}

/// `(-m) % 10 == 0` exactly when `m % 10 == 0` (with the Euclidean `%`
/// of specifications).
proof fn lemma_mag_mod(mag: int, neg: bool)
    requires
        mag >= 0,
    ensures
        ((if neg { -mag } else { mag }) % 10 == 0) == (mag % 10 == 0),
{
    let m = if neg { -mag } else { mag };
    if neg {
        assert((-mag) % 10 == 0 <==> mag % 10 == 0) by (nonlinear_arith);
    }
}

/// Dividing magnitude and signed value by ten agree when the remainder
/// is zero.
proof fn lemma_mag_div(mag: int, neg: bool)
    requires
        mag >= 0,
        mag % 10 == 0,
    ensures
        (if neg { -(mag / 10) } else { mag / 10 }) == (if neg { -mag } else { mag }) / 10,
{
    if neg {
        assert((-mag) / 10 == -(mag / 10)) by (nonlinear_arith)
            requires mag >= 0, mag % 10 == 0;
    }
}

/// Appends the canonical decimal digits of `n`.
fn push_dec_u128_local(out: &mut Vec<char>, n: u128)
    ensures
        final(out)@ == old(out)@ + dec_str_of(n as int),
{
    crate::text::push_dec_u128(out, n);
}

/// Appends exactly `width` zero-padded digits of `n`.
fn push_pad_u128_local(out: &mut Vec<char>, n: u128, width: usize)
    ensures
        final(out)@ == old(out)@ + pad_str_of(n as int, width as nat),
{
    crate::text::push_pad_u128(out, n, width);
}

/// Searching a suffix view from its start mirrors searching the whole
/// string from `base`, position by position.
proof fn lemma_find_shift(w: Seq<char>, base: int, c: char, i: int)
    requires
        0 <= base <= i <= w.len(),
    ensures
        match find_from(w, i, c) {
            Some(at) => find_from(w.subrange(base, w.len() as int), i - base, c) == Some(at - base),
            None => find_from(w.subrange(base, w.len() as int), i - base, c) is None,
        },
    decreases w.len() - i,
{
    let sub = w.subrange(base, w.len() as int);
    if i >= w.len() {
    } else if w[i] == c {
        assert(sub[i - base] == c);
    } else {
        assert(sub[i - base] != c);
        lemma_find_shift(w, base, c, i + 1);
    }
}

} // verus!
