//! Property value conversions between the device bus and the cloud
//! protocol: percentages for ranged numeric properties, plain numbers,
//! and colours. Every conversion answers `None` for a value, datatype or
//! format that does not fit its expected shape; none of them can fail any
//! harder than that.

use vstd::prelude::*;
use crate::decimal::{
    canon_frac, div_trunc, div_trunc_i128, pow10_i128, spec_parse_decimal, format_scaled,
    dec_string_of, Decimal, MANTISSA_LIMIT, SCALE_LIMIT,
};
use crate::ghome::{Color, ColorAbsolute, ColorValue};
use crate::homie::{ColorFormat, Datatype, Property};
use crate::text::{
    dec_str_of, find_char, find_from, format_i128, int_str_of, parse_int_range, parse_uint_range,
    pow10, push_dec_u128, spec_parse_int, spec_parse_uint, str_chars, str_eq, string_from_chars,
    sub_vec,
};

verus! {

/// Clamps `value` into the inclusive range `[min, max]`.
pub open spec fn spec_cap(value: int, min: int, max: int) -> int {
    if value < min {
        min
    } else if value > max {
        max
    } else {
        value
    }
}

/// Clamps a value into an inclusive range.
pub fn cap(value: i128, min: i128, max: i128) -> (r: i128)
    requires
        min <= max,
    ensures
        r == spec_cap(value as int, min as int, max as int),
{
    if value < min {
        min
    } else if value > max {
        max
    } else {
        value
    }
}

/// The round-trip law for integer ranges. Scaling an in-range value to a
/// percentage and back never overshoots, and lands within one rounding
/// unit below the value: one unit is one percent of the range, and the
/// loss never exceeds `(hi - lo + 99) / 100`. The percentage itself
/// always lies in 0..100.
pub proof fn lemma_int_percentage_round_trip(v: int, lo: int, hi: int)
    requires
        lo < hi,
        lo <= v <= hi,
    ensures
        int_percentage(v, lo, hi) matches Some(p) && 0 <= p <= 100 && {
            let back = int_from_percentage(lo, hi, p);
            &&& back <= v
            &&& v - back <= (hi - lo + 99) / 100
        },
{
    let d = hi - lo;
    let x = v - lo;
    let p0 = (100 * x) / d;
    vstd::arithmetic::div_mod::lemma_fundamental_div_mod(100 * x, d);
    let r = (100 * x) % d;
    assert(0 <= r < d) by {
        vstd::arithmetic::div_mod::lemma_mod_bound(100 * x, d);
    }
    assert(p0 >= 0) by (nonlinear_arith)
        requires 100 * x == d * p0 + r, x >= 0, 0 <= r < d;
    assert(p0 <= 100) by (nonlinear_arith)
        requires 100 * x == d * p0 + r, x <= d, 0 <= r < d, d > 0;
    assert(div_trunc(100 * x, d) == p0);
    assert((v - lo) * 100 == 100 * x);
    assert(int_percentage(v, lo, hi) == Some(spec_cap(p0, 0, 100)));
    assert(spec_cap(p0, 0, 100) == p0);

    // back - lo == floor((p0 * d) / 100), and p0 * d == 100 * x - r.
    let y = (p0 * d) / 100;
    assert(p0 * d == 100 * x - r) by (nonlinear_arith)
        requires 100 * x == d * p0 + r;
    assert(p0 * d >= 0) by (nonlinear_arith)
        requires p0 >= 0, d > 0;
    assert(div_trunc(p0 * d, 100) == y);
    assert(int_from_percentage(lo, hi, p0) == lo + y);

    vstd::arithmetic::div_mod::lemma_fundamental_div_mod(100 * x - r, 100);
    let y2 = (100 * x - r) % 100;
    assert(100 * x - r == 100 * y + y2);
    assert(0 <= y2 < 100) by {
        vstd::arithmetic::div_mod::lemma_mod_bound(100 * x - r, 100);
    }
    // 100 * (x - y) == r + y2, so 0 <= 100 * (x - y) <= d - 1 + 99.
    assert(100 * (x - y) == r + y2) by (nonlinear_arith)
        requires 100 * x - r == 100 * y + y2;
    assert(x - y >= 0) by (nonlinear_arith)
        requires 100 * (x - y) == r + y2, r >= 0, y2 >= 0;
    assert(100 * (x - y) <= d + 98);
    assert(x - y <= (d + 99) / 100) by (nonlinear_arith)
        requires 100 * (x - y) <= d + 98, x - y >= 0, d > 0;
}

/// The 64-bit integer reading of a property's raw value: the declared
/// datatype, when any, must be integer, a value must have been observed,
/// and it must parse as a signed 64-bit decimal.
pub open spec fn spec_i64_value(p: Property) -> Option<int> {
    if p.datatype matches Some(dt) && dt != Datatype::Integer {
        None
    } else {
        match p.value {
            None => None,
            Some(v) => match spec_parse_int(v@) {
                Some(n) => if i64::MIN <= n <= i64::MAX {
                    Some(n)
                } else {
                    None
                },
                None => None,
            },
        }
    }
}

/// The two sides of a `"min:max"` format string, split at the first
/// colon.
pub open spec fn spec_range_parts(f: Seq<char>) -> Option<(Seq<char>, Seq<char>)> {
    match find_from(f, 0, ':') {
        None => None,
        Some(i) => Some((f.take(i), f.skip(i + 1))),
    }
}

/// The 64-bit integer range a property declares in its format.
pub open spec fn spec_i64_range(p: Property) -> Option<(int, int)> {
    if p.datatype matches Some(dt) && dt != Datatype::Integer {
        None
    } else {
        match p.format {
            None => None,
            Some(f) => match spec_range_parts(f@) {
                None => None,
                Some((a, b)) => match (spec_parse_int(a), spec_parse_int(b)) {
                    (Some(lo), Some(hi)) => if i64::MIN <= lo <= i64::MAX && i64::MIN <= hi
                        <= i64::MAX {
                        Some((lo, hi))
                    } else {
                        None
                    },
                    _ => None,
                },
            },
        }
    }
}

/// The scaled-integer reading of a float property's raw value, before
/// any representability bound.
pub open spec fn spec_float_value(p: Property) -> Option<(int, nat)> {
    if p.datatype matches Some(dt) && dt != Datatype::Float {
        None
    } else {
        match p.value {
            None => None,
            Some(v) => spec_parse_decimal(v@),
        }
    }
}

/// The scaled-integer range a float property declares in its format,
/// before any representability bound.
pub open spec fn spec_float_range(p: Property) -> Option<((int, nat), (int, nat))> {
    if p.datatype matches Some(dt) && dt != Datatype::Float {
        None
    } else {
        match p.format {
            None => None,
            Some(f) => match spec_range_parts(f@) {
                None => None,
                Some((a, b)) => match (spec_parse_decimal(a), spec_parse_decimal(b)) {
                    (Some(lo), Some(hi)) => Some((lo, hi)),
                    _ => None,
                },
            },
        }
    }
}

/// Whether a scaled integer lies within the bounds this model can carry:
/// at most seventeen significant digits on a scale of at most seventeen.
pub open spec fn representable(pr: (int, nat)) -> bool {
    pr.1 <= SCALE_LIMIT && -MANTISSA_LIMIT < pr.0 < MANTISSA_LIMIT
}

/// The integer-path percentage: linear interpolation with truncating
/// division, clamped to 0..100. A degenerate range gives no value.
pub open spec fn int_percentage(v: int, lo: int, hi: int) -> Option<int> {
    if lo == hi {
        None
    } else {
        Some(spec_cap(div_trunc((v - lo) * 100, hi - lo), 0, 100))
    }
}

/// The larger of two scales.
pub open spec fn max_scale(a: nat, b: nat) -> nat {
    if a >= b {
        a
    } else {
        b
    }
}

/// The mantissa of `m / 10^s` rescaled to the common scale `cs`.
pub open spec fn aligned(m: int, s: nat, cs: nat) -> int {
    m * pow10((cs - s) as nat)
}

/// The float-path percentage over scaled integers: exact linear
/// interpolation, truncated and clamped to 0..100. A degenerate range
/// clamps to 0 below and at the lower bound and to 100 above it.
pub open spec fn pair_percentage(v: (int, nat), lo: (int, nat), hi: (int, nat)) -> int {
    let cs = max_scale(v.1, max_scale(lo.1, hi.1));
    let mv = aligned(v.0, v.1, cs);
    let ml = aligned(lo.0, lo.1, cs);
    let mh = aligned(hi.0, hi.1, cs);
    if ml == mh {
        if mv > ml {
            100
        } else {
            0
        }
    } else {
        spec_cap(div_trunc((mv - ml) * 100, mh - ml), 0, 100)
    }
}

/// What scaling a property's value to a percentage returns: the
/// integer path for integer properties, the exact decimal path for float
/// properties, no value otherwise.
pub open spec fn spec_property_percentage(p: Property) -> Option<int> {
    match p.datatype {
        Some(Datatype::Integer) => match (spec_i64_value(p), spec_i64_range(p)) {
            (Some(v), Some((lo, hi))) => int_percentage(v, lo, hi),
            _ => None,
        },
        Some(Datatype::Float) => match (spec_float_value(p), spec_float_range(p)) {
            (Some(v), Some((lo, hi))) => if representable(v) && representable(lo)
                && representable(hi) {
                Some(
                    pair_percentage(
                        canon_frac(v.0, v.1),
                        canon_frac(lo.0, lo.1),
                        canon_frac(hi.0, hi.1),
                    ),
                )
            } else {
                None
            },
            _ => None,
        },
        _ => None,
    }
}

/// The integer-path inverse: the raw value for a percentage.
pub open spec fn int_from_percentage(lo: int, hi: int, pct: int) -> int {
    lo + div_trunc(pct * (hi - lo), 100)
}

/// The float-path inverse over scaled integers, formatted as the
/// canonical decimal string.
pub open spec fn pair_from_percentage(lo: (int, nat), hi: (int, nat), pct: int) -> Seq<char> {
    let cs = max_scale(lo.1, hi.1);
    let ml = aligned(lo.0, lo.1, cs);
    let mh = aligned(hi.0, hi.1, cs);
    let num = ml * 100 + pct * (mh - ml);
    dec_string_of(canon_frac(num, cs + 2).0, canon_frac(num, cs + 2).1)
}

/// What converting a percentage to a property's native value string
/// returns.
pub open spec fn spec_property_from_percentage(p: Property, pct: int) -> Option<Seq<char>> {
    match p.datatype {
        Some(Datatype::Integer) => match spec_i64_range(p) {
            Some((lo, hi)) => Some(int_str_of(int_from_percentage(lo, hi, pct))),
            None => None,
        },
        Some(Datatype::Float) => match spec_float_range(p) {
            Some((lo, hi)) => if representable(lo) && representable(hi) {
                Some(pair_from_percentage(canon_frac(lo.0, lo.1), canon_frac(hi.0, hi.1), pct))
            } else {
                None
            },
            None => None,
        },
        _ => None,
    }
}

/// The product of two bounded factors is bounded by the product of the
/// bounds.
proof fn lemma_abs_mul_le(a: int, b: int, bound_a: int, bound_b: int)
    by (nonlinear_arith)
    requires
        -bound_a <= a <= bound_a,
        -bound_b <= b <= bound_b,
        bound_a >= 0,
        bound_b >= 0,
    ensures
        -(bound_a * bound_b) <= a * b <= bound_a * bound_b,
{
}

/// The 64-bit integer reading of the property's raw value.
fn i64_value(p: &Property) -> (r: Option<i64>)
    ensures
        match spec_i64_value(*p) {
            Some(n) => r == Some(n as i64),
            None => r is None,
        },
{
    if let Some(dt) = p.datatype {
        if dt != Datatype::Integer {
            return None;
        }
    }
    match &p.value {
        None => None,
        Some(s) => {
            let cs = str_chars(s.as_str());
            proof {
                assert(cs@.subrange(0, cs@.len() as int) =~= cs@);
            }
            match parse_int_range(&cs, 0, cs.len(), i64::MIN as i128, i64::MAX as i128) {
                Some(n) => Some(n as i64),
                None => None,
            }
        },
    }
}

/// The 64-bit integer range the property's format declares.
fn i64_range(p: &Property) -> (r: Option<(i64, i64)>)
    ensures
        match spec_i64_range(*p) {
            Some((lo, hi)) => r == Some((lo as i64, hi as i64)),
            None => r is None,
        },
{
    if let Some(dt) = p.datatype {
        if dt != Datatype::Integer {
            return None;
        }
    }
    match &p.format {
        None => None,
        Some(f) => {
            let fc = str_chars(f.as_str());
            let n = fc.len();
            match find_char(&fc, 0, ':') {
                None => None,
                Some(i) => {
                    proof {
                        assert(fc@.subrange(0, i as int) =~= fc@.take(i as int));
                        assert(fc@.subrange(i + 1, n as int) =~= fc@.skip(i + 1));
                    }
                    let lo = match parse_int_range(&fc, 0, i, i64::MIN as i128, i64::MAX as i128) {
                        Some(x) => x,
                        None => {
                            return None;
                        },
                    };
                    let hi = match parse_int_range(
                        &fc,
                        i + 1,
                        n,
                        i64::MIN as i128,
                        i64::MAX as i128,
                    ) {
                        Some(x) => x,
                        None => {
                            return None;
                        },
                    };
                    Some((lo as i64, hi as i64))
                },
            }
        },
    }
}

/// The decimal reading of a float property's raw value, canonicalized.
fn float_value(p: &Property) -> (r: Option<Decimal>)
    ensures
        match spec_float_value(*p) {
            Some((n, sc)) => {
                if representable((n, sc)) {
                    match r {
                        Some(d) => d.wf() && (d.mantissa as int, d.scale as nat) == canon_frac(
                            n,
                            sc,
                        ),
                        None => false,
                    }
                } else {
                    r is None
                }
            },
            None => r is None,
        },
{
    if let Some(dt) = p.datatype {
        if dt != Datatype::Float {
            return None;
        }
    }
    match &p.value {
        None => None,
        Some(s) => Decimal::parse(s.as_str()),
    }
}

/// The decimal range a float property's format declares, canonicalized.
fn float_range(p: &Property) -> (r: Option<(Decimal, Decimal)>)
    ensures
        match spec_float_range(*p) {
            Some((lo, hi)) => {
                if representable(lo) && representable(hi) {
                    match r {
                        Some((dl, dh)) => dl.wf() && dh.wf() && (
                        dl.mantissa as int,
                        dl.scale as nat,
                        ) == canon_frac(lo.0, lo.1) && (dh.mantissa as int, dh.scale as nat)
                            == canon_frac(hi.0, hi.1),
                        None => false,
                    }
                } else {
                    r is None
                }
            },
            None => r is None,
        },
{
    if let Some(dt) = p.datatype {
        if dt != Datatype::Float {
            return None;
        }
    }
    match &p.format {
        None => None,
        Some(f) => {
            let fc = str_chars(f.as_str());
            let n = fc.len();
            match find_char(&fc, 0, ':') {
                None => None,
                Some(i) => {
                    let left = sub_vec(&fc, 0, i);
                    let right = sub_vec(&fc, i + 1, n);
                    proof {
                        assert(left@ =~= fc@.take(i as int));
                        assert(right@ =~= fc@.skip(i + 1));
                    }
                    let dl = match Decimal::parse_chars(&left) {
                        Some(x) => x,
                        None => {
                            return None;
                        },
                    };
                    let dh = match Decimal::parse_chars(&right) {
                        Some(x) => x,
                        None => {
                            return None;
                        },
                    };
                    Some((dl, dh))
                },
            }
        },
    }
}

/// The mantissa of `d` rescaled to the common scale `cs`, with its
/// magnitude bound.
fn align_mantissa(d: &Decimal, cs: u32) -> (r: i128)
    requires
        d.wf(),
        d.scale <= cs <= SCALE_LIMIT,
    ensures
        r == aligned(d.mantissa as int, d.scale as nat, cs as nat),
        -(MANTISSA_LIMIT * MANTISSA_LIMIT) < r < MANTISSA_LIMIT * MANTISSA_LIMIT,
{
    let p = pow10_i128(cs - d.scale);
    proof {
        assert(-(MANTISSA_LIMIT * MANTISSA_LIMIT) < d.mantissa * p < MANTISSA_LIMIT
            * MANTISSA_LIMIT) by (nonlinear_arith)
            requires
                -MANTISSA_LIMIT < d.mantissa < MANTISSA_LIMIT,
                1 <= p <= MANTISSA_LIMIT;
    }
    d.mantissa * p
}

/// Scales the value of the given property to a percentage.
pub fn property_value_to_percentage(property: &Property) -> (r: Option<u8>)
    ensures
        match spec_property_percentage(*property) {
            Some(pct) => 0 <= pct <= 100 && r == Some(pct as u8),
            None => r is None,
        },
{
    let dt = match property.datatype {
        Some(dt) => dt,
        None => {
            return None;
        },
    };
    match dt {
        Datatype::Integer => {
            let value = match i64_value(property) {
                Some(v) => v,
                None => {
                    return None;
                },
            };
            let (lo, hi) = match i64_range(property) {
                Some(x) => x,
                None => {
                    return None;
                },
            };
            if lo == hi {
                return None;
            }
            let num: i128 = (value as i128 - lo as i128) * 100;
            let den: i128 = hi as i128 - lo as i128;
            let q = div_trunc_i128(num, den);
            let c = cap(q, 0, 100);
            Some(c as u8)
        },
        Datatype::Float => {
            let value = match float_value(property) {
                Some(v) => v,
                None => {
                    return None;
                },
            };
            let (lo, hi) = match float_range(property) {
                Some(x) => x,
                None => {
                    return None;
                },
            };
            let mut cs = value.scale;
            if lo.scale > cs {
                cs = lo.scale;
            }
            if hi.scale > cs {
                cs = hi.scale;
            }
            let mv = align_mantissa(&value, cs);
            let ml = align_mantissa(&lo, cs);
            let mh = align_mantissa(&hi, cs);
            if ml == mh {
                if mv > ml {
                    Some(100)
                } else {
                    Some(0)
                }
            } else {
                let num = (mv - ml) * 100;
                let den = mh - ml;
                let q = div_trunc_i128(num, den);
                let c = cap(q, 0, 100);
                Some(c as u8)
            }
        },
        _ => None,
    }
}

/// Converts a percentage to the appropriately scaled property value of
/// the given property, if it has a range specified.
pub fn percentage_to_property_value(property: &Property, percentage: u8) -> (r: Option<String>)
    ensures
        match spec_property_from_percentage(*property, percentage as int) {
            Some(s) => match r {
                Some(out) => out@ == s,
                None => false,
            },
            None => r is None,
        },
{
    let dt = match property.datatype {
        Some(dt) => dt,
        None => {
            return None;
        },
    };
    match dt {
        Datatype::Integer => {
            let (lo, hi) = match i64_range(property) {
                Some(x) => x,
                None => {
                    return None;
                },
            };
            proof {
                lemma_abs_mul_le(
                    percentage as int,
                    hi as int - lo as int,
                    255,
                    0x2_0000_0000_0000_0000,
                );
            }
            let num: i128 = (percentage as i128) * (hi as i128 - lo as i128);
            let q = div_trunc_i128(num, 100);
            let val = lo as i128 + q;
            Some(format_i128(val))
        },
        Datatype::Float => {
            let (lo, hi) = match float_range(property) {
                Some(x) => x,
                None => {
                    return None;
                },
            };
            let mut cs = lo.scale;
            if hi.scale > cs {
                cs = hi.scale;
            }
            let ml = align_mantissa(&lo, cs);
            let mh = align_mantissa(&hi, cs);
            proof {
                lemma_abs_mul_le(
                    percentage as int,
                    mh as int - ml as int,
                    255,
                    2 * (MANTISSA_LIMIT * MANTISSA_LIMIT),
                );
            }
            let num = ml * 100 + (percentage as i128) * (mh - ml);
            Some(format_scaled(num, cs + 2))
        },
        _ => None,
    }
}

/// What reading a property as a plain number returns, as a scaled
/// integer: integers pass through on scale zero, floats keep their
/// decimal reading.
pub open spec fn spec_property_number(p: Property) -> Option<(int, nat)> {
    match p.datatype {
        Some(Datatype::Integer) => match spec_i64_value(p) {
            Some(v) => Some((v, 0)),
            None => None,
        },
        Some(Datatype::Float) => match spec_float_value(p) {
            Some((n, sc)) => if representable((n, sc)) {
                Some(canon_frac(n, sc))
            } else {
                None
            },
            None => None,
        },
        _ => None,
    }
}

/// Converts the property value to a plain decimal number if it is an
/// appropriate type.
pub fn property_value_to_number(property: &Property) -> (r: Option<Decimal>)
    ensures
        match spec_property_number(*property) {
            Some((n, sc)) => match r {
                Some(d) => d.mantissa == n && d.scale == sc,
                None => false,
            },
            None => r is None,
        },
{
    let dt = match property.datatype {
        Some(dt) => dt,
        None => {
            return None;
        },
    };
    match dt {
        Datatype::Integer => {
            match i64_value(property) {
                Some(v) => Some(Decimal { mantissa: v as i128, scale: 0 }),
                None => None,
            }
        },
        Datatype::Float => float_value(property),
        _ => None,
    }
}

/// The colour encoding a property declares: the declared datatype, when
/// any, must be colour, and the format must name an encoding.
pub open spec fn spec_color_format(p: Property) -> Option<ColorFormat> {
    if p.datatype matches Some(dt) && dt != Datatype::Color {
        None
    } else {
        match p.format {
            None => None,
            Some(f) => if f@ == "rgb"@ {
                Some(ColorFormat::Rgb)
            } else if f@ == "hsv"@ {
                Some(ColorFormat::Hsv)
            } else {
                None
            },
        }
    }
}

/// If the datatype of the property is colour, returns the colour format.
pub fn color_format(p: &Property) -> (r: Option<ColorFormat>)
    ensures
        r == spec_color_format(*p),
{
    if let Some(dt) = p.datatype {
        if dt != Datatype::Color {
            return None;
        }
    }
    match &p.format {
        None => None,
        Some(f) => {
            if str_eq(f.as_str(), "rgb") {
                Some(ColorFormat::Rgb)
            } else if str_eq(f.as_str(), "hsv") {
                Some(ColorFormat::Hsv)
            } else {
                None
            }
        },
    }
}

/// The three comma-separated unsigned fields of a colour value string,
/// each within its bound.
pub open spec fn spec_parse_triple(s: Seq<char>, b0: int, b1: int, b2: int) -> Option<
    (int, int, int),
> {
    match find_from(s, 0, ',') {
        None => None,
        Some(i) => match find_from(s, i + 1, ',') {
            None => None,
            Some(j) => match (
                spec_parse_uint(s.take(i)),
                spec_parse_uint(s.subrange(i + 1, j)),
                spec_parse_uint(s.skip(j + 1)),
            ) {
                (Some(a), Some(b), Some(c)) => if a <= b0 && b <= b1 && c <= b2 {
                    Some((a, b, c))
                } else {
                    None
                },
                _ => None,
            },
        },
    }
}

/// What reading a property as a cloud colour value returns.
pub open spec fn spec_property_color(p: Property) -> Option<Color> {
    match spec_color_format(p) {
        Some(ColorFormat::Rgb) => match p.value {
            None => None,
            Some(v) => match spec_parse_triple(v@, 255, 255, 255) {
                Some((r, g, b)) => Some(Color::SpectrumRgb((r * 65536 + g * 256 + b) as u32)),
                None => None,
            },
        },
        Some(ColorFormat::Hsv) => match p.value {
            None => None,
            Some(v) => match spec_parse_triple(v@, 360, 100, 100) {
                Some((h, s, vv)) => Some(
                    Color::SpectrumHsv {
                        hue: h as u16,
                        saturation_pct: s as u8,
                        value_pct: vv as u8,
                    },
                ),
                None => None,
            },
        },
        None => None,
    }
}

/// Parses a comma-separated triple of bounded unsigned fields.
fn parse_triple(v: &Vec<char>, b0: u128, b1: u128, b2: u128) -> (r: Option<(u128, u128, u128)>)
    ensures
        match spec_parse_triple(v@, b0 as int, b1 as int, b2 as int) {
            Some((a, b, c)) => 0 <= a <= b0 && 0 <= b <= b1 && 0 <= c <= b2 && r == Some(
                (a as u128, b as u128, c as u128),
            ),
            None => r is None,
        },
{
    let n = v.len();
    let i = match find_char(v, 0, ',') {
        Some(i) => i,
        None => {
            return None;
        },
    };
    let j = match find_char(v, i + 1, ',') {
        Some(j) => j,
        None => {
            return None;
        },
    };
    proof {
        assert(v@.subrange(0, i as int) =~= v@.take(i as int));
        assert(v@.subrange(j + 1, n as int) =~= v@.skip(j + 1));
    }
    let a = match parse_uint_range(v, 0, i, b0) {
        Some(x) => x,
        None => {
            return None;
        },
    };
    let b = match parse_uint_range(v, i + 1, j, b1) {
        Some(x) => x,
        None => {
            return None;
        },
    };
    let c = match parse_uint_range(v, j + 1, n, b2) {
        Some(x) => x,
        None => {
            return None;
        },
    };
    proof {
        crate::text::lemma_parse_uint_nonneg(v@.take(i as int));
        crate::text::lemma_parse_uint_nonneg(v@.subrange(i + 1, j as int));
        crate::text::lemma_parse_uint_nonneg(v@.skip(j + 1));
    }
    Some((a, b, c))
}

/// Converts the value of the given property to a cloud colour value, if
/// it is the appropriate type.
pub fn property_value_to_color(property: &Property) -> (r: Option<Color>)
    ensures
        r == spec_property_color(*property),
{
    let format = match color_format(property) {
        Some(f) => f,
        None => {
            return None;
        },
    };
    let value = match &property.value {
        Some(v) => v,
        None => {
            return None;
        },
    };
    let chars = str_chars(value.as_str());
    match format {
        ColorFormat::Rgb => {
            match parse_triple(&chars, 255, 255, 255) {
                Some((r, g, b)) => Some(
                    Color::SpectrumRgb((r as u32) * 65536 + (g as u32) * 256 + (b as u32)),
                ),
                None => None,
            }
        },
        ColorFormat::Hsv => {
            match parse_triple(&chars, 360, 100, 100) {
                Some((h, s, v)) => Some(
                    Color::SpectrumHsv {
                        hue: h as u16,
                        saturation_pct: s as u8,
                        value_pct: v as u8,
                    },
                ),
                None => None,
            }
        },
    }
}

/// The comma-separated string of three unsigned fields, as colour values
/// travel on the bus.
pub open spec fn triple_string(a: int, b: int, c: int) -> Seq<char> {
    dec_str_of(a) + seq![','] + dec_str_of(b) + seq![','] + dec_str_of(c)
}

/// Formats three unsigned fields as a comma-separated string.
fn format_triple(a: u128, b: u128, c: u128) -> (out: String)
    ensures
        out@ == triple_string(a as int, b as int, c as int),
{
    let mut chars: Vec<char> = Vec::new();
    push_dec_u128(&mut chars, a);
    chars.push(',');
    push_dec_u128(&mut chars, b);
    chars.push(',');
    push_dec_u128(&mut chars, c);
    proof {
        assert(chars@ =~= triple_string(a as int, b as int, c as int));
    }
    string_from_chars(&chars)
}

/// What converting a cloud colour command to the property's native
/// value string returns: the channels of a packed RGB value, or the
/// in-range fields of an HSV value, in the property's declared
/// encoding; no value when the encodings do not match or a field is out
/// of range.
pub open spec fn spec_property_from_color(p: Property, ca: ColorAbsolute) -> Option<Seq<char>> {
    match spec_color_format(p) {
        Some(ColorFormat::Rgb) => match ca.color.value {
            ColorValue::Rgb { spectrum_rgb } => Some(
                triple_string(
                    (spectrum_rgb as int / 65536) % 256,
                    (spectrum_rgb as int / 256) % 256,
                    spectrum_rgb as int % 256,
                ),
            ),
            _ => None,
        },
        Some(ColorFormat::Hsv) => match ca.color.value {
            ColorValue::Hsv { spectrum_hsv } => if spectrum_hsv.hue <= 360
                && spectrum_hsv.saturation_pct <= 100 && spectrum_hsv.value_pct <= 100 {
                Some(
                    triple_string(
                        spectrum_hsv.hue as int,
                        spectrum_hsv.saturation_pct as int,
                        spectrum_hsv.value_pct as int,
                    ),
                )
            } else {
                None
            },
            _ => None,
        },
        None => None,
    }
}

/// Converts a cloud colour command to the appropriate value to set on
/// the given property, if it is the appropriate format.
pub fn color_absolute_to_property_value(property: &Property, color_absolute: &ColorAbsolute) -> (r:
    Option<String>)
    ensures
        match spec_property_from_color(*property, *color_absolute) {
            Some(s) => match r {
                Some(out) => out@ == s,
                None => false,
            },
            None => r is None,
        },
{
    let format = match color_format(property) {
        Some(f) => f,
        None => {
            return None;
        },
    };
    match format {
        ColorFormat::Rgb => {
            if let ColorValue::Rgb { spectrum_rgb } = color_absolute.color.value {
                let x = spectrum_rgb;
                let red = (x / 65536) % 256;
                let green = (x / 256) % 256;
                let blue = x % 256;
                Some(format_triple(red as u128, green as u128, blue as u128))
            } else {
                None
            }
        },
        ColorFormat::Hsv => {
            if let ColorValue::Hsv { spectrum_hsv } = color_absolute.color.value {
                if spectrum_hsv.hue <= 360 && spectrum_hsv.saturation_pct <= 100
                    && spectrum_hsv.value_pct <= 100 {
                    Some(
                        format_triple(
                            spectrum_hsv.hue as u128,
                            spectrum_hsv.saturation_pct as u128,
                            spectrum_hsv.value_pct as u128,
                        ),
                    )
                } else {
                    None
                }
            } else {
                None
            }
        },
    }
}

/// The boolean reading of a property's raw value: the declared datatype,
/// when any, must be boolean, and the value must read `"true"` or
/// `"false"`.
pub open spec fn spec_bool_value(p: Property) -> Option<bool> {
    if p.datatype matches Some(dt) && dt != Datatype::Boolean {
        None
    } else {
        match p.value {
            None => None,
            Some(v) => if v@ == "true"@ {
                Some(true)
            } else if v@ == "false"@ {
                Some(false)
            } else {
                None
            },
        }
    }
}

/// The boolean reading of the property's raw value.
pub fn bool_value(p: &Property) -> (r: Option<bool>)
    ensures
        r == spec_bool_value(*p),
{
    if let Some(dt) = p.datatype {
        if dt != Datatype::Boolean {
            return None;
        }
    }
    match &p.value {
        None => None,
        Some(v) => {
            if str_eq(v.as_str(), "true") {
                Some(true)
            } else if str_eq(v.as_str(), "false") {
                Some(false)
            } else {
                None
            }
        },
    }
}

} // verus!
