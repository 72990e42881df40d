//! Character-level parsing and formatting of the decimal encodings used on
//! the device bus: unsigned and signed integers, and comma- or
//! colon-separated fields.

use vstd::prelude::*;

verus! {

/// Whether `c` is a decimal digit.
pub open spec fn is_digit(c: char) -> bool {
    48 <= c as int <= 57
}

/// The numeric value of a decimal digit.
pub open spec fn digit_val(c: char) -> int {
    c as int - 48
}

/// The decimal digit character for `d` (meaningful for `0 <= d <= 9`).
pub open spec fn digit_char(d: int) -> char {
    if d == 0 { '0' }
    else if d == 1 { '1' }
    else if d == 2 { '2' }
    else if d == 3 { '3' }
    else if d == 4 { '4' }
    else if d == 5 { '5' }
    else if d == 6 { '6' }
    else if d == 7 { '7' }
    else if d == 8 { '8' }
    else { '9' }
}

/// Every character of `s` is a decimal digit.
pub open spec fn all_digits(s: Seq<char>) -> bool {
    forall|i: int| 0 <= i < s.len() ==> is_digit(#[trigger] s[i])
}

/// The integer denoted by a digit string, most significant digit first.
/// The empty string denotes 0.
pub open spec fn digits_val(s: Seq<char>) -> int
    decreases s.len(),
{
    if s.len() == 0 {
        0
    } else {
        digits_val(s.drop_last()) * 10 + digit_val(s.last())
    }
}

/// `10^e`.
pub open spec fn pow10(e: nat) -> int
    decreases e,
{
    if e == 0 {
        1
    } else {
        10 * pow10((e - 1) as nat)
    }
}

/// The canonical decimal digit string of a non-negative integer
/// (no leading zeros, except for `"0"` itself).
pub open spec fn dec_str_of(n: int) -> Seq<char>
    decreases n,
{
    if n < 10 {
        seq![digit_char(n)]
    } else {
        dec_str_of(n / 10).push(digit_char(n % 10))
    }
}

/// The low `width` decimal digits of `n`, zero padded to exactly `width`
/// characters.
pub open spec fn pad_str_of(n: int, width: nat) -> Seq<char>
    decreases width,
{
    if width == 0 {
        Seq::empty()
    } else {
        pad_str_of(n / 10, (width - 1) as nat).push(digit_char(n % 10))
    }
}

/// The canonical decimal string of an integer, with a leading `'-'` when
/// negative.
pub open spec fn int_str_of(n: int) -> Seq<char> {
    if n < 0 {
        seq!['-'] + dec_str_of(-n)
    } else {
        dec_str_of(n)
    }
}

/// The position of the first occurrence of `c` in `s` at or after `from`.
pub open spec fn find_from(s: Seq<char>, from: int, c: char) -> Option<int>
    decreases s.len() - from,
{
    if from < 0 || from >= s.len() {
        None
    } else if s[from] == c {
        Some(from)
    } else {
        find_from(s, from + 1, c)
    }
}

/// The integer denoted by a string of digits with an optional single
/// leading `'+'` sign, as the unsigned decimal parsers of std accept it;
/// `None` when the string is empty or holds any other character.
pub open spec fn spec_parse_uint(s: Seq<char>) -> Option<int> {
    let body = if s.len() > 0 && s[0] == '+' { s.skip(1) } else { s };
    if body.len() > 0 && all_digits(body) {
        Some(digits_val(body))
    } else {
        None
    }
}

/// The integer denoted by a string of digits with an optional single
/// leading `'+'` or `'-'` sign, as the signed decimal parsers of std
/// accept it.
pub open spec fn spec_parse_int(s: Seq<char>) -> Option<int> {
    if s.len() > 0 && s[0] == '-' {
        let body = s.skip(1);
        if body.len() > 0 && all_digits(body) {
            Some(-digits_val(body))
        } else {
            None
        }
    } else {
        spec_parse_uint(s)
    }
}

/// A digit string prefix never denotes more than the whole string.
pub proof fn lemma_digits_val_prefix_le(s: Seq<char>, i: int)
    requires
        all_digits(s),
        0 <= i <= s.len(),
    ensures
        digits_val(s.take(i)) <= digits_val(s),
        digits_val(s) >= 0,
    decreases s.len() - i,
{
    if i == s.len() {
        assert(s.take(i) =~= s);
        lemma_digits_val_nonneg(s);
    } else {
        lemma_digits_val_prefix_le(s, i + 1);
        lemma_digits_val_nonneg(s.take(i));
        assert(s.take(i + 1).drop_last() =~= s.take(i));
        assert(digits_val(s.take(i + 1)) == digits_val(s.take(i)) * 10 + digit_val(s[i]));
        assert(digits_val(s.take(i)) * 10 >= digits_val(s.take(i))) by (nonlinear_arith)
            requires digits_val(s.take(i)) >= 0;
    }
}

/// An unsigned parse never denotes a negative integer.
pub proof fn lemma_parse_uint_nonneg(s: Seq<char>)
    ensures
        match spec_parse_uint(s) {
            Some(n) => n >= 0,
            None => true,
        },
{
    let body = if s.len() > 0 && s[0] == '+' { s.skip(1) } else { s };
    if body.len() > 0 && all_digits(body) {
        lemma_digits_val_nonneg(body);
    }
}

/// A digit string denotes a non-negative integer.
pub proof fn lemma_digits_val_nonneg(s: Seq<char>)
    requires
        all_digits(s),
    ensures
        digits_val(s) >= 0,
    decreases s.len(),
{
    if s.len() > 0 {
        assert(all_digits(s.drop_last()));
        lemma_digits_val_nonneg(s.drop_last());
        assert(digits_val(s.drop_last()) * 10 >= 0) by (nonlinear_arith)
            requires digits_val(s.drop_last()) >= 0;
    }
}

/// Collects the characters of a string slice into a vector.
pub fn str_chars(s: &str) -> (v: Vec<char>)
    ensures
        v@ == s@,
{
    let n: usize = s.unicode_len();
    let mut v: Vec<char> = Vec::new();
    let mut i: usize = 0;
    while i < n
        invariant
            i <= n,
            n == s@.len(),
            v@ == s@.take(i as int),
        decreases n - i,
    {
        let c = s.get_char(i);
        v.push(c);
        i = i + 1;
        proof {
            assert(v@ =~= s@.take(i as int));
        }
    }
    proof {
        assert(v@ =~= s@);
    }
    v
}

/// Relies on `String::push`: appends one character to the string.
#[verifier::external_body]
fn push_char(s: &mut String, c: char)
    ensures
        final(s)@ == old(s)@.push(c),
{
    s.push(c);
}

/// Builds a string from a vector of characters.
pub fn string_from_chars(v: &Vec<char>) -> (s: String)
    ensures
        s@ == v@,
{
    let mut s = String::new();
    let mut i: usize = 0;
    while i < v.len()
        invariant
            i <= v@.len(),
            s@ == v@.take(i as int),
        decreases v@.len() - i,
    {
        push_char(&mut s, v[i]);
        i = i + 1;
        proof {
            assert(s@ =~= v@.take(i as int));
        }
    }
    proof {
        assert(s@ =~= v@);
    }
    s
}

/// Whether `c` is a decimal digit.
pub fn is_digit_exec(c: char) -> (r: bool)
    ensures
        r == is_digit(c),
{
    let u = c as u32;
    48 <= u && u <= 57
}

/// The first position of `c` in `v` at or after `from`.
pub fn find_char(v: &Vec<char>, from: usize, c: char) -> (r: Option<usize>)
    ensures
        match r {
            Some(i) => from <= i < v@.len() && find_from(v@, from as int, c) == Some(i as int),
            None => find_from(v@, from as int, c) is None,
        },
{
    let mut i: usize = from;
    loop
        invariant
            from <= i,
            find_from(v@, from as int, c) == find_from(v@, i as int, c),
        ensures
            match find_from(v@, from as int, c) {
                Some(j) => from <= j < v@.len() && i == j,
                None => i >= v@.len() || v@.len() == 0,
            },
        decreases v@.len() - i,
    {
        if i >= v.len() {
            proof {
                assert(find_from(v@, i as int, c) is None);
            }
            break;
        }
        if v[i] == c {
            break;
        }
        i = i + 1;
    }
    if i < v.len() {
        Some(i)
    } else {
        None
    }
}

/// Parses `v[from..to]` as an unadorned digit string into a `u128`.
/// Returns `None` exactly when the range is empty, holds a non-digit, or
/// denotes a value above `u128::MAX`.
pub fn parse_digits(v: &Vec<char>, from: usize, to: usize) -> (r: Option<u128>)
    requires
        from <= to <= v@.len(),
    ensures
        ({
            let s = v@.subrange(from as int, to as int);
            match r {
                Some(n) => from < to && all_digits(s) && n == digits_val(s),
                None => from == to || !all_digits(s) || digits_val(s) > u128::MAX,
            }
        }),
{
    let ghost s = v@.subrange(from as int, to as int);
    if from == to {
        return None;
    }
    let mut acc: u128 = 0;
    let mut i: usize = from;
    while i < to
        invariant
            from <= i <= to <= v@.len(),
            s == v@.subrange(from as int, to as int),
            all_digits(s.take(i - from)),
            acc == digits_val(s.take(i - from)),
        decreases to - i,
    {
        let c = v[i];
        if !is_digit_exec(c) {
            proof {
                assert(s[i - from] == c);
            }
            return None;
        }
        let d: u128 = (c as u32 - 48) as u128;
        if acc > (u128::MAX - d) / 10 {
            proof {
                let j = i - from;
                assert(s.take(j + 1).drop_last() =~= s.take(j));
                assert(s.take(j + 1).last() == s[j]);
                assert(digits_val(s.take(j + 1)) == acc * 10 + d);
                assert(acc * 10 + d > u128::MAX) by (nonlinear_arith)
                    requires
                        acc > (u128::MAX - d) / 10,
                        0 <= d <= 9,
                        acc >= 0;
                if all_digits(s) {
                    lemma_digits_val_prefix_le(s, j + 1);
                    assert(digits_val(s) > u128::MAX);
                }
            }
            return None;
        }
        proof {
            let j = i - from;
            assert(s.take(j + 1).drop_last() =~= s.take(j));
            assert(s.take(j + 1).last() == s[j]);
            assert(acc * 10 + d <= u128::MAX) by (nonlinear_arith)
                requires
                    acc <= (u128::MAX - d) / 10,
                    0 <= d <= 9,
                    acc >= 0;
        }
        acc = acc * 10 + d;
        i = i + 1;
    }
    proof {
        assert(s.take(to - from) =~= s);
    }
    Some(acc)
}

/// Parses `v[from..to]` as an unsigned decimal integer (one optional
/// leading `'+'`), rejecting values above `max`.
pub fn parse_uint_range(v: &Vec<char>, from: usize, to: usize, max: u128) -> (r: Option<u128>)
    requires
        from <= to <= v@.len(),
    ensures
        ({
            let s = v@.subrange(from as int, to as int);
            match spec_parse_uint(s) {
                Some(n) => if n <= max { r == Some(n as u128) } else { r is None },
                None => r is None,
            }
        }),
{
    let ghost s = v@.subrange(from as int, to as int);
    let body_from = if from < to && v[from] == '+' { from + 1 } else { from };
    proof {
        if from < to && v@[from as int] == '+' {
            assert(s[0] == '+');
            assert(s.skip(1) =~= v@.subrange(body_from as int, to as int));
        } else {
            assert(s =~= v@.subrange(body_from as int, to as int));
        }
    }
    match parse_digits(v, body_from, to) {
        Some(n) => if n <= max { Some(n) } else { None },
        None => None,
    }
}

/// Parses `v[from..to]` as a signed decimal integer (one optional leading
/// `'+'` or `'-'`), rejecting values outside `[min, max]`.
pub fn parse_int_range(v: &Vec<char>, from: usize, to: usize, min: i128, max: i128) -> (r: Option<
    i128,
>)
    requires
        from <= to <= v@.len(),
        i128::MIN < min <= 0 <= max,
    ensures
        ({
            let s = v@.subrange(from as int, to as int);
            match spec_parse_int(s) {
                Some(n) => if min <= n <= max { r == Some(n as i128) } else { r is None },
                None => r is None,
            }
        }),
{
    let ghost s = v@.subrange(from as int, to as int);
    if from < to && v[from] == '-' {
        proof {
            assert(s[0] == '-');
            assert(s.skip(1) =~= v@.subrange(from + 1, to as int));
        }
        match parse_digits(v, from + 1, to) {
            Some(n) => {
                let bound: u128 = (-min) as u128;
                if n <= bound {
                    Some(-(n as i128))
                } else {
                    None
                }
            },
            None => None,
        }
    } else {
        proof {
            if s.len() > 0 && s[0] == '+' {
                assert(s.skip(1) =~= v@.subrange(from + 1, to as int));
            }
        }
        let body_from = if from < to && v[from] == '+' { from + 1 } else { from };
        match parse_digits(v, body_from, to) {
            Some(n) => {
                if n <= max as u128 {
                    Some(n as i128)
                } else {
                    None
                }
            },
            None => None,
        }
    }
}

/// The decimal digit character for `d`.
pub fn digit_char_exec(d: u8) -> (c: char)
    requires
        d < 10,
    ensures
        c == digit_char(d as int),
{
    match d {
        0 => '0',
        1 => '1',
        2 => '2',
        3 => '3',
        4 => '4',
        5 => '5',
        6 => '6',
        7 => '7',
        8 => '8',
        _ => '9',
    }
}

/// Appends the canonical decimal digits of `n` to `out`.
pub fn push_dec_u128(out: &mut Vec<char>, n: u128)
    ensures
        final(out)@ == old(out)@ + dec_str_of(n as int),
    decreases n,
{
    if n < 10 {
        out.push(digit_char_exec(n as u8));
    } else {
        push_dec_u128(out, n / 10);
        out.push(digit_char_exec((n % 10) as u8));
    }
    proof {
        assert(final(out)@ =~= old(out)@ + dec_str_of(n as int));
    }
}

/// Appends exactly `width` digits of `n`, zero padded, to `out`.
pub fn push_pad_u128(out: &mut Vec<char>, n: u128, width: usize)
    ensures
        final(out)@ == old(out)@ + pad_str_of(n as int, width as nat),
    decreases width,
{
    if width > 0 {
        push_pad_u128(out, n / 10, width - 1);
        out.push(digit_char_exec((n % 10) as u8));
    }
    proof {
        assert(final(out)@ =~= old(out)@ + pad_str_of(n as int, width as nat));
    }
}

/// Appends the canonical signed decimal digits of `n` to `out`.
pub fn push_dec_i128(out: &mut Vec<char>, n: i128)
    requires
        n > i128::MIN,
    ensures
        final(out)@ == old(out)@ + int_str_of(n as int),
{
    if n < 0 {
        out.push('-');
        push_dec_u128(out, (-n) as u128);
    } else {
        push_dec_u128(out, n as u128);
    }
    proof {
        assert(final(out)@ =~= old(out)@ + int_str_of(n as int));
    }
}

/// Copies `v[from..to]` into a fresh vector.
pub fn sub_vec(v: &Vec<char>, from: usize, to: usize) -> (r: Vec<char>)
    requires
        from <= to <= v@.len(),
    ensures
        r@ == v@.subrange(from as int, to as int),
{
    let mut r: Vec<char> = Vec::new();
    let mut i: usize = from;
    while i < to
        invariant
            from <= i <= to <= v@.len(),
            r@ == v@.subrange(from as int, i as int),
        decreases to - i,
    {
        r.push(v[i]);
        i = i + 1;
        proof {
            assert(r@ =~= v@.subrange(from as int, i as int));
        }
    }
    r
}

/// Compares two string slices character by character.
pub fn str_eq(a: &str, b: &str) -> (r: bool)
    ensures
        r == (a@ == b@),
{
    let an: usize = a.unicode_len();
    let bn: usize = b.unicode_len();
    if an != bn {
        return false;
    }
    let mut i: usize = 0;
    while i < an
        invariant
            i <= an,
            an == a@.len() == b@.len() == bn,
            forall|j: int| 0 <= j < i ==> a@[j] == b@[j],
        decreases an - i,
    {
        if a.get_char(i) != b.get_char(i) {
            return false;
        }
        i = i + 1;
    }
    proof {
        assert(a@ =~= b@);
    }
    true
}

/// The canonical decimal string of a signed integer.
pub fn format_i128(n: i128) -> (s: String)
    requires
        n > i128::MIN,
    ensures
        s@ == int_str_of(n as int),
{
    let mut out: Vec<char> = Vec::new();
    push_dec_i128(&mut out, n);
    string_from_chars(&out)
}

} // verus!
