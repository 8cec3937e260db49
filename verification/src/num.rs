//! Decimal formatting and parsing over character sequences.
//!
//! These are the numeric pieces that the rate-limit header reader and the
//! disk-cache entry format rely on. Durations are represented throughout the
//! library as whole milliseconds, so the `Retry-After` header's decimal
//! seconds are read to a floor-of-millisecond value here.

use vstd::prelude::*;

verus! {

/// The character for a single decimal digit.
pub open spec fn spec_digit_char(d: int) -> char {
    if d == 0 {
        '0'
    } else if d == 1 {
        '1'
    } else if d == 2 {
        '2'
    } else if d == 3 {
        '3'
    } else if d == 4 {
        '4'
    } else if d == 5 {
        '5'
    } else if d == 6 {
        '6'
    } else if d == 7 {
        '7'
    } else if d == 8 {
        '8'
    } else {
        '9'
    }
}

/// The canonical decimal rendering of a natural number (no leading zeros).
pub open spec fn spec_decimal(n: nat) -> Seq<char>
    decreases n,
{
    if n < 10 {
        seq![spec_digit_char(n as int)]
    } else {
        spec_decimal(n / 10).push(spec_digit_char((n % 10) as int))
    }
}

fn digit_char_of(d: u64) -> (c: char)
    requires
        d < 10,
    ensures
        c == spec_digit_char(d as int),
{
    if d == 0 {
        '0'
    } else if d == 1 {
        '1'
    } else if d == 2 {
        '2'
    } else if d == 3 {
        '3'
    } else if d == 4 {
        '4'
    } else if d == 5 {
        '5'
    } else if d == 6 {
        '6'
    } else if d == 7 {
        '7'
    } else if d == 8 {
        '8'
    } else {
        '9'
    }
}

/// Append the decimal rendering of `n` to `out`.
pub fn push_decimal(n: u64, out: &mut Vec<char>)
    ensures
        final(out)@ == old(out)@ + spec_decimal(n as nat),
    decreases n,
{
    if n < 10 {
        out.push(digit_char_of(n));
        assert(out@ =~= old(out)@ + spec_decimal(n as nat));
    } else {
        push_decimal(n / 10, out);
        out.push(digit_char_of(n % 10));
        assert(out@ =~= old(out)@ + spec_decimal(n as nat));
    }
}

/// The decimal rendering of `n` as characters.
pub fn u64_to_dec_chars(n: u64) -> (v: Vec<char>)
    ensures
        v@ == spec_decimal(n as nat),
{
    let mut v: Vec<char> = Vec::new();
    push_decimal(n, &mut v);
    v
}

/// The decimal rendering of `n` as a string.
pub fn u64_to_decimal(n: u64) -> (s: String)
    ensures
        s@ == spec_decimal(n as nat),
{
    let v = u64_to_dec_chars(n);
    crate::text::chars_to_string(&v)
}

/// A decimal digit character.
pub open spec fn is_digit_char(c: char) -> bool {
    48 <= c as u32 && c as u32 <= 57
}

/// The numeric value of a digit character.
pub open spec fn digit_val(c: char) -> int {
    c as u32 - 48
}

/// Every character of the sequence is a decimal digit.
pub open spec fn all_digits(s: Seq<char>) -> bool {
    forall|i: int| 0 <= i < s.len() ==> is_digit_char(#[trigger] s[i])
}

/// The value of a digit string, most significant digit first.
pub open spec fn spec_digits_val(s: Seq<char>) -> int
    decreases s.len(),
{
    if s.len() == 0 {
        0
    } else {
        spec_digits_val(s.drop_last()) * 10 + digit_val(s.last())
    }
}

pub proof fn lemma_digits_val_nonneg(s: Seq<char>)
    requires
        all_digits(s),
    ensures
        spec_digits_val(s) >= 0,
    decreases s.len(),
{
    if s.len() > 0 {
        assert(all_digits(s.drop_last())) by {
            assert forall|i: int| 0 <= i < s.len() - 1 implies is_digit_char(
                #[trigger] s.drop_last()[i],
            ) by {
                assert(s.drop_last()[i] == s[i]);
            }
        }
        lemma_digits_val_nonneg(s.drop_last());
        assert(is_digit_char(s.last()));
    }
}

/// A digit string's value is at least the value of any of its prefixes.
pub proof fn lemma_digits_val_prefix(s: Seq<char>, i: int)
    requires
        all_digits(s),
        0 <= i <= s.len(),
    ensures
        spec_digits_val(s.take(i)) <= spec_digits_val(s),
    decreases s.len(),
{
    if i == s.len() {
        assert(s.take(i) =~= s);
    } else {
        assert(all_digits(s.drop_last())) by {
            assert forall|j: int| 0 <= j < s.len() - 1 implies is_digit_char(
                #[trigger] s.drop_last()[j],
            ) by {
                assert(s.drop_last()[j] == s[j]);
            }
        }
        assert(s.take(i) =~= s.drop_last().take(i));
        lemma_digits_val_prefix(s.drop_last(), i);
        lemma_digits_val_nonneg(s.drop_last());
        assert(is_digit_char(s.last()));
        assert(spec_digits_val(s.drop_last()) * 10 >= spec_digits_val(s.drop_last()));
    }
}

/// The value of a nonempty digit string, when it fits in a `u64`.
///
/// This mirrors what `str::parse::<u64>` accepts, except that a leading
/// sign character is not recognized.
pub open spec fn spec_parse_u64(s: Seq<char>) -> Option<u64> {
    if s.len() == 0 || !all_digits(s) {
        None
    } else if spec_digits_val(s) <= u64::MAX {
        Some(spec_digits_val(s) as u64)
    } else {
        None
    }
}

/// Parse a nonempty all-digit character vector as a `u64`.
pub fn parse_u64_chars(v: &Vec<char>) -> (r: Option<u64>)
    ensures
        r == spec_parse_u64(v@),
{
    if v.len() == 0 {
        return None;
    }
    let mut acc: u64 = 0;
    let mut i: usize = 0;
    while i < v.len()
        invariant
            0 <= i <= v@.len(),
            v@.len() > 0,
            all_digits(v@.take(i as int)),
            acc == spec_digits_val(v@.take(i as int)),
        decreases v@.len() - i,
    {
        let c = v[i];
        let u = c as u32;
        if !(48 <= u && u <= 57) {
            assert(!is_digit_char(v@[i as int]));
            return None;
        }
        let d: u64 = (u - 48) as u64;
        proof {
            assert(v@.take(i + 1).drop_last() =~= v@.take(i as int));
            assert(v@.take(i + 1).last() == v@[i as int]);
            assert(all_digits(v@.take(i + 1)));
        }
        let next = match acc.checked_mul(10) {
            Some(x) => x.checked_add(d),
            None => None,
        };
        match next {
            Some(y) => {
                acc = y;
            },
            None => {
                proof {
                    assert(spec_digits_val(v@.take(i + 1)) > u64::MAX);
                    if all_digits(v@) {
                        lemma_digits_val_prefix(v@, i + 1);
                    }
                }
                return None;
            },
        }
        i = i + 1;
    }
    proof {
        assert(v@.take(i as int) =~= v@);
    }
    Some(acc)
}

/// Parse as `u32`, rejecting values that do not fit.
pub fn parse_u32_chars(v: &Vec<char>) -> (r: Option<u32>)
    ensures
        match r {
            Some(x) => spec_parse_u64(v@) == Some(x as u64) && x <= u32::MAX,
            None => spec_parse_u64(v@) is None || (spec_parse_u64(v@) matches Some(y) && y
                > u32::MAX),
        },
{
    match parse_u64_chars(v) {
        Some(x) => {
            if x <= u32::MAX as u64 {
                Some(x as u32)
            } else {
                None
            }
        },
        None => None,
    }
}

/// The index of the first occurrence of `c` in `s`, or -1.
pub open spec fn first_index_of(s: Seq<char>, c: char) -> int
    decreases s.len(),
{
    if s.len() == 0 {
        -1
    } else if s[0] == c {
        0
    } else if first_index_of(s.drop_first(), c) < 0 {
        -1
    } else {
        1 + first_index_of(s.drop_first(), c)
    }
}

proof fn lemma_first_index_char(s: Seq<char>, c: char, i: int)
    requires
        0 <= i <= s.len(),
        forall|j: int| 0 <= j < i ==> s[j] != c,
        i < s.len() ==> s[i] == c,
    ensures
        i == s.len() ==> first_index_of(s, c) == -1,
        i < s.len() ==> first_index_of(s, c) == i,
    decreases i,
{
    if s.len() == 0 {
    } else if i == 0 {
    } else {
        assert(s[0] != c);
        assert forall|j: int| 0 <= j < i - 1 implies s.drop_first()[j] != c by {
            assert(s.drop_first()[j] == s[j + 1]);
        }
        if i - 1 < s.drop_first().len() {
            assert(s.drop_first()[i - 1] == s[i]);
        }
        lemma_first_index_char(s.drop_first(), c, i - 1);
    }
}

/// Find the first occurrence of a character.
pub fn find_char(v: &Vec<char>, c: char) -> (r: Option<usize>)
    ensures
        match r {
            Some(i) => first_index_of(v@, c) == i && i < v@.len() && v@[i as int] == c,
            None => first_index_of(v@, c) == -1,
        },
{
    let mut i: usize = 0;
    while i < v.len()
        invariant
            0 <= i <= v@.len(),
            forall|j: int| 0 <= j < i ==> v@[j] != c,
        decreases v@.len() - i,
    {
        if v[i] == c {
            proof {
                lemma_first_index_char(v@, c, i as int);
            }
            return Some(i);
        }
        i = i + 1;
    }
    proof {
        lemma_first_index_char(v@, c, v@.len() as int);
    }
    None
}

} // verus!

verus! {

/// Copy the characters in `[a, b)` out of `v`.
pub fn slice_chars(v: &Vec<char>, a: usize, b: usize) -> (r: Vec<char>)
    requires
        a <= b <= v@.len(),
    ensures
        r@ == v@.subrange(a as int, b as int),
{
    let mut r: Vec<char> = Vec::new();
    let mut i: usize = a;
    while i < b
        invariant
            a <= i <= b <= v@.len(),
            r@ == v@.subrange(a as int, i as int),
        decreases b - i,
    {
        r.push(v[i]);
        i = i + 1;
        assert(r@ =~= v@.subrange(a as int, i as int));
    }
    r
}

/// Check that every character is a decimal digit.
pub fn all_digits_exec(v: &Vec<char>) -> (r: bool)
    ensures
        r == all_digits(v@),
{
    let mut i: usize = 0;
    while i < v.len()
        invariant
            0 <= i <= v@.len(),
            forall|j: int| 0 <= j < i ==> is_digit_char(#[trigger] v@[j]),
        decreases v@.len() - i,
    {
        let u = v[i] as u32;
        if !(48 <= u && u <= 57) {
            return false;
        }
        i = i + 1;
    }
    true
}

/// The milliseconds contributed by a fractional-seconds digit string,
/// truncated past the third digit.
pub open spec fn spec_frac_ms(fp: Seq<char>) -> int {
    if fp.len() >= 3 {
        spec_digits_val(fp.take(3))
    } else if fp.len() == 2 {
        spec_digits_val(fp) * 10
    } else if fp.len() == 1 {
        spec_digits_val(fp) * 100
    } else {
        0
    }
}

/// A `Retry-After` header value — a non-negative decimal number of seconds —
/// as whole milliseconds, floored past the millisecond.
///
/// Accepts `digits`, `digits.digits`, `.digits` and `digits.`; a sign,
/// an exponent, or a value whose millisecond count does not fit in a `u64`
/// is rejected.
pub open spec fn spec_retry_after_ms(s: Seq<char>) -> Option<u64> {
    let k = first_index_of(s, '.');
    if k < 0 {
        if s.len() == 0 || !all_digits(s) {
            None
        } else if spec_digits_val(s) * 1000 <= u64::MAX {
            Some((spec_digits_val(s) * 1000) as u64)
        } else {
            None
        }
    } else {
        let ip = s.take(k);
        let fp = s.skip(k + 1);
        if !all_digits(ip) || !all_digits(fp) || ip.len() + fp.len() == 0 {
            None
        } else if spec_digits_val(ip) * 1000 + spec_frac_ms(fp) <= u64::MAX {
            Some((spec_digits_val(ip) * 1000 + spec_frac_ms(fp)) as u64)
        } else {
            None
        }
    }
}

proof fn lemma_frac_ms_bounds(fp: Seq<char>)
    requires
        all_digits(fp),
    ensures
        0 <= spec_frac_ms(fp) <= 999,
{
    if fp.len() >= 3 {
        assert(all_digits(fp.take(3))) by {
            assert forall|j: int| 0 <= j < 3 implies is_digit_char(#[trigger] fp.take(3)[j]) by {
                assert(fp.take(3)[j] == fp[j]);
            }
        }
        lemma_digits_val_bounded(fp.take(3));
    } else if fp.len() == 2 {
        lemma_digits_val_bounded(fp);
    } else if fp.len() == 1 {
        lemma_digits_val_bounded(fp);
    }
}

proof fn lemma_digits_val_bounded(s: Seq<char>)
    requires
        all_digits(s),
        s.len() <= 3,
    ensures
        s.len() == 0 ==> spec_digits_val(s) == 0,
        s.len() == 1 ==> 0 <= spec_digits_val(s) <= 9,
        s.len() == 2 ==> 0 <= spec_digits_val(s) <= 99,
        s.len() == 3 ==> 0 <= spec_digits_val(s) <= 999,
    decreases s.len(),
{
    if s.len() > 0 {
        assert(all_digits(s.drop_last())) by {
            assert forall|j: int| 0 <= j < s.len() - 1 implies is_digit_char(
                #[trigger] s.drop_last()[j],
            ) by {
                assert(s.drop_last()[j] == s[j]);
            }
        }
        lemma_digits_val_bounded(s.drop_last());
        assert(is_digit_char(s.last()));
    }
}

} // verus!

verus! {

/// Read a `Retry-After` header value as whole milliseconds.
pub fn parse_retry_after_millis(s: &str) -> (r: Option<u64>)
    ensures
        r == spec_retry_after_ms(s@),
{
    let v = crate::text::str_to_chars(s);
    match find_char(&v, '.') {
        None => {
            match parse_u64_chars(&v) {
                None => {
                    proof {
                        if v@.len() > 0 && all_digits(v@) {
                            lemma_digits_val_nonneg(v@);
                        }
                    }
                    None
                },
                Some(secs) => {
                    proof {
                        lemma_digits_val_nonneg(v@);
                    }
                    match secs.checked_mul(1000) {
                        Some(ms) => Some(ms),
                        None => None,
                    }
                },
            }
        },
        Some(k) => {
            let ip = slice_chars(&v, 0, k);
            let fp = slice_chars(&v, k + 1, v.len());
            proof {
                assert(ip@ =~= v@.take(k as int));
                assert(fp@ =~= v@.skip(k as int + 1));
            }
            if !all_digits_exec(&ip) {
                return None;
            }
            if !all_digits_exec(&fp) {
                return None;
            }
            if ip.len() == 0 && fp.len() == 0 {
                return None;
            }
            proof {
                lemma_digits_val_nonneg(ip@);
                lemma_frac_ms_bounds(fp@);
            }
            let secs: u64 = if ip.len() == 0 {
                0
            } else {
                match parse_u64_chars(&ip) {
                    Some(x) => x,
                    None => {
                        return None;
                    },
                }
            };
            let fl = fp.len();
            let frac: u64 = if fl >= 3 {
                let f3 = slice_chars(&fp, 0, 3);
                proof {
                    assert(f3@ =~= fp@.take(3));
                    assert(all_digits(f3@)) by {
                        assert forall|j: int| 0 <= j < 3 implies is_digit_char(
                            #[trigger] f3@[j],
                        ) by {
                            assert(f3@[j] == fp@[j]);
                        }
                    }
                    lemma_digits_val_bounded(f3@);
                }
                match parse_u64_chars(&f3) {
                    Some(x) => x,
                    None => {
                        proof {
                            assert(false);
                        }
                        0
                    },
                }
            } else if fl == 2 {
                proof {
                    lemma_digits_val_bounded(fp@);
                }
                match parse_u64_chars(&fp) {
                    Some(x) => x * 10,
                    None => {
                        proof {
                            assert(false);
                        }
                        0
                    },
                }
            } else if fl == 1 {
                proof {
                    lemma_digits_val_bounded(fp@);
                }
                match parse_u64_chars(&fp) {
                    Some(x) => x * 100,
                    None => {
                        proof {
                            assert(false);
                        }
                        0
                    },
                }
            } else {
                0
            };
            match secs.checked_mul(1000) {
                Some(base) => {
                    match base.checked_add(frac) {
                        Some(total) => Some(total),
                        None => None,
                    }
                },
                None => None,
            }
        },
    }
}

} // verus!

verus! {

/// Check one character for a decimal digit.
pub fn is_digit(c: char) -> (r: bool)
    ensures
        r == is_digit_char(c),
{
    let u = c as u32;
    48 <= u && u <= 57
}

} // verus!
