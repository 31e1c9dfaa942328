//! Verified numeral parsing: decimal digit strings to unsigned and signed
//! integers, and a syntax check for decimal-fraction literals.
//!
//! Accepted integer numerals are a non-empty run of ASCII digits, optionally
//! preceded by a single `-` for the signed parsers.  Accepted
//! decimal-fraction literals additionally allow one `.` with digits on both
//! sides.

use vstd::prelude::*;

verus! {

/// Whether `c` is an ASCII decimal digit.
pub open spec fn is_digit(c: char) -> bool {
    '0' <= c && c <= '9'
}

/// The numeric value of a digit character.
pub open spec fn digit_val(c: char) -> int {
    c as int - '0' as int
}

/// Whether `s` is a non-empty run of decimal digits.
pub open spec fn is_digit_seq(s: Seq<char>) -> bool {
    s.len() > 0 && forall|i: int| 0 <= i < s.len() ==> is_digit(#[trigger] s[i])
}

/// The value of a run of decimal digits, most significant first.
pub open spec fn dec_val(s: Seq<char>) -> int
    decreases s.len(),
{
    if s.len() == 0 {
        0
    } else {
        dec_val(s.drop_last()) * 10 + digit_val(s.last())
    }
}

/// Whether `s` is an optionally negated run of decimal digits.
pub open spec fn is_int_seq(s: Seq<char>) -> bool {
    is_digit_seq(s) || (s.len() > 1 && s[0] == '-' && is_digit_seq(s.skip(1)))
}

/// The value of an optionally negated run of decimal digits.
pub open spec fn int_val(s: Seq<char>) -> int {
    if s.len() > 0 && s[0] == '-' {
        -dec_val(s.skip(1))
    } else {
        dec_val(s)
    }
}

proof fn lemma_dec_val_step(s: Seq<char>, i: int)
    requires
        0 <= i < s.len(),
    ensures
        dec_val(s.take(i + 1)) == dec_val(s.take(i)) * 10 + digit_val(s[i]),
{
    assert(s.take(i + 1).drop_last() =~= s.take(i));
    assert(s.take(i + 1).last() == s[i]);
}

pub proof fn lemma_dec_val_nonneg(s: Seq<char>)
    requires
        forall|i: int| 0 <= i < s.len() ==> is_digit(#[trigger] s[i]),
    ensures
        dec_val(s) >= 0,
    decreases s.len(),
{
    if s.len() > 0 {
        lemma_dec_val_nonneg(s.drop_last());
    }
}

/// Once a digit prefix exceeds a bound, the whole numeral does too.
proof fn lemma_dec_val_prefix_bound(s: Seq<char>, i: int, max: int)
    requires
        forall|k: int| 0 <= k < s.len() ==> is_digit(#[trigger] s[k]),
        0 <= i <= s.len(),
        dec_val(s.take(i)) > max,
        max >= 0,
    ensures
        dec_val(s) > max,
    decreases s.len() - i,
{
    if i == s.len() {
        assert(s.take(i) =~= s);
    } else {
        lemma_dec_val_step(s, i);
        lemma_dec_val_prefix_bound(s, i + 1, max);
    }
}

/// Parses a run of decimal digits as a `u64`, refusing values above `max`.
pub fn parse_u64_max(s: &str, max: u64) -> (r: Option<u64>)
    ensures
        r is Some <==> is_digit_seq(s@) && dec_val(s@) <= max,
        r is Some ==> r == Some((dec_val(s@) as u64)) && dec_val(s@) >= 0,
{
    let n = s.unicode_len();
    if n == 0 {
        return None;
    }
    let mut acc: u64 = 0;
    let mut i: usize = 0;
    while i < n
        invariant
            0 <= i <= n,
            n == s@.len(),
            forall|k: int| 0 <= k < i ==> is_digit(#[trigger] s@[k]),
            acc == dec_val(s@.take(i as int)),
            acc <= max,
        decreases n - i,
    {
        let c = s.get_char(i);
        if !('0' <= c && c <= '9') {
            return None;
        }
        let d: u64 = (c as u8 - 48) as u64;
        proof {
            lemma_dec_val_step(s@, i as int);
            lemma_dec_val_nonneg(s@.take(i as int));
        }
        if acc > max / 10 {
            proof {
                assert(10 * acc >= 10 * (max / 10) + 10);
                assert(10 * (max as int / 10) + 10 > max);
                if is_digit_seq(s@) {
                    lemma_dec_val_prefix_bound(s@, i + 1, max as int);
                }
            }
            return None;
        }
        let next: u64 = 10 * acc;
        if d > max - next {
            proof {
                if is_digit_seq(s@) {
                    lemma_dec_val_prefix_bound(s@, i + 1, max as int);
                }
            }
            return None;
        }
        acc = next + d;
        i = i + 1;
    }
    proof {
        assert(s@.take(n as int) =~= s@);
    }
    Some(acc)
}

/// Parses a digit run as a `u32`.
pub fn parse_u32(s: &str) -> (r: Option<u32>)
    ensures
        r is Some <==> is_digit_seq(s@) && dec_val(s@) <= u32::MAX,
        r is Some ==> r == Some((dec_val(s@) as u32)) && dec_val(s@) >= 0,
{
    match parse_u64_max(s, 0xffff_ffff) {
        Some(v) => {
            proof {
                lemma_dec_val_nonneg(s@);
            }
            Some(v as u32)
        },
        None => None,
    }
}

/// Parses a digit run as a `u8`.
pub fn parse_u8(s: &str) -> (r: Option<u8>)
    ensures
        r is Some <==> is_digit_seq(s@) && dec_val(s@) <= u8::MAX,
        r is Some ==> r == Some((dec_val(s@) as u8)) && dec_val(s@) >= 0,
{
    match parse_u64_max(s, 0xff) {
        Some(v) => {
            proof {
                lemma_dec_val_nonneg(s@);
            }
            Some(v as u8)
        },
        None => None,
    }
}

/// Parses an optionally negated digit run as an `i64`.
pub fn parse_i64(s: &str) -> (r: Option<i64>)
    ensures
        r is Some <==> is_int_seq(s@) && i64::MIN <= int_val(s@) <= i64::MAX,
        r is Some ==> r == Some((int_val(s@) as i64)),
{
    let n = s.unicode_len();
    if n >= 1 && s.get_char(0) == '-' {
        let rest = s.substring_char(1, n);
        proof {
            assert(rest@ =~= s@.skip(1));
            if is_digit_seq(s@) {
                assert(is_digit(s@[0]));
            }
        }
        match parse_u64_max(rest, 9_223_372_036_854_775_808) {
            Some(mag) => {
                proof {
                    lemma_dec_val_nonneg(s@.skip(1));
                }
                if mag == 9_223_372_036_854_775_808 {
                    Some(i64::MIN)
                } else {
                    Some(-(mag as i64))
                }
            },
            None => None,
        }
    } else {
        proof {
            if n > 0 && is_int_seq(s@) && s@[0] == '-' {
                assert(false);
            }
        }
        match parse_u64_max(s, 0x7fff_ffff_ffff_ffff) {
            Some(v) => {
                proof {
                    lemma_dec_val_nonneg(s@);
                }
                Some(v as i64)
            },
            None => None,
        }
    }
}

/// Parses an optionally negated digit run as an `i32`.
pub fn parse_i32(s: &str) -> (r: Option<i32>)
    ensures
        r is Some <==> is_int_seq(s@) && i32::MIN <= int_val(s@) <= i32::MAX,
        r is Some ==> r == Some((int_val(s@) as i32)),
{
    match parse_i64(s) {
        Some(v) => {
            if -2_147_483_648 <= v && v <= 2_147_483_647 {
                Some(v as i32)
            } else {
                None
            }
        },
        None => None,
    }
}

/// Parses an optionally negated digit run as an `i8`.
pub fn parse_i8(s: &str) -> (r: Option<i8>)
    ensures
        r is Some <==> is_int_seq(s@) && i8::MIN <= int_val(s@) <= i8::MAX,
        r is Some ==> r == Some((int_val(s@) as i8)),
{
    match parse_i64(s) {
        Some(v) => {
            if -128 <= v && v <= 127 {
                Some(v as i8)
            } else {
                None
            }
        },
        None => None,
    }
}

/// Whether `s` is a decimal-fraction literal: an optionally negated digit
/// run, with at most one `.` carrying digits on both sides.
pub open spec fn is_decimal_seq(s: Seq<char>) -> bool {
    (if s.len() > 0 && s[0] == '-' {
        is_decimal_core(s.skip(1))
    } else {
        is_decimal_core(s)
    })
}

/// The unsigned part of [`is_decimal_seq`].
pub open spec fn is_decimal_core(t: Seq<char>) -> bool {
    is_digit_seq(t) || (exists|j: int|
        0 <= j < t.len() && #[trigger] t[j] == '.' && is_digit_seq(t.take(j)) && is_digit_seq(
            t.skip(j + 1),
        ))
}

/// Checks that every character of `s@` in `[from, to)` is a digit and the
/// range is non-empty.
fn check_digit_range(s: &str, from: usize, to: usize) -> (r: bool)
    requires
        from <= to <= s@.len(),
    ensures
        r == is_digit_seq(s@.subrange(from as int, to as int)),
{
    if from == to {
        return false;
    }
    let mut i = from;
    while i < to
        invariant
            from <= i <= to <= s@.len(),
            forall|k: int| from <= k < i ==> is_digit(#[trigger] s@[k]),
        decreases to - i,
    {
        let c = s.get_char(i);
        if !('0' <= c && c <= '9') {
            assert(!is_digit(s@.subrange(from as int, to as int)[i - from]));
            return false;
        }
        i = i + 1;
    }
    assert forall|k: int| 0 <= k < to - from implies is_digit(
        #[trigger] s@.subrange(from as int, to as int)[k],
    ) by {
        assert(s@.subrange(from as int, to as int)[k] == s@[from + k]);
    }
    true
}

/// Syntax check for decimal-fraction literals; mirrors [`is_decimal_seq`].
pub fn is_decimal_str(s: &str) -> (r: bool)
    ensures
        r == is_decimal_seq(s@),
{
    let n = s.unicode_len();
    let start: usize = if n >= 1 && s.get_char(0) == '-' {
        1
    } else {
        0
    };
    let ghost t = if start == 1 {
        s@.skip(1)
    } else {
        s@
    };
    proof {
        assert(t =~= s@.subrange(start as int, n as int));
    }
    match find_dot(s, start) {
        Some(j) => {
            let before = check_digit_range(s, start, j);
            let after = check_digit_range(s, j + 1, n);
            proof {
                assert(t.take(j - start) =~= s@.subrange(start as int, j as int));
                assert(t.skip(j - start + 1) =~= s@.subrange(j + 1, n as int));
                if before && after {
                    assert(t[j - start] == '.');
                } else {
                    assert forall|j2: int|
                        0 <= j2 < t.len() && #[trigger] t[j2] == '.' implies !(is_digit_seq(
                        t.take(j2),
                    ) && is_digit_seq(t.skip(j2 + 1))) by {
                        if j2 < j - start {
                            assert(s@[start + j2] == '.');
                            assert(false);
                        } else if j2 == j - start {
                        } else {
                            assert(t.take(j2)[j - start] == '.');
                            assert(!is_digit('.'));
                        }
                    }
                    assert(!is_digit(t[j - start]));
                }
            }
            before && after
        },
        None => {
            let r = check_digit_range(s, start, n);
            proof {
                assert forall|j2: int| 0 <= j2 < t.len() implies #[trigger] t[j2] != '.' by {
                    assert(s@[start + j2] != '.');
                }
            }
            r
        },
    }
}

/// Finds the first `.` at or after `from`.
fn find_dot(s: &str, from: usize) -> (r: Option<usize>)
    requires
        from <= s@.len(),
    ensures
        match r {
            Some(j) => from <= j < s@.len() && s@[j as int] == '.' && forall|k: int|
                from <= k < j ==> s@[k] != '.',
            None => forall|k: int| from <= k < s@.len() ==> s@[k] != '.',
        },
{
    crate::text::find_char_from(s, from, '.')
}

} // verus!
