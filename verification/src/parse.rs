//! Decimal parsing of unsigned configuration values.
//!
//! Configuration inputs arrive as raw bytes; each must be an unsigned
//! decimal integer (an optional leading `+` is accepted, as Rust's own
//! unsigned parsers do). The spec-level meaning of a byte string is
//! given by `dec_value` over its digit sequence.

use vstd::prelude::*;

verus! {

/// `b` is an ASCII decimal digit `'0'..='9'`.
pub open spec fn is_ascii_digit(b: u8) -> bool {
    48 <= b && b <= 57
}

/// Numeric value of an ASCII digit.
pub open spec fn digit_val(b: u8) -> nat
    recommends
        is_ascii_digit(b),
{
    (b - 48) as nat
}

/// Every byte of `s` is an ASCII decimal digit.
pub open spec fn all_digits(s: Seq<u8>) -> bool {
    forall|i: int| 0 <= i < s.len() ==> is_ascii_digit(s[i])
}

/// The number denoted by a sequence of decimal digits, most significant first.
pub open spec fn dec_value(s: Seq<u8>) -> nat
    decreases s.len(),
{
    if s.len() == 0 {
        0
    } else {
        dec_value(s.drop_last()) * 10 + digit_val(s.last())
    }
}

/// The digit part of an input: everything after one optional leading `+`.
pub open spec fn digits_of(s: Seq<u8>) -> Seq<u8> {
    if s.len() > 0 && s[0] == 43 {
        s.subrange(1, s.len() as int)
    } else {
        s
    }
}

/// `s` denotes an unsigned decimal number that fits in `u64`.
pub open spec fn is_dec_u64(s: Seq<u8>) -> bool {
    &&& digits_of(s).len() > 0
    &&& all_digits(digits_of(s))
    &&& dec_value(digits_of(s)) <= u64::MAX
}

/// `s` denotes an unsigned decimal number that fits in `u32`.
pub open spec fn is_dec_u32(s: Seq<u8>) -> bool {
    &&& digits_of(s).len() > 0
    &&& all_digits(digits_of(s))
    &&& dec_value(digits_of(s)) <= u32::MAX
}

/// `s` denotes an unsigned decimal number that fits in `u8`.
pub open spec fn is_dec_u8(s: Seq<u8>) -> bool {
    &&& digits_of(s).len() > 0
    &&& all_digits(digits_of(s))
    &&& dec_value(digits_of(s)) <= u8::MAX
}

/// A digit sequence denotes at least as much as any of its prefixes.
pub proof fn lemma_dec_value_prefix_le(s: Seq<u8>, i: int)
    requires
        0 <= i <= s.len(),
        all_digits(s),
    ensures
        dec_value(s.subrange(0, i)) <= dec_value(s),
    decreases s.len() - i,
{
    if i == s.len() {
        assert(s.subrange(0, i) =~= s);
    } else {
        assert(s.subrange(0, i + 1).drop_last() =~= s.subrange(0, i));
        assert(s.subrange(0, i + 1).last() == s[i]);
        assert(dec_value(s.subrange(0, i + 1)) == dec_value(s.subrange(0, i)) * 10 + digit_val(
            s[i],
        ));
        assert(dec_value(s.subrange(0, i)) <= dec_value(s.subrange(0, i)) * 10) by (nonlinear_arith);
        lemma_dec_value_prefix_le(s, i + 1);
    }
}

/// Parse an unsigned decimal `u64`, exactly as far as the input denotes one.
pub fn parse_u64(s: &Vec<u8>) -> (r: Option<u64>)
    ensures
        r is Some <==> is_dec_u64(s@),
        r matches Some(v) ==> v == dec_value(digits_of(s@)),
{
    let n = s.len();
    let start: usize = if n > 0 && s[0] == 43u8 {
        1
    } else {
        0
    };
    let ghost d = s@.subrange(start as int, n as int);
    proof {
        assert(d =~= digits_of(s@));
    }
    if start >= n {
        return None;
    }
    let mut acc: u64 = 0;
    let mut i: usize = start;
    while i < n
        invariant
            start <= i <= n,
            n == s@.len(),
            start < n,
            d == s@.subrange(start as int, n as int),
            d == digits_of(s@),
            all_digits(d.subrange(0, i - start)),
            acc == dec_value(d.subrange(0, i - start)),
        decreases n - i,
    {
        let b = s[i];
        proof {
            assert(d[i - start] == s@[i as int]);
        }
        if !(48 <= b && b <= 57) {
            proof {
                assert(!is_ascii_digit(d[i - start]));
            }
            return None;
        }
        let digit = (b - 48) as u64;
        if acc > (u64::MAX - digit) / 10 {
            proof {
                let j = i - start;
                assert(d.subrange(0, j + 1).drop_last() =~= d.subrange(0, j));
                assert(d.subrange(0, j + 1).last() == d[j]);
                assert(dec_value(d.subrange(0, j + 1)) == acc * 10 + digit_val(d[j]));
                assert(acc * 10 + digit > u64::MAX) by (nonlinear_arith)
                    requires
                        acc > (u64::MAX - digit) / 10,
                        digit < 10,
                ;
                if all_digits(d) {
                    lemma_dec_value_prefix_le(d, j + 1);
                }
            }
            return None;
        }
        proof {
            let j = i - start;
            assert(d.subrange(0, j + 1).drop_last() =~= d.subrange(0, j));
            assert(d.subrange(0, j + 1).last() == d[j]);
            assert(acc * 10 + digit <= u64::MAX) by (nonlinear_arith)
                requires
                    acc <= (u64::MAX - digit) / 10,
                    digit < 10,
            ;
        }
        acc = acc * 10 + digit;
        i = i + 1;
    }
    proof {
        assert(d.subrange(0, n - start) =~= d);
    }
    Some(acc)
}

/// Parse an unsigned decimal `u32`, exactly as far as the input denotes one.
pub fn parse_u32(s: &Vec<u8>) -> (r: Option<u32>)
    ensures
        r is Some <==> is_dec_u32(s@),
        r matches Some(v) ==> v == dec_value(digits_of(s@)),
{
    match parse_u64(s) {
        Some(v) => {
            if v <= 0xFFFF_FFFFu64 {
                Some(v as u32)
            } else {
                None
            }
        },
        None => None,
    }
}

/// Parse an unsigned decimal `u8`, exactly as far as the input denotes one.
pub fn parse_u8(s: &Vec<u8>) -> (r: Option<u8>)
    ensures
        r is Some <==> is_dec_u8(s@),
        r matches Some(v) ==> v == dec_value(digits_of(s@)),
{
    match parse_u64(s) {
        Some(v) => {
            if v <= 255u64 {
                Some(v as u8)
            } else {
                None
            }
        },
        None => None,
    }
}

} // verus!
