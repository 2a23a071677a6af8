//! Interpretation of a raw sensor reading.
//!
//! The temperature source is a file whose contents, trimmed of
//! surrounding ASCII whitespace, are an unsigned decimal number of
//! millidegrees Celsius. The controller works in whole degrees, so the
//! value is divided by 1000, truncating.

use vstd::prelude::*;
use crate::parse::{dec_value, digits_of, is_dec_u32, parse_u32};

verus! {

/// `b` is an ASCII whitespace byte (the ASCII subset of what
/// `char::is_whitespace` accepts: tab, line feed, vertical tab, form
/// feed, carriage return, space).
pub open spec fn is_ascii_ws(b: u8) -> bool {
    b == 32 || b == 9 || b == 10 || b == 11 || b == 12 || b == 13
}

/// `s` with leading ASCII whitespace removed.
pub open spec fn ltrimmed(s: Seq<u8>) -> Seq<u8>
    decreases s.len(),
{
    if s.len() > 0 && is_ascii_ws(s[0]) {
        ltrimmed(s.subrange(1, s.len() as int))
    } else {
        s
    }
}

/// `s` with trailing ASCII whitespace removed.
pub open spec fn rtrimmed(s: Seq<u8>) -> Seq<u8>
    decreases s.len(),
{
    if s.len() > 0 && is_ascii_ws(s.last()) {
        rtrimmed(s.drop_last())
    } else {
        s
    }
}

/// `s` with surrounding ASCII whitespace removed.
pub open spec fn trimmed(s: Seq<u8>) -> Seq<u8> {
    rtrimmed(ltrimmed(s))
}

/// The raw bytes are a well-formed sensor reading: after trimming, an
/// unsigned decimal number of millidegrees that fits in `u32`.
pub open spec fn sensor_reading_valid(raw: Seq<u8>) -> bool {
    is_dec_u32(trimmed(raw))
}

/// The whole-degree value of a well-formed raw reading.
pub open spec fn sensor_degrees(raw: Seq<u8>) -> nat {
    dec_value(digits_of(trimmed(raw))) / 1000
}

proof fn lemma_ltrimmed_at(s: Seq<u8>, lo: int)
    requires
        0 <= lo <= s.len(),
        forall|k: int| 0 <= k < lo ==> is_ascii_ws(s[k]),
        lo < s.len() ==> !is_ascii_ws(s[lo]),
    ensures
        ltrimmed(s) == s.subrange(lo, s.len() as int),
    decreases lo,
{
    if lo == 0 {
        assert(s.subrange(0, s.len() as int) =~= s);
    } else {
        let t = s.subrange(1, s.len() as int);
        lemma_ltrimmed_at(t, lo - 1);
        assert(t.subrange(lo - 1, t.len() as int) =~= s.subrange(lo, s.len() as int));
    }
}

proof fn lemma_rtrimmed_at(s: Seq<u8>, hi: int)
    requires
        0 <= hi <= s.len(),
        forall|k: int| hi <= k < s.len() ==> is_ascii_ws(s[k]),
        hi > 0 ==> !is_ascii_ws(s[hi - 1]),
    ensures
        rtrimmed(s) == s.subrange(0, hi),
    decreases s.len() - hi,
{
    if hi == s.len() {
        assert(s.subrange(0, hi) =~= s);
    } else {
        let t = s.drop_last();
        assert(t =~= s.subrange(0, s.len() - 1));
        lemma_rtrimmed_at(t, hi);
        assert(t.subrange(0, hi) =~= s.subrange(0, hi));
    }
}

/// Executable test for `is_ascii_ws`.
fn is_ws_byte(b: u8) -> (r: bool)
    ensures
        r == is_ascii_ws(b),
{
    b == 32 || b == 9 || b == 10 || b == 11 || b == 12 || b == 13
}

/// Copy of `s` with surrounding ASCII whitespace removed.
fn trim_ascii(s: &Vec<u8>) -> (r: Vec<u8>)
    ensures
        r@ == trimmed(s@),
{
    let n = s.len();
    let mut lo: usize = 0;
    while lo < n && is_ws_byte(s[lo])
        invariant
            0 <= lo <= n,
            n == s@.len(),
            forall|k: int| 0 <= k < lo ==> is_ascii_ws(s@[k]),
        decreases n - lo,
    {
        lo = lo + 1;
    }
    let mut hi: usize = n;
    while hi > lo && is_ws_byte(s[hi - 1])
        invariant
            lo <= hi <= n,
            n == s@.len(),
            forall|k: int| hi <= k < n ==> is_ascii_ws(s@[k]),
        decreases hi,
    {
        hi = hi - 1;
    }
    proof {
        lemma_ltrimmed_at(s@, lo as int);
        if hi == lo {
            lemma_rtrimmed_at(s@.subrange(lo as int, n as int), 0);
        } else {
            lemma_rtrimmed_at(s@.subrange(lo as int, n as int), hi - lo);
        }
    }
    let mut r: Vec<u8> = Vec::new();
    let mut j: usize = lo;
    while j < hi
        invariant
            lo <= j <= hi <= n,
            n == s@.len(),
            r@ == s@.subrange(lo as int, j as int),
        decreases hi - j,
    {
        let b = s[j];
        r.push(b);
        proof {
            assert(r@ =~= s@.subrange(lo as int, j + 1));
        }
        j = j + 1;
    }
    proof {
        assert(s@.subrange(lo as int, hi as int) =~= s@.subrange(lo as int, n as int).subrange(
            0,
            hi - lo,
        ));
    }
    r
}

/// Turn the raw bytes of the temperature source into whole degrees
/// Celsius: trim surrounding whitespace, read an unsigned decimal
/// number of millidegrees, divide by 1000 truncating. `None` exactly
/// when the trimmed contents are not such a number.
pub fn read_degrees(raw: &Vec<u8>) -> (r: Option<u32>)
    ensures
        r is Some <==> sensor_reading_valid(raw@),
        r matches Some(t) ==> t == sensor_degrees(raw@),
{
    let t = trim_ascii(raw);
    match parse_u32(&t) {
        Some(milli) => Some(milli / 1000),
        None => None,
    }
}

} // verus!
