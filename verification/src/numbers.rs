//! Numbers as they are written in a report: naturals and decimal reals.
//!
//! A real is kept exactly as written, as a sign, an integer mantissa and a
//! power of ten. Nothing is rounded while a report is read.

use vstd::prelude::*;
use crate::text::is_digit;
use crate::text::digit;

verus! {

/// A decimal number: `(-1)^negative * mantissa * 10^exponent`.
#[derive(Clone, Copy, Debug, PartialEq, Eq, Structural)]
pub struct Decimal {
    /// Whether the number was written with a minus sign.
    pub negative: bool,
    /// All digits of the integer and fractional parts, read as one natural.
    pub mantissa: u64,
    /// The written exponent less the count of fractional digits.
    pub exponent: i64,
}

/// A number of a report: a real, an integer or a natural.
#[derive(Clone, Copy, Debug, PartialEq, Eq, Structural)]
pub enum F06Number {
    /// A real number.
    Real(Decimal),
    /// An integer.
    Integer(isize),
    /// A natural number.
    Natural(usize),
}

/// Whether every byte of `s` is a decimal digit.
pub open spec fn all_digits(s: Seq<u8>) -> bool {
    forall|i: int| 0 <= i < s.len() ==> is_digit(#[trigger] s[i])
}

/// The natural that a string of decimal digits denotes.
pub open spec fn digits_value(s: Seq<u8>) -> nat
    decreases s.len(),
{
    if s.len() == 0 {
        0
    } else {
        (digits_value(s.drop_last()) * 10 + (s.last() - 48)) as nat
    }
}

/// End of the run of digits that starts at `i`.
pub open spec fn digits_end(s: Seq<u8>, i: int) -> int
    decreases s.len() - i,
{
    if i < 0 || i >= s.len() || !is_digit(s[i]) {
        i
    } else {
        digits_end(s, i + 1)
    }
}

/// Whether a byte is a plus or a minus sign.
pub open spec fn is_sign(b: u8) -> bool {
    b == 43 || b == 45
}

/// Whether a byte introduces an exponent (`E`, `e`, `D` or `d`).
pub open spec fn is_exp_mark(b: u8) -> bool {
    b == 69 || b == 101 || b == 68 || b == 100
}

/// The natural that a field denotes: a non-empty string of digits whose
/// value fits the machine word. Any other field denotes none.
pub open spec fn natural_of(w: Seq<u8>) -> Option<usize> {
    if w.len() > 0 && all_digits(w) && digits_value(w) <= usize::MAX {
        Some(digits_value(w) as usize)
    } else {
        None
    }
}

/// The real that a field denotes.
///
/// The field is an optional sign, digits, an optional point followed by
/// digits, and an optional exponent: a mark, an optional sign, and at least
/// one digit. It holds a digit before the exponent, and a point or an
/// exponent (a bare string of digits is a natural, not a real). The
/// mantissa must fit 64 bits, the written exponent and the count of
/// fractional digits 32 bits.
pub open spec fn decimal_of(w: Seq<u8>) -> Option<Decimal> {
    let a: int = if w.len() > 0 && is_sign(w[0]) { 1 } else { 0 };
    let b = digits_end(w, a);
    let dot = b < w.len() && w[b] == 46;
    let c = if dot { b + 1 } else { b };
    let d = if dot { digits_end(w, c) } else { c };
    let mark = d < w.len() && is_exp_mark(w[d]);
    let e0 = if mark { d + 1 } else { d };
    let esign = mark && e0 < w.len() && is_sign(w[e0]);
    let e1 = if esign { e0 + 1 } else { e0 };
    let e2 = if mark { digits_end(w, e1) } else { e1 };
    let mant = w.subrange(a, b) + w.subrange(c, d);
    let written = digits_value(w.subrange(e1, e2));
    if e2 == w.len() && mant.len() > 0 && (dot || mark) && (mark ==> e2 > e1) && digits_value(mant)
        <= u64::MAX && written <= u32::MAX && d - c <= u32::MAX {
        Some(
            Decimal {
                negative: a == 1 && w[0] == 45,
                mantissa: digits_value(mant) as u64,
                exponent: ((if esign && w[e0] == 45 {
                    -written
                } else {
                    written as int
                }) - (d - c)) as i64,
            },
        )
    } else {
        None
    }
}

/// The digits between `i` and the end of their run are digits, and the run
/// ends inside the string on a byte that is none.
pub proof fn lemma_digits_end(s: Seq<u8>, i: int)
    requires
        0 <= i <= s.len(),
    ensures
        i <= digits_end(s, i) <= s.len(),
        all_digits(s.subrange(i, digits_end(s, i))),
        digits_end(s, i) < s.len() ==> !is_digit(s[digits_end(s, i)]),
    decreases s.len() - i,
{
    if i < s.len() && is_digit(s[i]) {
        lemma_digits_end(s, i + 1);
        let e = digits_end(s, i);
        assert forall|k: int| 0 <= k < e - i implies is_digit(#[trigger] s.subrange(i, e)[k]) by {
            if k > 0 {
                assert(s.subrange(i, e)[k] == s.subrange(i + 1, e)[k - 1]);
            }
        }
    }
}

/// Appending a digit multiplies the value by ten and adds the digit.
pub proof fn lemma_digits_push(s: Seq<u8>, b: u8)
    requires
        is_digit(b),
    ensures
        digits_value(s.push(b)) == digits_value(s) * 10 + (b - 48),
{
    assert(s.push(b).drop_last() =~= s);
}

/// Reads the run of digits of `w` that starts at `from`, continuing a
/// number whose earlier digits are `pre`. The accumulator is `None` once the
/// number no longer fits 64 bits.
fn scan_digits(w: &[u8], from: usize, acc: Option<u64>, Ghost(pre): Ghost<Seq<u8>>) -> (r: (
    usize,
    Option<u64>,
))
    requires
        from <= w@.len(),
        match acc {
            Some(v) => v == digits_value(pre),
            None => digits_value(pre) > u64::MAX,
        },
    ensures
        r.0 as int == digits_end(w@, from as int),
        from <= r.0 <= w@.len(),
        match r.1 {
            Some(v) => v == digits_value(pre + w@.subrange(from as int, r.0 as int)),
            None => digits_value(pre + w@.subrange(from as int, r.0 as int)) > u64::MAX,
        },
{
    let mut i: usize = from;
    let mut acc: Option<u64> = acc;
    proof {
        assert(pre + w@.subrange(from as int, from as int) =~= pre);
    }
    while i < w.len() && digit(w[i])
        invariant
            from <= i <= w@.len(),
            digits_end(w@, from as int) == digits_end(w@, i as int),
            match acc {
                Some(v) => v == digits_value(pre + w@.subrange(from as int, i as int)),
                None => digits_value(pre + w@.subrange(from as int, i as int)) > u64::MAX,
            },
        decreases w@.len() - i,
    {
        let b: u8 = w[i];
        proof {
            let sofar = pre + w@.subrange(from as int, i as int);
            assert(pre + w@.subrange(from as int, i + 1) =~= sofar.push(b));
            lemma_digits_push(sofar, b);
        }
        acc =
        match acc {
            Some(v) => {
                if v > (u64::MAX - (b - 48) as u64) / 10 {
                    None
                } else {
                    Some(v * 10 + (b - 48) as u64)
                }
            },
            None => None,
        };
        i += 1;
    }
    (i, acc)
}

/// Reads a field as a natural.
pub fn parse_natural(w: &[u8]) -> (r: Option<usize>)
    ensures
        r == natural_of(w@),
{
    if w.len() == 0 {
        return None;
    }
    let (end, acc) = scan_digits(w, 0, Some(0), Ghost(Seq::empty()));
    proof {
        lemma_digits_end(w@, 0);
        assert(Seq::<u8>::empty() + w@.subrange(0, end as int) =~= w@.subrange(0, end as int));
        if end == w@.len() {
            assert(w@.subrange(0, end as int) =~= w@);
        } else {
            assert(!is_digit(w@[end as int]));
        }
    }
    if end != w.len() {
        return None;
    }
    match acc {
        Some(v) => {
            if v <= usize::MAX as u64 {
                Some(v as usize)
            } else {
                None
            }
        },
        None => None,
    }
}

/// Executable form of [`is_sign`].
pub fn sign(b: u8) -> (r: bool)
    ensures
        r == is_sign(b),
{
    b == 43 || b == 45
}

/// Executable form of [`is_exp_mark`].
pub fn exp_mark(b: u8) -> (r: bool)
    ensures
        r == is_exp_mark(b),
{
    b == 69 || b == 101 || b == 68 || b == 100
}

/// Reads a field as a real.
pub fn parse_decimal(w: &[u8]) -> (r: Option<Decimal>)
    ensures
        r == decimal_of(w@),
{
    let n: usize = w.len();
    let a: usize = if n > 0 && sign(w[0]) { 1 } else { 0 };
    let negative: bool = a == 1 && w[0] == 45;
    let (b, acc_int) = scan_digits(w, a, Some(0), Ghost(Seq::empty()));
    let dot: bool = b < n && w[b] == 46;
    let c: usize = if dot { b + 1 } else { b };
    let ghost int_digits = w@.subrange(a as int, b as int);
    proof {
        assert(Seq::<u8>::empty() + int_digits =~= int_digits);
    }
    let (d, acc) = if dot {
        scan_digits(w, c, acc_int, Ghost(int_digits))
    } else {
        proof {
            assert(int_digits + w@.subrange(c as int, c as int) =~= int_digits);
        }
        (c, acc_int)
    };
    let mark: bool = d < n && exp_mark(w[d]);
    let e0: usize = if mark { d + 1 } else { d };
    let esign: bool = mark && e0 < n && sign(w[e0]);
    let e1: usize = if esign { e0 + 1 } else { e0 };
    let (e2, written) = if mark {
        let r = scan_digits(w, e1, Some(0), Ghost(Seq::empty()));
        proof {
            assert(Seq::<u8>::empty() + w@.subrange(e1 as int, r.0 as int) =~= w@.subrange(
                e1 as int,
                r.0 as int,
            ));
        }
        r
    } else {
        proof {
            assert(w@.subrange(e1 as int, e1 as int) =~= Seq::<u8>::empty());
        }
        (e1, Some(0u64))
    };
    if e2 != n || (b - a) + (d - c) == 0 || !(dot || mark) || (mark && e2 == e1) {
        return None;
    }
    if d - c > 0xffff_ffff {
        return None;
    }
    let frac: i64 = (d - c) as i64;
    match (acc, written) {
        (Some(m), Some(x)) => {
            if x > 0xffff_ffff {
                return None;
            }
            let xi: i64 = x as i64;
            let exponent: i64 = if esign && w[e0] == 45 {
                -xi - frac
            } else {
                xi - frac
            };
            Some(Decimal { negative, mantissa: m, exponent })
        },
        _ => None,
    }
}

} // verus!
