//! The fields of a report line and what each of them denotes.

use vstd::prelude::*;
use vstd::slice::slice_subrange;
use vstd::string::StringSliceAdditionalSpecFns;
use crate::elements::ElementType;
use crate::elements::etype_of;
use crate::elements::parse_etype;
use crate::numbers::Decimal;
use crate::numbers::decimal_of;
use crate::numbers::natural_of;
use crate::numbers::parse_decimal;
use crate::numbers::parse_natural;
use crate::text::same_bytes;
use crate::text::spans;
use crate::text::split_fields;

verus! {

/// What a field of a line denotes.
#[derive(Clone, Copy, Debug, PartialEq, Eq, Structural)]
pub enum LineField {
    /// A natural number.
    Natural(usize),
    /// A real number.
    Real(Decimal),
    /// The name of an element type.
    ElementType(ElementType),
    /// Anything else: the bytes of the line from `start` up to `end`.
    NoIdea {
        /// Offset of the first byte of the field.
        start: usize,
        /// Offset after the last byte of the field.
        end: usize,
    },
}

/// What the field of `line` between the offsets `sp` denotes. A field is
/// tried as a natural, then as a real, then as an element type.
pub open spec fn field_of(line: Seq<u8>, sp: (int, int)) -> LineField {
    let w = line.subrange(sp.0, sp.1);
    match natural_of(w) {
        Some(n) => LineField::Natural(n),
        None => match decimal_of(w) {
            Some(x) => LineField::Real(x),
            None => match etype_of(w) {
                Some(t) => LineField::ElementType(t),
                None => LineField::NoIdea { start: sp.0 as usize, end: sp.1 as usize },
            },
        },
    }
}

/// The fields of a line, from left to right.
pub open spec fn fields(line: Seq<u8>) -> Seq<LineField> {
    Seq::new(spans(line).len(), |k: int| field_of(line, spans(line)[k]))
}

/// What a field says as text: the bytes of a field that denotes nothing.
pub open spec fn field_text(line: Seq<u8>, f: LineField) -> Option<Seq<u8>> {
    match f {
        LineField::NoIdea { start, end } => if start <= end <= line.len() {
            Some(line.subrange(start as int, end as int))
        } else {
            None
        },
        _ => None,
    }
}

/// Tells whether a field denotes nothing and reads as `word`.
pub fn field_is(line: &[u8], f: &LineField, word: &[u8]) -> (r: bool)
    ensures
        r == (field_text(line@, *f) == Some(word@)),
{
    match f {
        LineField::NoIdea { start, end } => {
            if *start <= *end && *end <= line.len() {
                same_bytes(slice_subrange(line, *start, *end), word)
            } else {
                false
            }
        },
        _ => false,
    }
}

/// The naturals among `fs`, in order.
pub open spec fn naturals_of(fs: Seq<LineField>) -> Seq<usize>
    decreases fs.len(),
{
    if fs.len() == 0 {
        Seq::empty()
    } else {
        match fs.last() {
            LineField::Natural(n) => naturals_of(fs.drop_last()).push(n),
            _ => naturals_of(fs.drop_last()),
        }
    }
}

/// The reals among `fs`, in order.
pub open spec fn reals_of(fs: Seq<LineField>) -> Seq<Decimal>
    decreases fs.len(),
{
    if fs.len() == 0 {
        Seq::empty()
    } else {
        match fs.last() {
            LineField::Real(x) => reals_of(fs.drop_last()).push(x),
            _ => reals_of(fs.drop_last()),
        }
    }
}

/// The element types among `fs`, in order.
pub open spec fn etypes_of(fs: Seq<LineField>) -> Seq<ElementType>
    decreases fs.len(),
{
    if fs.len() == 0 {
        Seq::empty()
    } else {
        match fs.last() {
            LineField::ElementType(t) => etypes_of(fs.drop_last()).push(t),
            _ => etypes_of(fs.drop_last()),
        }
    }
}

/// The element of `s` at position `n`, where it has one.
pub open spec fn nth<T>(s: Seq<T>, n: int) -> Option<T> {
    if 0 <= n < s.len() {
        Some(s[n])
    } else {
        None
    }
}

/// The reals of a line, where the line holds exactly `n` of them.
pub open spec fn exact_reals(fs: Seq<LineField>, n: int) -> Option<Seq<Decimal>> {
    if reals_of(fs).len() == n {
        Some(reals_of(fs))
    } else {
        None
    }
}

/// Splits a line into fields and reads each of them.
pub fn breakdown(line: &[u8]) -> (out: Vec<LineField>)
    ensures
        out@ == fields(line@),
{
    let sp = split_fields(line);
    let mut out: Vec<LineField> = Vec::new();
    let mut k: usize = 0;
    while k < sp.len()
        invariant
            k <= sp@.len(),
            sp@.len() == spans(line@).len(),
            forall|j: int|
                0 <= j < sp@.len() ==> (#[trigger] sp@[j]).0 as int == spans(line@)[j].0
                    && sp@[j].1 as int == spans(line@)[j].1,
            forall|j: int| 0 <= j < sp@.len() ==> (#[trigger] sp@[j]).0 < sp@[j].1 <= line@.len(),
            out@.len() == k,
            forall|j: int| 0 <= j < k ==> out@[j] == field_of(line@, spans(line@)[j]),
        decreases sp@.len() - k,
    {
        let (start, end) = sp[k];
        let w = slice_subrange(line, start, end);
        let f = match parse_natural(w) {
            Some(n) => LineField::Natural(n),
            None => match parse_decimal(w) {
                Some(x) => LineField::Real(x),
                None => match parse_etype(w) {
                    Some(t) => LineField::ElementType(t),
                    None => LineField::NoIdea { start, end },
                },
            },
        };
        out.push(f);
        k += 1;
    }
    proof {
        assert(out@ =~= fields(line@));
    }
    out
}

/// Picks the naturals among the fields.
pub fn naturals(fs: &Vec<LineField>) -> (out: Vec<usize>)
    ensures
        out@ == naturals_of(fs@),
{
    let mut out: Vec<usize> = Vec::new();
    let mut k: usize = 0;
    while k < fs.len()
        invariant
            k <= fs@.len(),
            out@ == naturals_of(fs@.take(k as int)),
        decreases fs@.len() - k,
    {
        proof {
            assert(fs@.take(k + 1).drop_last() =~= fs@.take(k as int));
        }
        if let LineField::Natural(n) = fs[k] {
            out.push(n);
        }
        k += 1;
    }
    proof {
        assert(fs@.take(k as int) =~= fs@);
    }
    out
}

/// Picks the reals among the fields.
pub fn reals(fs: &Vec<LineField>) -> (out: Vec<Decimal>)
    ensures
        out@ == reals_of(fs@),
{
    let mut out: Vec<Decimal> = Vec::new();
    let mut k: usize = 0;
    while k < fs.len()
        invariant
            k <= fs@.len(),
            out@ == reals_of(fs@.take(k as int)),
        decreases fs@.len() - k,
    {
        proof {
            assert(fs@.take(k + 1).drop_last() =~= fs@.take(k as int));
        }
        if let LineField::Real(x) = fs[k] {
            out.push(x);
        }
        k += 1;
    }
    proof {
        assert(fs@.take(k as int) =~= fs@);
    }
    out
}

/// Picks the element types among the fields.
pub fn etypes(fs: &Vec<LineField>) -> (out: Vec<ElementType>)
    ensures
        out@ == etypes_of(fs@),
{
    let mut out: Vec<ElementType> = Vec::new();
    let mut k: usize = 0;
    while k < fs.len()
        invariant
            k <= fs@.len(),
            out@ == etypes_of(fs@.take(k as int)),
        decreases fs@.len() - k,
    {
        proof {
            assert(fs@.take(k + 1).drop_last() =~= fs@.take(k as int));
        }
        if let LineField::ElementType(t) = fs[k] {
            out.push(t);
        }
        k += 1;
    }
    proof {
        assert(fs@.take(k as int) =~= fs@);
    }
    out
}

/// The fields of a line, from left to right.
pub fn line_breakdown(line: &str) -> (out: Vec<LineField>)
    ensures
        out@ == fields(line.spec_bytes()),
{
    breakdown(line.as_bytes())
}

/// The natural at position `n` among the naturals of the fields.
pub fn nth_natural_of(fs: &Vec<LineField>, n: usize) -> (r: Option<usize>)
    ensures
        r == nth(naturals_of(fs@), n as int),
{
    let ns = naturals(fs);
    if n < ns.len() {
        Some(ns[n])
    } else {
        None
    }
}

/// The element type at position `n` among the element types of the fields.
pub fn nth_etype_of(fs: &Vec<LineField>, n: usize) -> (r: Option<ElementType>)
    ensures
        r == nth(etypes_of(fs@), n as int),
{
    let ts = etypes(fs);
    if n < ts.len() {
        Some(ts[n])
    } else {
        None
    }
}

/// The reals of the fields, where there are exactly `n` of them.
pub fn exact_reals_of(fs: &Vec<LineField>, n: usize) -> (r: Option<Vec<Decimal>>)
    ensures
        match r {
            Some(v) => exact_reals(fs@, n as int) == Some(v@),
            None => exact_reals(fs@, n as int).is_none(),
        },
{
    let rs = reals(fs);
    if rs.len() == n {
        Some(rs)
    } else {
        None
    }
}

/// The natural at position `n` among the naturals of a line.
pub fn nth_integer(line: &str, n: usize) -> (r: Option<usize>)
    ensures
        r == nth(naturals_of(fields(line.spec_bytes())), n as int),
{
    let fs = line_breakdown(line);
    nth_natural_of(&fs, n)
}

/// The element type at position `n` among the element types of a line.
pub fn nth_etype(line: &str, n: usize) -> (r: Option<ElementType>)
    ensures
        r == nth(etypes_of(fields(line.spec_bytes())), n as int),
{
    let fs = line_breakdown(line);
    nth_etype_of(&fs, n)
}

/// The reals of a line, where it holds exactly `n` of them.
pub fn extract_reals(line: &str, n: usize) -> (r: Option<Vec<Decimal>>)
    ensures
        match r {
            Some(v) => exact_reals(fields(line.spec_bytes()), n as int) == Some(v@),
            None => exact_reals(fields(line.spec_bytes()), n as int).is_none(),
        },
{
    let fs = line_breakdown(line);
    exact_reals_of(&fs, n)
}

} // verus!
