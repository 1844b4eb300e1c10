//! Byte-level text primitives shared by the line decoders.
//!
//! Report lines are treated as plain byte strings. Everything here is stated
//! over `Seq<u8>`, the byte view of a line: the search for a text in a line,
//! the fields of a line, and the plain form of a line, in which headers are
//! looked for whether they are written plainly or with their letters spaced
//! out.

use vstd::prelude::*;

verus! {

/// Whether a byte separates fields on a report line.
pub open spec fn is_blank(b: u8) -> bool {
    b == 32 || b == 9 || b == 10 || b == 13
}

/// Whether a byte is an ASCII decimal digit.
pub open spec fn is_digit(b: u8) -> bool {
    48 <= b && b <= 57
}

/// Whether `pat` stands in `s` at offset `i`.
pub open spec fn occurs_at(s: Seq<u8>, pat: Seq<u8>, i: int) -> bool {
    0 <= i && i + pat.len() <= s.len() && s.subrange(i, i + pat.len()) == pat
}

/// Whether `pat` is a contiguous part of `s`.
pub open spec fn contains(s: Seq<u8>, pat: Seq<u8>) -> bool {
    exists|i: int| occurs_at(s, pat, i)
}

/// Whether `i` is the offset of the leftmost occurrence of `pat` in `s`.
pub open spec fn is_first_occurrence(s: Seq<u8>, pat: Seq<u8>, i: int) -> bool {
    occurs_at(s, pat, i) && forall|j: int| 0 <= j < i ==> !occurs_at(s, pat, j)
}

/// Executable form of [`is_blank`].
pub fn blank(b: u8) -> (r: bool)
    ensures
        r == is_blank(b),
{
    b == 32 || b == 9 || b == 10 || b == 13
}

/// Executable form of [`is_digit`].
pub fn digit(b: u8) -> (r: bool)
    ensures
        r == is_digit(b),
{
    48 <= b && b <= 57
}

/// Compares `pat` with the part of `line` that starts at `at`.
pub fn matches_at(line: &[u8], pat: &[u8], at: usize) -> (r: bool)
    ensures
        r == occurs_at(line@, pat@, at as int),
{
    if pat.len() > line.len() || at > line.len() - pat.len() {
        return false;
    }
    let mut k: usize = 0;
    while k < pat.len()
        invariant
            k <= pat.len(),
            at + pat.len() <= line.len(),
            forall|j: int| 0 <= j < k ==> line@[at + j] == pat@[j],
        decreases pat.len() - k,
    {
        if line[at + k] != pat[k] {
            proof {
                let sub = line@.subrange(at as int, at + pat.len());
                assert(sub[k as int] == line@[at + k]);
            }
            return false;
        }
        k += 1;
    }
    proof {
        assert(line@.subrange(at as int, at + pat.len()) =~= pat@);
    }
    true
}

/// Tells whether two byte strings are equal.
pub fn same_bytes(a: &[u8], b: &[u8]) -> (r: bool)
    ensures
        r == (a@ == b@),
{
    if a.len() != b.len() {
        return false;
    }
    let r = matches_at(a, b, 0);
    proof {
        assert(a@.subrange(0, b@.len() as int) =~= a@);
    }
    r
}

/// Finds the leftmost occurrence of `pat` in `line`.
pub fn find(line: &[u8], pat: &[u8]) -> (r: Option<usize>)
    ensures
        match r {
            Some(i) => is_first_occurrence(line@, pat@, i as int),
            None => !contains(line@, pat@),
        },
{
    if pat.len() > line.len() {
        return None;
    }
    let last: usize = line.len() - pat.len();
    let mut i: usize = 0;
    loop
        invariant
            i <= last,
            last == line.len() - pat.len(),
            forall|j: int| 0 <= j < i ==> !occurs_at(line@, pat@, j),
        decreases last - i,
    {
        if matches_at(line, pat, i) {
            return Some(i);
        }
        if i == last {
            return None;
        }
        i += 1;
    }
}

/// Tells whether `pat` is a contiguous part of `line`.
pub fn has(line: &[u8], pat: &[u8]) -> (r: bool)
    ensures
        r == contains(line@, pat@),
{
    find(line, pat).is_some()
}

/// End of the run of non-blank bytes that starts at `i`.
pub open spec fn run_end(s: Seq<u8>, i: int) -> int
    decreases s.len() - i,
{
    if i < 0 || i >= s.len() || is_blank(s[i]) {
        i
    } else {
        run_end(s, i + 1)
    }
}

/// The fields of `s` from offset `i` on: its maximal runs of non-blank
/// bytes, each as the pair of its first offset and the offset after its last.
pub open spec fn spans_from(s: Seq<u8>, i: int) -> Seq<(int, int)>
    decreases s.len() - i,
{
    if i < 0 || i >= s.len() {
        Seq::empty()
    } else if is_blank(s[i]) {
        spans_from(s, i + 1)
    } else {
        let e = run_end(s, i);
        if i < e <= s.len() {
            seq![(i, e)] + spans_from(s, e)
        } else {
            Seq::empty()
        }
    }
}

/// The fields of a whole line, as offsets.
pub open spec fn spans(s: Seq<u8>) -> Seq<(int, int)> {
    spans_from(s, 0)
}

/// The fields of a whole line, as byte strings.
pub open spec fn words(s: Seq<u8>) -> Seq<Seq<u8>> {
    Seq::new(spans(s).len(), |k: int| s.subrange(spans(s)[k].0, spans(s)[k].1))
}

/// A run that starts on a non-blank byte is non-empty, stays inside the
/// line, holds no blank, and is followed by a blank or by the line's end.
pub proof fn lemma_run_end(s: Seq<u8>, i: int)
    requires
        0 <= i < s.len(),
        !is_blank(s[i]),
    ensures
        i < run_end(s, i) <= s.len(),
        forall|j: int| i <= j < run_end(s, i) ==> !is_blank(#[trigger] s[j]),
        run_end(s, i) < s.len() ==> is_blank(s[run_end(s, i)]),
    decreases s.len() - i,
{
    if i + 1 < s.len() && !is_blank(s[i + 1]) {
        lemma_run_end(s, i + 1);
    } else {
        assert(run_end(s, i + 1) == i + 1);
    }
}

/// Every field lies inside the line, is non-empty and holds no blank, and
/// the fields follow one another from left to right without touching.
pub proof fn lemma_spans_shape(s: Seq<u8>, i: int)
    requires
        0 <= i,
    ensures
        forall|k: int|
            0 <= k < spans_from(s, i).len() ==> {
                let sp = #[trigger] spans_from(s, i)[k];
                &&& i <= sp.0 < sp.1 <= s.len()
                &&& sp.1 == run_end(s, sp.0)
                &&& !is_blank(s[sp.0])
            },
        forall|k: int|
            0 <= k < spans_from(s, i).len() - 1 ==> (#[trigger] spans_from(s, i)[k]).1
                < spans_from(s, i)[k + 1].0,
    decreases s.len() - i,
{
    if i >= s.len() {
    } else if is_blank(s[i]) {
        lemma_spans_shape(s, i + 1);
        assert(spans_from(s, i) == spans_from(s, i + 1));
    } else {
        lemma_run_end(s, i);
        let e = run_end(s, i);
        lemma_spans_shape(s, e);
        let rest = spans_from(s, e);
        let all = spans_from(s, i);
        assert(all =~= seq![(i, e)] + rest);
        assert forall|k: int| 0 <= k < all.len() implies {
            let sp = #[trigger] all[k];
            &&& i <= sp.0 < sp.1 <= s.len()
            &&& sp.1 == run_end(s, sp.0)
            &&& !is_blank(s[sp.0])
        } by {
            if k > 0 {
                assert(all[k] == rest[k - 1]);
            }
        }
        assert forall|k: int| 0 <= k < all.len() - 1 implies (#[trigger] all[k]).1 < all[k
            + 1].0 by {
            assert(all[k + 1] == rest[k]);
            if k > 0 {
                assert(all[k] == rest[k - 1]);
            } else {
                if e < s.len() {
                    assert(is_blank(s[e]));
                }
            }
        }
    }
}

/// Splits a line into its fields.
pub fn split_fields(line: &[u8]) -> (out: Vec<(usize, usize)>)
    ensures
        out@.len() == spans(line@).len(),
        forall|k: int|
            0 <= k < out@.len() ==> (#[trigger] out@[k]).0 as int == spans(line@)[k].0
                && out@[k].1 as int == spans(line@)[k].1,
        forall|k: int| 0 <= k < out@.len() ==> (#[trigger] out@[k]).0 < out@[k].1 <= line@.len(),
{
    let n: usize = line.len();
    let mut out: Vec<(usize, usize)> = Vec::new();
    let mut i: usize = 0;
    let ghost s = line@;
    let ghost mut done: Seq<(int, int)> = Seq::empty();
    while i < n
        invariant
            n == line.len(),
            s == line@,
            i <= n,
            done + spans_from(s, i as int) =~= spans(s),
            out@.len() == done.len(),
            forall|k: int|
                0 <= k < out@.len() ==> (#[trigger] out@[k]).0 as int == done[k].0
                    && out@[k].1 as int == done[k].1,
            forall|k: int| 0 <= k < out@.len() ==> (#[trigger] out@[k]).0 < out@[k].1 <= n,
        decreases n - i,
    {
        if blank(line[i]) {
            i += 1;
        } else {
            let start: usize = i;
            let mut j: usize = i + 1;
            proof {
                lemma_run_end(s, start as int);
            }
            while j < n && !blank(line[j])
                invariant
                    n == line.len(),
                    s == line@,
                    start < j <= n,
                    !is_blank(s[start as int]),
                    run_end(s, start as int) == run_end(s, j as int),
                decreases n - j,
            {
                j += 1;
            }
            proof {
                assert(run_end(s, j as int) == j);
                assert(spans_from(s, start as int) =~= seq![(start as int, j as int)]
                    + spans_from(s, j as int));
                done = done.push((start as int, j as int));
            }
            out.push((start, j));
            i = j;
        }
    }
    proof {
        assert(spans_from(s, n as int) =~= Seq::<(int, int)>::empty());
        assert(done =~= spans(s));
    }
    out
}

/// Offset of the leftmost occurrence of `pat` in `s`, where there is one.
pub open spec fn first_index(s: Seq<u8>, pat: Seq<u8>) -> int {
    choose|i: int| is_first_occurrence(s, pat, i)
}

/// A pattern has one leftmost occurrence at most.
pub proof fn lemma_first_occurrence_unique(s: Seq<u8>, pat: Seq<u8>, i: int, j: int)
    requires
        is_first_occurrence(s, pat, i),
        is_first_occurrence(s, pat, j),
    ensures
        i == j,
{
}

/// Whether the blank at offset `i` stands between two bytes that each
/// stand alone: the bytes beside it are no blanks, and the bytes beyond
/// those are blanks or the ends of the line. Such a blank spaces the letters
/// of a word out.
pub open spec fn is_letter_gap(l: Seq<u8>, i: int) -> bool {
    &&& 0 < i < l.len() - 1
    &&& is_blank(l[i])
    &&& !is_blank(l[i - 1])
    &&& !is_blank(l[i + 1])
    &&& (i < 2 || is_blank(l[i - 2]))
    &&& (i + 2 >= l.len() || is_blank(l[i + 2]))
}

/// The plain form of the first `n` bytes of a line, and whether a space is
/// owed before the next byte.
///
/// A byte that is no blank is taken, after a single space where blanks
/// stood before it and something was taken before them. A blank that
/// spaces letters out is dropped. Any other blank makes a space owed.
pub open spec fn closed_up(l: Seq<u8>, n: int) -> (Seq<u8>, bool)
    decreases n,
{
    if n <= 0 || n > l.len() {
        (Seq::empty(), false)
    } else {
        let before = closed_up(l, n - 1);
        let b = l[n - 1];
        if !is_blank(b) {
            if before.1 && before.0.len() > 0 {
                (before.0.push(32u8).push(b), false)
            } else {
                (before.0.push(b), false)
            }
        } else if is_letter_gap(l, n - 1) {
            before
        } else {
            (before.0, true)
        }
    }
}

/// The plain form of a line: its words, each letter-spaced word closed up,
/// with one space between two words and no blank at the ends.
pub open spec fn normalised(l: Seq<u8>) -> Seq<u8> {
    closed_up(l, l.len() as int).0
}

/// A text with a space put after each of its bytes but the last.
pub open spec fn spaced(x: Seq<u8>) -> Seq<u8> {
    if x.len() == 0 {
        x
    } else {
        Seq::new((2 * x.len() - 1) as nat, |i: int| if i % 2 == 0 { x[i / 2] } else { 32u8 })
    }
}

/// Whether a text is in plain form already: it starts and ends on a byte
/// that is no blank, each of its blanks is a single space, and none of its
/// blanks spaces letters out.
pub open spec fn is_plain(x: Seq<u8>) -> bool {
    &&& x.len() > 0
    &&& !is_blank(x[0])
    &&& !is_blank(x.last())
    &&& forall|i: int|
        0 <= i < x.len() - 1 && is_blank(#[trigger] x[i]) ==> x[i] == 32 && !is_blank(x[i + 1])
            && !is_letter_gap(x, i)
}

/// Tells whether the blank at offset `i` spaces letters out.
pub fn letter_gap(line: &[u8], i: usize) -> (r: bool)
    requires
        i < line@.len(),
    ensures
        r == is_letter_gap(line@, i as int),
{
    let n: usize = line.len();
    0 < i && i < n - 1 && blank(line[i]) && !blank(line[i - 1]) && !blank(line[i + 1]) && (i < 2
        || blank(line[i - 2])) && (i + 2 >= n || blank(line[i + 2]))
}

/// Returns the plain form of a line.
pub fn normalise(line: &[u8]) -> (r: Vec<u8>)
    ensures
        r@ == normalised(line@),
{
    let n: usize = line.len();
    let mut out: Vec<u8> = Vec::new();
    let mut owed: bool = false;
    let mut i: usize = 0;
    while i < n
        invariant
            i <= n,
            n == line@.len(),
            (out@, owed) == closed_up(line@, i as int),
        decreases n - i,
    {
        let b: u8 = line[i];
        if !blank(b) {
            if owed && out.len() > 0 {
                out.push(32);
            }
            out.push(b);
            owed = false;
        } else if !letter_gap(line, i) {
            owed = true;
        }
        i += 1;
    }
    out
}

/// What is known of the plain form of the first bytes of a text in plain
/// form: it is those bytes, without the last where that is a blank, for
/// which a space is owed.
pub proof fn lemma_closed_up_plain(x: Seq<u8>, n: int)
    requires
        is_plain(x),
        0 <= n <= x.len(),
    ensures
        n > 0 && is_blank(x[n - 1]) ==> closed_up(x, n) == (x.take(n - 1), true),
        n > 0 && !is_blank(x[n - 1]) ==> closed_up(x, n) == (x.take(n), false),
        n == 0 ==> closed_up(x, n) == (Seq::<u8>::empty(), false),
    decreases n,
{
    if n > 0 {
        lemma_closed_up_plain(x, n - 1);
        let b = x[n - 1];
        if n == 1 {
            assert(x.take(1) =~= Seq::<u8>::empty().push(b));
        } else if !is_blank(b) {
            if is_blank(x[n - 2]) {
                assert(x[n - 2] == 32);
                assert(x.take(n) =~= x.take(n - 2).push(32u8).push(b));
                assert(n - 2 > 0);
                assert(x.take(n - 2).len() > 0);
            } else {
                assert(x.take(n) =~= x.take(n - 1).push(b));
            }
        } else {
            assert(!is_blank(x[n - 2])) by {
                if is_blank(x[n - 2]) {
                    assert(!is_blank(x[n - 2 + 1]));
                }
            }
            assert(!is_letter_gap(x, n - 1));
        }
    }
}

/// Reading a letter-spaced text up to one of its letters gives what
/// reading the text itself up to that letter gives.
pub proof fn lemma_closed_up_spaced(x: Seq<u8>, k: int)
    requires
        is_plain(x),
        0 <= k < x.len(),
    ensures
        closed_up(spaced(x), 2 * k + 1) == closed_up(x, k + 1),
    decreases k,
{
    let sp = spaced(x);
    assert(sp.len() == 2 * x.len() - 1);
    if k == 0 {
        assert(sp[0] == x[0]);
        assert(closed_up(sp, 0) == closed_up(x, 0));
    } else {
        lemma_closed_up_spaced(x, k - 1);
        let gap = 2 * k - 1;
        assert(sp[gap] == 32u8);
        assert(sp[gap - 1] == x[k - 1]) by {
            assert((2 * k - 2) % 2 == 0);
            assert((2 * k - 2) / 2 == k - 1);
        }
        assert(sp[gap + 1] == x[k]) by {
            assert((2 * k) % 2 == 0);
            assert((2 * k) / 2 == k);
        }
        if gap >= 2 {
            assert(sp[gap - 2] == 32u8) by {
                assert((2 * k - 3) % 2 == 1);
            }
        }
        if gap + 2 < sp.len() {
            assert(sp[gap + 2] == 32u8) by {
                assert((2 * k + 1) % 2 == 1);
            }
        }
        lemma_closed_up_plain(x, k);
        lemma_closed_up_plain(x, k + 1);
        let at_gap = closed_up(sp, 2 * k);
        assert(closed_up(sp, 2 * k - 1) == closed_up(x, k));
        if !is_blank(x[k - 1]) && !is_blank(x[k]) {
            assert(is_letter_gap(sp, gap));
            assert(at_gap == closed_up(x, k));
        } else if is_blank(x[k - 1]) {
            assert(!is_letter_gap(sp, gap));
            assert(closed_up(x, k).1);
            assert(at_gap == closed_up(x, k));
        } else {
            assert(!is_letter_gap(sp, gap));
            assert(at_gap == (closed_up(x, k).0, true));
            assert(is_blank(x[k]));
            assert(!is_letter_gap(sp, gap + 1));
            assert(!is_letter_gap(x, k));
        }
    }
}

/// A text in plain form is its own plain form, and it is the plain form of
/// its letter-spaced spelling too.
pub proof fn lemma_spelling_variants(x: Seq<u8>)
    requires
        is_plain(x),
    ensures
        normalised(x) == x,
        normalised(spaced(x)) == x,
{
    lemma_closed_up_plain(x, x.len() as int);
    assert(x.take(x.len() as int) =~= x);
    lemma_closed_up_spaced(x, x.len() - 1);
}

} // verus!
