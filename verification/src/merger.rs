//! Merging of the blocks that a page break split.

use vstd::prelude::*;
use crate::blocks::span_union;
use crate::blocks::BlockView;
use crate::blocks::FinalBlock;
use crate::indexing::NasIndex;
use crate::parser::block_views;
use crate::parser::blocks_wf;
use crate::parser::header_views;
use crate::parser::F06File;
use crate::parser::HeaderView;
use crate::parser::PotentialHeader;
use crate::text::same_bytes;

verus! {

/// Whether two blocks are parts of one table: they have one type, one
/// subcase and the same columns.
pub open spec fn can_merge_views(a: BlockView, b: BlockView) -> bool {
    a.block_type == b.block_type && a.subcase == b.subcase && a.cols == b.cols
}

/// Two parts of one table as one block: the rows of both, a row of the
/// second replacing a row of the first under the same key, over the range
/// of lines that covers both.
pub open spec fn merge_views(a: BlockView, b: BlockView) -> BlockView {
    BlockView {
        rows: a.rows.union_prefer_right(b.rows),
        line_range: span_union(a.line_range, b.line_range),
        ..a
    }
}

/// Position of the first block at or after `i` that `b` is a part of.
pub open spec fn first_mergeable(out: Seq<BlockView>, b: BlockView, i: int) -> Option<int>
    decreases out.len() - i,
{
    if i < 0 || i >= out.len() {
        None
    } else if can_merge_views(out[i], b) {
        Some(i)
    } else {
        first_mergeable(out, b, i + 1)
    }
}

/// A list of blocks after one more block has been taken in: the block is
/// merged into the first block that it is a part of, and put at the end
/// where there is none.
pub open spec fn absorbed(out: Seq<BlockView>, b: BlockView) -> Seq<BlockView> {
    match first_mergeable(out, b, 0) {
        Some(j) => out.update(j, merge_views(out[j], b)),
        None => out.push(b),
    }
}

/// A list of blocks with the parts of each table merged: the blocks are
/// taken in one by one, in order.
pub open spec fn merged(blocks: Seq<BlockView>) -> Seq<BlockView>
    decreases blocks.len(),
{
    if blocks.len() == 0 {
        Seq::empty()
    } else {
        absorbed(merged(blocks.drop_last()), blocks.last())
    }
}

/// Takes one more block into a list of blocks.
pub fn absorb(out: &mut Vec<FinalBlock>, b: FinalBlock) -> (r: bool)
    requires
        blocks_wf(old(out)@),
        b.wf(),
    ensures
        blocks_wf(final(out)@),
        block_views(final(out)@) == absorbed(block_views(old(out)@), b@),
        r == first_mergeable(block_views(old(out)@), b@, 0).is_some(),
        r ==> final(out)@.len() == old(out)@.len(),
        !r ==> final(out)@.len() == old(out)@.len() + 1,
{
    let ghost before = block_views(out@);
    let mut j: usize = 0;
    while j < out.len()
        invariant
            j <= out@.len(),
            before == block_views(out@),
            blocks_wf(out@),
            b.wf(),
            *out == *old(out),
            first_mergeable(before, b@, 0) == first_mergeable(before, b@, j as int),
        decreases out@.len() - j,
    {
        if out[j].can_merge(&b) {
            let merged_now = out[j].try_merge(&b);
            proof {
                assert(block_views(out@) =~= absorbed(before, b@));
            }
            return true;
        }
        j += 1;
    }
    out.push(b);
    proof {
        assert(block_views(out@) =~= absorbed(before, b@));
    }
    false
}

/// Turns a list round.
pub fn reversed<T>(v: Vec<T>) -> (r: Vec<T>)
    ensures
        r@.len() == v@.len(),
        forall|k: int| 0 <= k < r@.len() ==> r@[k] == v@[v@.len() - 1 - k],
{
    let mut rest = v;
    let mut r: Vec<T> = Vec::new();
    while rest.len() > 0
        invariant
            rest@.len() + r@.len() == v@.len(),
            forall|k: int| 0 <= k < rest@.len() ==> rest@[k] == v@[k],
            forall|k: int| 0 <= k < r@.len() ==> r@[k] == v@[v@.len() - 1 - k],
        decreases rest@.len(),
    {
        let b = rest.pop().unwrap();
        r.push(b);
    }
    r
}

impl F06File {
    /// Merges the blocks that are parts of one table. Returns how many
    /// blocks were merged into another.
    pub fn merge_blocks(&mut self) -> (r: usize)
        requires
            old(self).wf(),
        ensures
            final(self).wf(),
            final(self)@.blocks == merged(old(self)@.blocks),
            r == old(self)@.blocks.len() - final(self)@.blocks.len(),
            final(self)@.flavour == old(self)@.flavour,
            final(self)@.warnings == old(self)@.warnings,
            final(self)@.fatal_errors == old(self)@.fatal_errors,
            final(self)@.potential_headers == old(self)@.potential_headers,
    {
        let mut input: Vec<FinalBlock> = Vec::new();
        std::mem::swap(&mut input, &mut self.blocks);
        let ghost orig = input@;
        let ghost views = block_views(orig);
        let n: usize = input.len();
        let mut rest = reversed(input);
        let mut out: Vec<FinalBlock> = Vec::new();
        let mut count: usize = 0;
        proof {
            assert(views.take(0) =~= Seq::<BlockView>::empty());
            assert(block_views(out@) =~= Seq::<BlockView>::empty());
        }
        while rest.len() > 0
            invariant
                n == orig.len(),
                views == block_views(orig),
                blocks_wf(orig),
                rest@.len() <= n,
                forall|k: int| 0 <= k < rest@.len() ==> rest@[k] == orig[n - 1 - k],
                blocks_wf(out@),
                block_views(out@) == merged(views.take(n - rest@.len())),
                count + out@.len() == n - rest@.len(),
            decreases rest@.len(),
        {
            let ghost p: int = n - rest@.len();
            let b = rest.pop().unwrap();
            proof {
                assert(b == orig[p]);
                assert(views.take(p + 1).drop_last() =~= views.take(p));
                assert(views.take(p + 1).last() == b@);
            }
            if absorb(&mut out, b) {
                count += 1;
            }
        }
        proof {
            assert(views.take(n as int) =~= views);
        }
        self.blocks = out;
        count
    }
}

/// Whether no two blocks of a list are parts of one table.
pub open spec fn all_apart(s: Seq<BlockView>) -> bool {
    forall|i: int, j: int| 0 <= i < j < s.len() ==> !can_merge_views(#[trigger] s[i], #[trigger] s[j])
}

/// What the search for a block to merge into finds: the first such block,
/// and nothing only where there is none.
pub proof fn lemma_first_mergeable(out: Seq<BlockView>, b: BlockView, i: int)
    requires
        0 <= i,
    ensures
        match first_mergeable(out, b, i) {
            Some(j) => i <= j < out.len() && can_merge_views(out[j], b) && forall|k: int|
                i <= k < j ==> !can_merge_views(#[trigger] out[k], b),
            None => forall|k: int| i <= k < out.len() ==> !can_merge_views(#[trigger] out[k], b),
        },
    decreases out.len() - i,
{
    if i < out.len() && !can_merge_views(out[i], b) {
        lemma_first_mergeable(out, b, i + 1);
    }
}

/// The block made of two parts of one table holds the rows of both, and
/// under each key the row of the second part where the second part has one.
pub proof fn lemma_merge_rows(a: BlockView, b: BlockView)
    ensures
        merge_views(a, b).rows.dom() == a.rows.dom().union(b.rows.dom()),
        forall|k: NasIndex| b.rows.dom().contains(k) ==> #[trigger] merge_views(a, b).rows[k] == b.rows[k],
        forall|k: NasIndex|
            a.rows.dom().contains(k) && !b.rows.dom().contains(k) ==> #[trigger] merge_views(
                a,
                b,
            ).rows[k] == a.rows[k],
        merge_views(a, b).block_type == a.block_type,
        merge_views(a, b).subcase == a.subcase,
        merge_views(a, b).cols == a.cols,
{
    assert(merge_views(a, b).rows.dom() =~= a.rows.dom().union(b.rows.dom()));
}

/// Merging a part into a block that already holds it changes nothing.
pub proof fn lemma_merge_again(a: BlockView, b: BlockView)
    ensures
        merge_views(merge_views(a, b), b) == merge_views(a, b),
{
    let once = merge_views(a, b);
    let twice = merge_views(once, b);
    assert(twice.rows =~= once.rows);
    assert(twice.line_range == once.line_range);
}

/// Taking a block into a list in which no two blocks are parts of one
/// table leaves such a list.
pub proof fn lemma_absorbed_apart(out: Seq<BlockView>, b: BlockView)
    requires
        all_apart(out),
    ensures
        all_apart(absorbed(out, b)),
{
    lemma_first_mergeable(out, b, 0);
    let next = absorbed(out, b);
    match first_mergeable(out, b, 0) {
        Some(j) => {
            assert forall|x: int, y: int| 0 <= x < y < next.len() implies !can_merge_views(
                #[trigger] next[x],
                #[trigger] next[y],
            ) by {
                assert(!can_merge_views(out[x], out[y]));
            }
        },
        None => {
            assert forall|x: int, y: int| 0 <= x < y < next.len() implies !can_merge_views(
                #[trigger] next[x],
                #[trigger] next[y],
            ) by {
                if y < out.len() {
                    assert(!can_merge_views(out[x], out[y]));
                } else {
                    assert(!can_merge_views(out[x], b));
                }
            }
        },
    }
}

/// After merging, no two blocks are parts of one table.
pub proof fn lemma_merged_apart(blocks: Seq<BlockView>)
    ensures
        all_apart(merged(blocks)),
    decreases blocks.len(),
{
    if blocks.len() > 0 {
        lemma_merged_apart(blocks.drop_last());
        lemma_absorbed_apart(merged(blocks.drop_last()), blocks.last());
    }
}

/// Merging leaves a list alone in which no two blocks are parts of one
/// table.
pub proof fn lemma_merged_fixed(blocks: Seq<BlockView>)
    requires
        all_apart(blocks),
    ensures
        merged(blocks) == blocks,
    decreases blocks.len(),
{
    if blocks.len() > 0 {
        let front = blocks.drop_last();
        assert forall|i: int, j: int| 0 <= i < j < front.len() implies !can_merge_views(
            #[trigger] front[i],
            #[trigger] front[j],
        ) by {
            assert(!can_merge_views(blocks[i], blocks[j]));
        }
        lemma_merged_fixed(front);
        lemma_first_mergeable(front, blocks.last(), 0);
        match first_mergeable(front, blocks.last(), 0) {
            Some(j) => {
                assert(can_merge_views(blocks[j], blocks[blocks.len() - 1]));
            },
            None => {},
        }
        assert(front.push(blocks.last()) =~= blocks);
    } else {
        assert(merged(blocks) =~= blocks);
    }
}

/// Merging is idempotent: merging what has been merged changes nothing,
/// and merges no block.
pub proof fn lemma_merge_idempotent(blocks: Seq<BlockView>)
    ensures
        merged(merged(blocks)) == merged(blocks),
        merged(merged(blocks)).len() == merged(blocks).len(),
{
    lemma_merged_apart(blocks);
    lemma_merged_fixed(merged(blocks));
}

/// Merging two blocks that are parts of one table gives one block, with
/// the rows of both; merging that block alone gives it back.
pub proof fn lemma_merge_two(a: BlockView, b: BlockView)
    requires
        can_merge_views(a, b),
    ensures
        merged(seq![a, b]) == seq![merge_views(a, b)],
        merged(seq![a, b])[0].rows.dom() == a.rows.dom().union(b.rows.dom()),
        merged(merged(seq![a, b])) == merged(seq![a, b]),
{
    let both = seq![a, b];
    assert(both.drop_last() =~= seq![a]);
    assert(seq![a].drop_last() =~= Seq::<BlockView>::empty());
    assert(merged(Seq::<BlockView>::empty()) =~= Seq::<BlockView>::empty());
    assert(first_mergeable(Seq::<BlockView>::empty(), a, 0).is_none());
    assert(merged(seq![a]) =~= seq![a]);
    assert(first_mergeable(seq![a], b, 0) == Some(0int));
    assert(merged(both) =~= seq![merge_views(a, b)]);
    lemma_merge_rows(a, b);
    lemma_merge_idempotent(both);
}

/// Whether one run of lines goes on with another: the two hold one text,
/// the second starts on the line after the first, and the length of both
/// is within the machine's numbers.
pub open spec fn joins(a: HeaderView, b: HeaderView) -> bool {
    a.text == b.text && a.start + a.span == b.start && a.span + b.span <= usize::MAX
}

/// A list of potential headers after one more has been taken in: it
/// lengthens the last run where it goes on with it, and is put at the end
/// where it does not.
pub open spec fn joined(out: Seq<HeaderView>, h: HeaderView) -> Seq<HeaderView> {
    if out.len() > 0 && joins(out.last(), h) {
        out.drop_last().push(
            HeaderView {
                start: out.last().start,
                span: (out.last().span + h.span) as usize,
                text: out.last().text,
            },
        )
    } else {
        out.push(h)
    }
}

/// A list of potential headers with the runs that go on with one another
/// made one: the headers are taken in one by one, in order.
pub open spec fn merged_headers(hs: Seq<HeaderView>) -> Seq<HeaderView>
    decreases hs.len(),
{
    if hs.len() == 0 {
        Seq::empty()
    } else {
        joined(merged_headers(hs.drop_last()), hs.last())
    }
}

/// Whether no run of a list goes on with the run after it.
pub open spec fn no_run_goes_on(hs: Seq<HeaderView>) -> bool {
    forall|i: int| 0 <= i < hs.len() - 1 ==> !joins(#[trigger] hs[i], hs[i + 1])
}

/// Takes one more potential header into a list.
pub fn join_header(out: &mut Vec<PotentialHeader>, h: PotentialHeader)
    ensures
        header_views(final(out)@) == joined(header_views(old(out)@), h@),
{
    let ghost before = header_views(out@);
    let n: usize = out.len();
    if n > 0 {
        let last = &out[n - 1];
        if last.span <= usize::MAX - h.span && h.start >= last.start && h.start - last.start
            == last.span && same_bytes(last.text.as_slice(), h.text.as_slice()) {
            let start: usize = last.start;
            let span: usize = last.span + h.span;
            let whole = out.pop().unwrap();
            out.push(PotentialHeader { start, span, text: whole.text });
            proof {
                assert(header_views(out@) =~= joined(before, h@));
            }
            return ;
        }
    }
    out.push(h);
    proof {
        assert(header_views(out@) =~= joined(before, h@));
    }
}

impl F06File {
    /// Makes one run of the potential headers that go on with one another.
    pub fn merge_potential_headers(&mut self)
        ensures
            final(self)@.potential_headers == merged_headers(old(self)@.potential_headers),
            final(self)@.flavour == old(self)@.flavour,
            final(self)@.blocks == old(self)@.blocks,
            final(self).blocks == old(self).blocks,
            final(self)@.warnings == old(self)@.warnings,
            final(self)@.fatal_errors == old(self)@.fatal_errors,
    {
        let mut input: Vec<PotentialHeader> = Vec::new();
        std::mem::swap(&mut input, &mut self.potential_headers);
        let ghost orig = input@;
        let ghost views = header_views(orig);
        let n: usize = input.len();
        let mut rest = reversed(input);
        let mut out: Vec<PotentialHeader> = Vec::new();
        proof {
            assert(views.take(0) =~= Seq::<HeaderView>::empty());
            assert(header_views(out@) =~= Seq::<HeaderView>::empty());
        }
        while rest.len() > 0
            invariant
                n == orig.len(),
                views == header_views(orig),
                rest@.len() <= n,
                forall|k: int| 0 <= k < rest@.len() ==> rest@[k] == orig[n - 1 - k],
                header_views(out@) == merged_headers(views.take(n - rest@.len())),
            decreases rest@.len(),
        {
            let ghost p: int = n - rest@.len();
            let h = rest.pop().unwrap();
            proof {
                assert(h == orig[p]);
                assert(views.take(p + 1).drop_last() =~= views.take(p));
                assert(views.take(p + 1).last() == h@);
            }
            join_header(&mut out, h);
        }
        proof {
            assert(views.take(n as int) =~= views);
        }
        self.potential_headers = out;
    }
}

/// Taking a potential header into a list in which no run goes on with the
/// next leaves such a list.
pub proof fn lemma_joined_settled(out: Seq<HeaderView>, h: HeaderView)
    requires
        no_run_goes_on(out),
    ensures
        no_run_goes_on(joined(out, h)),
{
    let next = joined(out, h);
    assert forall|i: int| 0 <= i < next.len() - 1 implies !joins(#[trigger] next[i], next[i + 1]) by {
        if out.len() > 0 && joins(out.last(), h) {
            if i < out.len() - 2 {
                assert(next[i] == out[i]);
                assert(next[i + 1] == out[i + 1]);
            } else {
                assert(next[i] == out[i]);
                assert(!joins(out[i], out[i + 1]));
            }
        } else {
            if i < out.len() - 1 {
                assert(next[i] == out[i]);
                assert(next[i + 1] == out[i + 1]);
            }
        }
    }
}

/// After the runs have been made one, no run goes on with the next.
pub proof fn lemma_merged_headers_settled(hs: Seq<HeaderView>)
    ensures
        no_run_goes_on(merged_headers(hs)),
    decreases hs.len(),
{
    if hs.len() > 0 {
        lemma_merged_headers_settled(hs.drop_last());
        lemma_joined_settled(merged_headers(hs.drop_last()), hs.last());
    }
}

/// A list in which no run goes on with the next is left alone.
pub proof fn lemma_merged_headers_fixed(hs: Seq<HeaderView>)
    requires
        no_run_goes_on(hs),
    ensures
        merged_headers(hs) == hs,
    decreases hs.len(),
{
    if hs.len() > 0 {
        let front = hs.drop_last();
        assert forall|i: int| 0 <= i < front.len() - 1 implies !joins(#[trigger] front[i], front[i + 1]) by {
            assert(front[i] == hs[i]);
            assert(front[i + 1] == hs[i + 1]);
        }
        lemma_merged_headers_fixed(front);
        if front.len() > 0 {
            assert(front.last() == hs[hs.len() - 2]);
            assert(!joins(hs[hs.len() - 2], hs[hs.len() - 2 + 1]));
        }
        assert(front.push(hs.last()) =~= hs);
    } else {
        assert(merged_headers(hs) =~= hs);
    }
}

/// Making runs one is idempotent.
pub proof fn lemma_merge_headers_idempotent(hs: Seq<HeaderView>)
    ensures
        merged_headers(merged_headers(hs)) == merged_headers(hs),
{
    lemma_merged_headers_settled(hs);
    lemma_merged_headers_fixed(merged_headers(hs));
}

} // verus!
