//! Tables of values under row and column keys: the accumulator that a
//! decoder fills, and the finished block that comes out of it.
//!
//! Both are modelled as a map from row key to a row of values, beside the
//! sequence of column keys that fixes the position of each value in a row.

use vstd::prelude::*;
use crate::blocks::types::BlockType;
use crate::indexing::lemma_precedes_strict;
use crate::indexing::lemma_precedes_total;
use crate::indexing::lemma_precedes_transitive;
use crate::indexing::NasIndex;
use crate::numbers::Decimal;

pub mod decoders;
pub mod types;

verus! {

/// What a decoder made of a line.
#[derive(Clone, Copy, Debug, PartialEq, Eq, Structural)]
pub enum LineResponse {
    /// The line gave a row of values.
    Data,
    /// The line changed the decoder's state and gave no row.
    Metadata,
    /// The line was ignored.
    Useless,
    /// The line ends the block.
    Done,
    /// The line looks like data and cannot be placed: the block is lost.
    Abort,
    /// The decoder cannot work for the solver that wrote the report.
    BadFlavour,
}

/// Whether keys stand in strictly rising order.
pub open spec fn keys_sorted(keys: Seq<NasIndex>) -> bool {
    forall|i: int, j: int|
        0 <= i < j < keys.len() ==> (#[trigger] keys[i]).spec_precedes(#[trigger] keys[j])
}

/// The rows of a table as sequences.
pub open spec fn views(rows: Seq<Vec<Decimal>>) -> Seq<Seq<Decimal>> {
    Seq::new(rows.len(), |i: int| rows[i]@)
}

/// Whether keys and rows make a table of the given width: one row for each
/// key, the keys strictly rising, every row of that width.
pub open spec fn table_wf(keys: Seq<NasIndex>, rows: Seq<Seq<Decimal>>, width: int) -> bool {
    &&& keys.len() == rows.len()
    &&& keys_sorted(keys)
    &&& forall|i: int| 0 <= i < rows.len() ==> (#[trigger] rows[i]).len() == width
}

/// The map from each key to the row that stands beside it.
pub open spec fn table_map(keys: Seq<NasIndex>, rows: Seq<Seq<Decimal>>) -> Map<
    NasIndex,
    Seq<Decimal>,
> {
    Map::new(|k: NasIndex| keys.contains(k), |k: NasIndex| rows[keys.index_of(k)])
}

/// Position of the first column with key `c` at or after `i`.
pub open spec fn position_from(cols: Seq<NasIndex>, c: NasIndex, i: int) -> Option<int>
    decreases cols.len() - i,
{
    if i < 0 || i >= cols.len() {
        None
    } else if cols[i] == c {
        Some(i)
    } else {
        position_from(cols, c, i + 1)
    }
}

/// Position of the first column with key `c`.
pub open spec fn position(cols: Seq<NasIndex>, c: NasIndex) -> Option<int> {
    position_from(cols, c, 0)
}

/// The value under a row key and a column key, where the table has both.
pub open spec fn lookup(
    cols: Seq<NasIndex>,
    table: Map<NasIndex, Seq<Decimal>>,
    row: NasIndex,
    col: NasIndex,
) -> Option<Decimal> {
    match position(cols, col) {
        Some(j) => if table.dom().contains(row) && j < table[row].len() {
            Some(table[row][j])
        } else {
            None
        },
        None => None,
    }
}

/// In strictly rising keys no key stands twice.
pub proof fn lemma_sorted_distinct(keys: Seq<NasIndex>, i: int, j: int)
    requires
        keys_sorted(keys),
        0 <= i < keys.len(),
        0 <= j < keys.len(),
        keys[i] == keys[j],
    ensures
        i == j,
{
    lemma_precedes_strict(keys[i], keys[j]);
}

/// The map of a table holds each key with the row beside it.
pub proof fn lemma_table_map_at(keys: Seq<NasIndex>, rows: Seq<Seq<Decimal>>, i: int)
    requires
        keys_sorted(keys),
        0 <= i < keys.len(),
    ensures
        table_map(keys, rows).dom().contains(keys[i]),
        table_map(keys, rows)[keys[i]] == rows[i],
        keys.index_of(keys[i]) == i,
{
    assert(keys.contains(keys[i]));
    let j = keys.index_of(keys[i]);
    lemma_sorted_distinct(keys, i, j);
}

/// The keys of the map of a table are the keys of the table.
pub proof fn lemma_table_map_dom(keys: Seq<NasIndex>, rows: Seq<Seq<Decimal>>)
    ensures
        table_map(keys, rows).dom() =~= keys.to_set(),
        table_map(keys, rows).dom().finite(),
{
    vstd::seq_lib::seq_to_set_is_finite(keys);
    assert(table_map(keys, rows).dom() =~= keys.to_set());
}

/// Finds the first position whose key does not precede `key`.
pub fn lower_bound(keys: &Vec<NasIndex>, key: &NasIndex) -> (at: usize)
    requires
        keys_sorted(keys@),
    ensures
        at <= keys@.len(),
        forall|j: int| 0 <= j < at ==> (#[trigger] keys@[j]).spec_precedes(*key),
        forall|j: int| at <= j < keys@.len() ==> !(#[trigger] keys@[j]).spec_precedes(*key),
{
    let mut lo: usize = 0;
    let mut hi: usize = keys.len();
    while lo < hi
        invariant
            lo <= hi <= keys@.len(),
            keys_sorted(keys@),
            forall|j: int| 0 <= j < lo ==> (#[trigger] keys@[j]).spec_precedes(*key),
            forall|j: int| hi <= j < keys@.len() ==> !(#[trigger] keys@[j]).spec_precedes(*key),
        decreases hi - lo,
    {
        let mid: usize = lo + (hi - lo) / 2;
        if keys[mid].precedes(key) {
            proof {
                assert forall|j: int| 0 <= j < mid + 1 implies (#[trigger] keys@[j]).spec_precedes(
                    *key,
                ) by {
                    if j < mid {
                        lemma_precedes_transitive(keys@[j], keys@[mid as int], *key);
                    }
                }
            }
            lo = mid + 1;
        } else {
            proof {
                assert forall|j: int| mid <= j < keys@.len() implies !(
                #[trigger] keys@[j]).spec_precedes(*key) by {
                    if j > mid && keys@[j].spec_precedes(*key) {
                        lemma_precedes_transitive(keys@[mid as int], keys@[j], *key);
                    }
                }
            }
            hi = mid;
        }
    }
    lo
}

/// Finds the position of `key` among strictly rising keys.
pub fn find_key(keys: &Vec<NasIndex>, key: &NasIndex) -> (r: Option<usize>)
    requires
        keys_sorted(keys@),
    ensures
        match r {
            Some(i) => i < keys@.len() && keys@[i as int] == *key,
            None => !keys@.contains(*key),
        },
{
    let at = lower_bound(keys, key);
    if at < keys.len() && keys[at].same(key) {
        Some(at)
    } else {
        proof {
            if keys@.contains(*key) {
                let j = keys@.index_of(*key);
                lemma_precedes_strict(*key, *key);
                assert(!keys@[j].spec_precedes(*key));
                assert(j >= at);
                if j > at {
                    assert(keys@[at as int].spec_precedes(keys@[j]));
                }
            }
        }
        None
    }
}

/// Finds the position of the first column with key `col`.
pub fn find_column(cols: &Vec<NasIndex>, col: &NasIndex) -> (r: Option<usize>)
    ensures
        match r {
            Some(j) => position(cols@, *col) == Some(j as int) && j < cols@.len(),
            None => position(cols@, *col).is_none(),
        },
{
    let mut i: usize = 0;
    while i < cols.len()
        invariant
            i <= cols@.len(),
            position(cols@, *col) == position_from(cols@, *col, i as int),
        decreases cols@.len() - i,
    {
        if cols[i].same(col) {
            return Some(i);
        }
        i += 1;
    }
    None
}

/// Writing a row beside a key that a table already holds changes the map
/// of the table at that key alone.
pub proof fn lemma_overwrite(keys: Seq<NasIndex>, rows: Seq<Seq<Decimal>>, i: int, row: Seq<Decimal>)
    requires
        keys_sorted(keys),
        keys.len() == rows.len(),
        0 <= i < keys.len(),
    ensures
        table_map(keys, rows.update(i, row)) == table_map(keys, rows).insert(keys[i], row),
{
    let before = table_map(keys, rows);
    let after = table_map(keys, rows.update(i, row));
    assert forall|k: NasIndex| after.dom().contains(k) implies #[trigger] after[k]
        == before.insert(keys[i], row)[k] by {
        let j = keys.index_of(k);
        if k == keys[i] {
            lemma_sorted_distinct(keys, i, j);
        }
    }
    assert(keys.contains(keys[i]));
    assert(after =~= before.insert(keys[i], row));
}

/// Placing a new key with its row at the position that keeps the keys
/// rising gives a table again, whose map is the old one with the key added.
pub proof fn lemma_place(
    keys: Seq<NasIndex>,
    rows: Seq<Seq<Decimal>>,
    at: int,
    key: NasIndex,
    row: Seq<Decimal>,
)
    requires
        keys_sorted(keys),
        keys.len() == rows.len(),
        0 <= at <= keys.len(),
        forall|j: int| 0 <= j < at ==> (#[trigger] keys[j]).spec_precedes(key),
        forall|j: int| at <= j < keys.len() ==> !(#[trigger] keys[j]).spec_precedes(key),
        !keys.contains(key),
    ensures
        keys_sorted(keys.insert(at, key)),
        table_map(keys.insert(at, key), rows.insert(at, row)) == table_map(keys, rows).insert(
            key,
            row,
        ),
{
    let keys2 = keys.insert(at, key);
    let rows2 = rows.insert(at, row);
    assert forall|i: int, j: int| 0 <= i < j < keys2.len() implies (#[trigger] keys2[i]).spec_precedes(
        #[trigger] keys2[j],
    ) by {
        if j == at {
            assert(keys2[i] == keys[i]);
        } else if i == at {
            assert(keys2[j] == keys[j - 1]);
            assert(keys.contains(keys[j - 1]));
            lemma_precedes_total(key, keys[j - 1]);
        } else {
            let oi = if i < at { i } else { i - 1 };
            let oj = if j < at { j } else { j - 1 };
            assert(keys2[i] == keys[oi]);
            assert(keys2[j] == keys[oj]);
        }
    }
    let before = table_map(keys, rows);
    let after = table_map(keys2, rows2);
    let want = before.insert(key, row);
    assert forall|k: NasIndex| after.dom().contains(k) <==> want.dom().contains(k) by {
        if keys2.contains(k) {
            let j = keys2.index_of(k);
            if j < at {
                assert(keys[j] == k);
            } else if j > at {
                assert(keys[j - 1] == k);
            }
        }
        if keys.contains(k) {
            let j = keys.index_of(k);
            if j < at {
                assert(keys2[j] == k);
            } else {
                assert(keys2[j + 1] == k);
            }
        }
        if k == key {
            assert(keys2[at] == k);
        }
    }
    assert forall|k: NasIndex| after.dom().contains(k) implies #[trigger] after[k] == want[k] by {
        let j = keys2.index_of(k);
        if k == key {
            assert(keys2[at] == key);
            lemma_sorted_distinct(keys2, at, j);
        } else {
            let oj = if j < at { j } else { j - 1 };
            assert(keys[oj] == k);
            lemma_table_map_at(keys, rows, oj);
        }
    }
    assert(after =~= want);
}

/// An accumulator of rows under row keys, with a fixed sequence of columns.
pub struct RowBlock {
    /// The column keys; a value's position in its row is that of its column.
    pub cols: Vec<NasIndex>,
    /// The row keys, strictly rising.
    pub keys: Vec<NasIndex>,
    /// The rows, each beside its key.
    pub rows: Vec<Vec<Decimal>>,
}

impl RowBlock {
    /// Whether the accumulator is a table: one row of the columns' width for
    /// each key, the keys strictly rising.
    pub open spec fn wf(&self) -> bool {
        table_wf(self.keys@, views(self.rows@), self.cols@.len() as int)
    }

    /// The rows of the accumulator by their keys.
    pub open spec fn view(&self) -> Map<NasIndex, Seq<Decimal>> {
        table_map(self.keys@, views(self.rows@))
    }

    /// Makes an empty accumulator with the given columns.
    pub fn new(cols: Vec<NasIndex>) -> (r: RowBlock)
        ensures
            r.wf(),
            r.cols@ == cols@,
            r@ == Map::<NasIndex, Seq<Decimal>>::empty(),
    {
        let r = RowBlock { cols, keys: Vec::new(), rows: Vec::new() };
        proof {
            assert(r@ =~= Map::<NasIndex, Seq<Decimal>>::empty());
        }
        r
    }

    /// Number of values in a row.
    pub fn width(&self) -> (r: usize)
        ensures
            r == self.cols@.len(),
    {
        self.cols.len()
    }

    /// Number of rows.
    pub fn len(&self) -> (r: usize)
        requires
            self.wf(),
        ensures
            r == self@.dom().len(),
            r == self.keys@.len(),
    {
        proof {
            lemma_table_map_dom(self.keys@, views(self.rows@));
            lemma_sorted_no_duplicates(self.keys@);
            self.keys@.unique_seq_to_set();
        }
        self.keys.len()
    }

    /// Puts `values` under `key`; a row that stood there before is replaced.
    pub fn insert(&mut self, key: NasIndex, values: Vec<Decimal>)
        requires
            old(self).wf(),
            values@.len() == old(self).cols@.len(),
        ensures
            final(self).wf(),
            final(self).cols@ == old(self).cols@,
            final(self)@ == old(self)@.insert(key, values@),
    {
        let ghost keys0 = self.keys@;
        let ghost rows0 = views(self.rows@);
        let ghost row = values@;
        let at = lower_bound(&self.keys, &key);
        if at < self.keys.len() && self.keys[at].same(&key) {
            self.rows[at] = values;
            proof {
                assert(views(self.rows@) =~= rows0.update(at as int, row));
                lemma_overwrite(keys0, rows0, at as int, row);
            }
        } else {
            proof {
                if keys0.contains(key) {
                    let j = keys0.index_of(key);
                    lemma_precedes_strict(key, key);
                    assert(!keys0[j].spec_precedes(key));
                    if j > at {
                        assert(keys0[at as int].spec_precedes(keys0[j]));
                    }
                }
                lemma_place(keys0, rows0, at as int, key, row);
            }
            self.keys.insert(at, key);
            self.rows.insert(at, values);
            proof {
                assert(views(self.rows@) =~= rows0.insert(at as int, row));
            }
        }
    }
}

/// Strictly rising keys hold no key twice.
pub proof fn lemma_sorted_no_duplicates(keys: Seq<NasIndex>)
    requires
        keys_sorted(keys),
    ensures
        keys.no_duplicates(),
{
    assert forall|i: int, j: int| 0 <= i < keys.len() && 0 <= j < keys.len() && i != j implies keys[i]
        != keys[j] by {
        if keys[i] == keys[j] {
            lemma_sorted_distinct(keys, i, j);
        }
    }
}

/// The smallest range of lines that covers two ranges.
pub open spec fn span_union(a: Option<(usize, usize)>, b: Option<(usize, usize)>) -> Option<
    (usize, usize),
> {
    match (a, b) {
        (None, _) => b,
        (_, None) => a,
        (Some(x), Some(y)) => Some(
            (if x.0 <= y.0 { x.0 } else { y.0 }, if x.1 >= y.1 { x.1 } else { y.1 }),
        ),
    }
}

/// Executable form of [`span_union`].
pub fn union_of_spans(a: Option<(usize, usize)>, b: Option<(usize, usize)>) -> (r: Option<
    (usize, usize),
>)
    ensures
        r == span_union(a, b),
{
    match (a, b) {
        (None, _) => b,
        (_, None) => a,
        (Some(x), Some(y)) => Some(
            (if x.0 <= y.0 { x.0 } else { y.0 }, if x.1 >= y.1 { x.1 } else { y.1 }),
        ),
    }
}

/// Copies a row of values.
pub fn copy_row(row: &Vec<Decimal>) -> (r: Vec<Decimal>)
    ensures
        r@ == row@,
{
    let mut r: Vec<Decimal> = Vec::new();
    let mut i: usize = 0;
    while i < row.len()
        invariant
            i <= row@.len(),
            r@ == row@.take(i as int),
        decreases row@.len() - i,
    {
        r.push(row[i]);
        proof {
            assert(r@ =~= row@.take(i + 1));
        }
        i += 1;
    }
    proof {
        assert(row@.take(i as int) =~= row@);
    }
    r
}

/// Tells whether two sequences of keys are equal.
pub fn same_keys(a: &Vec<NasIndex>, b: &Vec<NasIndex>) -> (r: bool)
    ensures
        r == (a@ == b@),
{
    if a.len() != b.len() {
        return false;
    }
    let mut i: usize = 0;
    while i < a.len()
        invariant
            i <= a@.len(),
            a@.len() == b@.len(),
            forall|j: int| 0 <= j < i ==> a@[j] == b@[j],
        decreases a@.len() - i,
    {
        if !a[i].same(&b[i]) {
            return false;
        }
        i += 1;
    }
    proof {
        assert(a@ =~= b@);
    }
    true
}

/// A finished block: a table of one type that belongs to one subcase.
#[derive(Debug)]
pub struct FinalBlock {
    /// The type of the block.
    pub block_type: BlockType,
    /// The subcase that the block belongs to.
    pub subcase: usize,
    /// The first and last line of the block in the report, where known.
    pub line_range: Option<(usize, usize)>,
    /// The row keys, strictly rising.
    pub row_indexes: Vec<NasIndex>,
    /// The column keys, by the position of their values in a row.
    pub col_indexes: Vec<NasIndex>,
    /// The values: one row for each row key, one value for each column.
    pub data: Vec<Vec<Decimal>>,
}

/// What a finished block holds.
pub struct BlockView {
    /// The type of the block.
    pub block_type: BlockType,
    /// The subcase that the block belongs to.
    pub subcase: usize,
    /// The first and last line of the block in the report, where known.
    pub line_range: Option<(usize, usize)>,
    /// The column keys, by the position of their values in a row.
    pub cols: Seq<NasIndex>,
    /// The rows by their keys.
    pub rows: Map<NasIndex, Seq<Decimal>>,
}

impl FinalBlock {
    /// What the block holds.
    pub open spec fn view(&self) -> BlockView {
        BlockView {
            block_type: self.block_type,
            subcase: self.subcase,
            line_range: self.line_range,
            cols: self.col_indexes@,
            rows: self.rows(),
        }
    }

    /// Whether the block is a table: one row of the columns' width for each
    /// row key, the row keys strictly rising.
    pub open spec fn wf(&self) -> bool {
        table_wf(self.row_indexes@, views(self.data@), self.col_indexes@.len() as int)
    }

    /// The rows of the block by their keys.
    pub open spec fn rows(&self) -> Map<NasIndex, Seq<Decimal>> {
        table_map(self.row_indexes@, views(self.data@))
    }

    /// The value under a row key and a column key, where the block has both.
    pub open spec fn spec_get(&self, row: NasIndex, col: NasIndex) -> Option<Decimal> {
        lookup(self.col_indexes@, self.rows(), row, col)
    }

    /// Whether two blocks are parts of one table: they have one type, one
    /// subcase and the same columns.
    pub open spec fn spec_can_merge(&self, other: &FinalBlock) -> bool {
        &&& self.block_type == other.block_type
        &&& self.subcase == other.subcase
        &&& self.col_indexes@ == other.col_indexes@
    }

    /// Returns the value under a row key and a column key.
    pub fn get(&self, row: NasIndex, col: NasIndex) -> (r: Option<Decimal>)
        requires
            self.wf(),
        ensures
            r == self.spec_get(row, col),
    {
        match find_column(&self.col_indexes, &col) {
            None => None,
            Some(j) => match find_key(&self.row_indexes, &row) {
                None => None,
                Some(i) => {
                    proof {
                        lemma_table_map_at(self.row_indexes@, views(self.data@), i as int);
                    }
                    Some(self.data[i][j])
                },
            },
        }
    }

    /// Number of rows.
    pub fn row_count(&self) -> (r: usize)
        requires
            self.wf(),
        ensures
            r == self.rows().dom().len(),
            r == self.row_indexes@.len(),
    {
        proof {
            lemma_table_map_dom(self.row_indexes@, views(self.data@));
            lemma_sorted_no_duplicates(self.row_indexes@);
            self.row_indexes@.unique_seq_to_set();
        }
        self.row_indexes.len()
    }

    /// Number of columns.
    pub fn col_count(&self) -> (r: usize)
        ensures
            r == self.col_indexes@.len(),
    {
        self.col_indexes.len()
    }

    /// Tells whether two blocks are parts of one table.
    pub fn can_merge(&self, other: &FinalBlock) -> (r: bool)
        ensures
            r == self.spec_can_merge(other),
    {
        self.block_type == other.block_type && self.subcase == other.subcase && same_keys(
            &self.col_indexes,
            &other.col_indexes,
        )
    }

    /// Takes the rows of `other` into this block, where the two are parts of
    /// one table. A row of `other` replaces a row under the same key, and
    /// the range of lines grows to cover both blocks. Blocks that are not
    /// parts of one table are left alone.
    pub fn try_merge(&mut self, other: &FinalBlock) -> (r: bool)
        requires
            old(self).wf(),
            other.wf(),
        ensures
            r == old(self).spec_can_merge(other),
            final(self).wf(),
            final(self).block_type == old(self).block_type,
            final(self).subcase == old(self).subcase,
            final(self).col_indexes@ == old(self).col_indexes@,
            r ==> final(self).rows() == old(self).rows().union_prefer_right(other.rows()),
            r ==> final(self).line_range == span_union(old(self).line_range, other.line_range),
            !r ==> final(self).rows() == old(self).rows(),
            !r ==> final(self).line_range == old(self).line_range,
    {
        if !self.can_merge(other) {
            return false;
        }
        let mut keys: Vec<NasIndex> = Vec::new();
        let mut rows: Vec<Vec<Decimal>> = Vec::new();
        let mut cols: Vec<NasIndex> = Vec::new();
        std::mem::swap(&mut keys, &mut self.row_indexes);
        std::mem::swap(&mut rows, &mut self.data);
        std::mem::swap(&mut cols, &mut self.col_indexes);
        let mut table = RowBlock { cols, keys, rows };
        let ghost start = table@;
        let n: usize = other.row_indexes.len();
        let mut i: usize = 0;
        while i < n
            invariant
                i <= n,
                n == other.row_indexes@.len(),
                other.wf(),
                table.wf(),
                table.cols@ == other.col_indexes@,
                table@ == start.union_prefer_right(
                    table_map(other.row_indexes@.take(i as int), views(other.data@).take(i as int)),
                ),
            decreases n - i,
        {
            let row = copy_row(&other.data[i]);
            proof {
                let ks = other.row_indexes@;
                let rs = views(other.data@);
                assert(rs[i as int] == other.data@[i as int]@);
                assert(keys_sorted(ks.take(i as int))) by {
                    assert forall|a: int, b: int| 0 <= a < b < ks.take(i as int).len() implies (
                    #[trigger] ks.take(i as int)[a]).spec_precedes(#[trigger] ks.take(i as int)[b]) by {
                        assert(ks.take(i as int)[a] == ks[a]);
                        assert(ks.take(i as int)[b] == ks[b]);
                    }
                }
                assert(!ks.take(i as int).contains(ks[i as int])) by {
                    if ks.take(i as int).contains(ks[i as int]) {
                        let j = ks.take(i as int).index_of(ks[i as int]);
                        assert(ks[j] == ks[i as int]);
                        lemma_sorted_distinct(ks, j, i as int);
                    }
                }
                assert forall|j: int| 0 <= j < i implies (#[trigger] ks.take(i as int)[j]).spec_precedes(
                    ks[i as int],
                ) by {
                    assert(ks.take(i as int)[j] == ks[j]);
                }
                lemma_place(ks.take(i as int), rs.take(i as int), i as int, ks[i as int], rs[i as int]);
                assert(ks.take(i as int).insert(i as int, ks[i as int]) =~= ks.take(i + 1));
                assert(rs.take(i as int).insert(i as int, rs[i as int]) =~= rs.take(i + 1));
                let part = table_map(ks.take(i as int), rs.take(i as int));
                assert(start.union_prefer_right(part).insert(ks[i as int], rs[i as int])
                    =~= start.union_prefer_right(part.insert(ks[i as int], rs[i as int])));
            }
            table.insert(other.row_indexes[i], row);
            i += 1;
        }
        proof {
            assert(other.row_indexes@.take(n as int) =~= other.row_indexes@);
            assert(views(other.data@).take(n as int) =~= views(other.data@));
        }
        self.row_indexes = table.keys;
        self.data = table.rows;
        self.col_indexes = table.cols;
        self.line_range = union_of_spans(self.line_range, other.line_range);
        true
    }
}

impl RowBlock {
    /// Turns the accumulator into a finished block of the given type, for
    /// the given subcase and range of lines. The block holds the rows that
    /// were put in, by rising key, under the columns of the accumulator.
    pub fn finalise(self, block_type: BlockType, subcase: usize, line_range: Option<(usize, usize)>) -> (r:
        FinalBlock)
        requires
            self.wf(),
        ensures
            r.wf(),
            r.block_type == block_type,
            r.subcase == subcase,
            r.line_range == line_range,
            r.col_indexes@ == self.cols@,
            r.rows() == self@,
            keys_sorted(r.row_indexes@),
            r.row_indexes@.to_set() == self@.dom(),
    {
        proof {
            lemma_table_map_dom(self.keys@, views(self.rows@));
        }
        FinalBlock {
            block_type,
            subcase,
            line_range,
            row_indexes: self.keys,
            col_indexes: self.cols,
            data: self.rows,
        }
    }
}

/// Tells whether keys stand in strictly rising order.
pub fn keys_rising(keys: &Vec<NasIndex>) -> (r: bool)
    ensures
        r == keys_sorted(keys@),
{
    let n: usize = keys.len();
    if n < 2 {
        return true;
    }
    let mut i: usize = 1;
    while i < n
        invariant
            1 <= i <= n,
            n == keys@.len(),
            forall|a: int, b: int|
                0 <= a < b < i ==> (#[trigger] keys@[a]).spec_precedes(#[trigger] keys@[b]),
        decreases n - i,
    {
        if !keys[i - 1].precedes(&keys[i]) {
            return false;
        }
        proof {
            assert forall|a: int, b: int| 0 <= a < b < i + 1 implies (#[trigger] keys@[a]).spec_precedes(
                #[trigger] keys@[b],
            ) by {
                if b == i && a < i - 1 {
                    lemma_precedes_transitive(keys@[a], keys@[i - 1], keys@[i as int]);
                }
            }
        }
        i += 1;
    }
    true
}

/// Tells whether keys and rows make a table of the given width.
pub fn is_table(keys: &Vec<NasIndex>, rows: &Vec<Vec<Decimal>>, width: usize) -> (r: bool)
    ensures
        r == table_wf(keys@, views(rows@), width as int),
{
    if keys.len() != rows.len() || !keys_rising(keys) {
        return false;
    }
    let mut i: usize = 0;
    while i < rows.len()
        invariant
            i <= rows@.len(),
            forall|j: int| 0 <= j < i ==> (#[trigger] views(rows@)[j]).len() == width,
        decreases rows@.len() - i,
    {
        if rows[i].len() != width {
            proof {
                assert(views(rows@)[i as int].len() != width);
            }
            return false;
        }
        i += 1;
    }
    true
}

impl RowBlock {
    /// Tells whether the accumulator is a table.
    pub fn is_wf(&self) -> (r: bool)
        ensures
            r == self.wf(),
    {
        is_table(&self.keys, &self.rows, self.cols.len())
    }
}

impl FinalBlock {
    /// Tells whether the block is a table.
    pub fn is_wf(&self) -> (r: bool)
        ensures
            r == self.wf(),
    {
        is_table(&self.row_indexes, &self.data, self.col_indexes.len())
    }
}

} // verus!
