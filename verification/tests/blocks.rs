use f06::blocks::copy_row;
use f06::blocks::find_column;
use f06::blocks::find_key;
use f06::blocks::lower_bound;
use f06::blocks::same_keys;
use f06::blocks::types::BlockType;
use f06::blocks::union_of_spans;
use f06::blocks::FinalBlock;
use f06::blocks::RowBlock;
use f06::indexing::Dof;
use f06::indexing::GridPointRef;
use f06::indexing::NasIndex;
use f06::numbers::Decimal;

fn grid(gid: usize) -> NasIndex {
    NasIndex::GridPointRef(GridPointRef { gid })
}

fn num(mantissa: u64) -> Decimal {
    Decimal { negative: false, mantissa, exponent: 0 }
}

fn two_cols() -> Vec<NasIndex> {
    vec![NasIndex::Dof(Dof::Tx), NasIndex::Dof(Dof::Ty)]
}

fn block(keys: &[usize], base: u64, subcase: usize, range: Option<(usize, usize)>) -> FinalBlock {
    let mut rb = RowBlock::new(two_cols());
    for k in keys {
        rb.insert(grid(*k), vec![num(base + *k as u64), num(base + 100 + *k as u64)]);
    }
    rb.finalise(BlockType::Displacements, subcase, range)
}

#[test]
fn a_new_row_block_is_empty() {
    let rb = RowBlock::new(two_cols());
    assert_eq!(rb.len(), 0);
    assert_eq!(rb.width(), 2);
    let fb = rb.finalise(BlockType::SpcForces, 4, None);
    assert_eq!(fb.row_count(), 0);
    assert_eq!(fb.col_count(), 2);
    assert_eq!(fb.block_type, BlockType::SpcForces);
    assert_eq!(fb.subcase, 4);
    assert_eq!(fb.line_range, None);
    assert_eq!(fb.get(grid(1), NasIndex::Dof(Dof::Tx)), None);
}

#[test]
fn rows_come_out_by_rising_key_whatever_the_order_of_insertion() {
    let fb = block(&[5, 1, 9, 3, 7], 0, 1, Some((2, 8)));
    assert_eq!(fb.row_indexes, vec![grid(1), grid(3), grid(5), grid(7), grid(9)]);
    assert_eq!(fb.col_indexes, two_cols());
    assert_eq!(fb.line_range, Some((2, 8)));
    for k in [1usize, 3, 5, 7, 9] {
        assert_eq!(fb.get(grid(k), NasIndex::Dof(Dof::Tx)), Some(num(k as u64)));
        assert_eq!(fb.get(grid(k), NasIndex::Dof(Dof::Ty)), Some(num(100 + k as u64)));
    }
    let other = block(&[9, 7, 5, 3, 1], 0, 1, Some((2, 8)));
    assert_eq!(other.row_indexes, fb.row_indexes);
    assert_eq!(other.data, fb.data);
}

#[test]
fn inserting_at_a_key_again_replaces_the_row() {
    let mut rb = RowBlock::new(two_cols());
    rb.insert(grid(2), vec![num(1), num(2)]);
    rb.insert(grid(1), vec![num(3), num(4)]);
    rb.insert(grid(2), vec![num(5), num(6)]);
    assert_eq!(rb.len(), 2);
    let fb = rb.finalise(BlockType::Displacements, 1, None);
    assert_eq!(fb.row_indexes, vec![grid(1), grid(2)]);
    assert_eq!(fb.get(grid(2), NasIndex::Dof(Dof::Tx)), Some(num(5)));
    assert_eq!(fb.get(grid(2), NasIndex::Dof(Dof::Ty)), Some(num(6)));
    assert_eq!(fb.get(grid(1), NasIndex::Dof(Dof::Tx)), Some(num(3)));
}

#[test]
fn get_gives_nothing_for_a_key_that_is_absent() {
    let fb = block(&[1, 2], 0, 1, None);
    assert_eq!(fb.get(grid(3), NasIndex::Dof(Dof::Tx)), None);
    assert_eq!(fb.get(grid(1), NasIndex::Dof(Dof::Tz)), None);
    assert_eq!(fb.get(NasIndex::Dof(Dof::Tx), NasIndex::Dof(Dof::Tx)), None);
    assert_eq!(fb.get(grid(1), grid(1)), None);
}

#[test]
fn searching_keys() {
    let keys = vec![grid(1), grid(3), grid(5)];
    assert_eq!(lower_bound(&keys, &grid(0)), 0);
    assert_eq!(lower_bound(&keys, &grid(1)), 0);
    assert_eq!(lower_bound(&keys, &grid(2)), 1);
    assert_eq!(lower_bound(&keys, &grid(5)), 2);
    assert_eq!(lower_bound(&keys, &grid(6)), 3);
    assert_eq!(lower_bound(&vec![], &grid(6)), 0);
    assert_eq!(find_key(&keys, &grid(3)), Some(1));
    assert_eq!(find_key(&keys, &grid(4)), None);
    assert_eq!(find_column(&two_cols(), &NasIndex::Dof(Dof::Ty)), Some(1));
    assert_eq!(find_column(&two_cols(), &NasIndex::Dof(Dof::Rz)), None);
    let twice = vec![NasIndex::Dof(Dof::Ty), NasIndex::Dof(Dof::Ty)];
    assert_eq!(find_column(&twice, &NasIndex::Dof(Dof::Ty)), Some(0));
    assert!(same_keys(&keys, &vec![grid(1), grid(3), grid(5)]));
    assert!(!same_keys(&keys, &vec![grid(1), grid(3)]));
    assert!(!same_keys(&keys, &vec![grid(1), grid(3), grid(6)]));
    assert_eq!(copy_row(&vec![num(1), num(2)]), vec![num(1), num(2)]);
}

#[test]
fn ranges_of_lines_unite_to_the_range_that_covers_both() {
    assert_eq!(union_of_spans(None, None), None);
    assert_eq!(union_of_spans(Some((3, 5)), None), Some((3, 5)));
    assert_eq!(union_of_spans(None, Some((3, 5))), Some((3, 5)));
    assert_eq!(union_of_spans(Some((3, 5)), Some((10, 12))), Some((3, 12)));
    assert_eq!(union_of_spans(Some((10, 12)), Some((3, 5))), Some((3, 12)));
    assert_eq!(union_of_spans(Some((1, 20)), Some((3, 5))), Some((1, 20)));
}

#[test]
fn merging_two_parts_gives_the_rows_of_both() {
    let mut a = block(&[1, 2, 5], 0, 1, Some((10, 20)));
    let b = block(&[3, 4, 6], 1000, 1, Some((30, 40)));
    assert!(a.can_merge(&b));
    assert!(a.try_merge(&b));
    assert_eq!(a.row_indexes, vec![grid(1), grid(2), grid(3), grid(4), grid(5), grid(6)]);
    assert_eq!(a.line_range, Some((10, 40)));
    assert_eq!(a.block_type, BlockType::Displacements);
    assert_eq!(a.subcase, 1);
    assert_eq!(a.get(grid(2), NasIndex::Dof(Dof::Tx)), Some(num(2)));
    assert_eq!(a.get(grid(4), NasIndex::Dof(Dof::Ty)), Some(num(1104)));
    let rows = a.row_indexes.clone();
    let data = a.data.clone();
    assert!(a.try_merge(&b));
    assert_eq!(a.row_indexes, rows);
    assert_eq!(a.data, data);
    assert_eq!(a.line_range, Some((10, 40)));
}

#[test]
fn merging_lets_the_later_part_win_under_a_shared_key() {
    let mut a = block(&[1, 2], 0, 1, None);
    let b = block(&[2, 3], 1000, 1, Some((5, 6)));
    assert!(a.try_merge(&b));
    assert_eq!(a.row_indexes, vec![grid(1), grid(2), grid(3)]);
    assert_eq!(a.get(grid(1), NasIndex::Dof(Dof::Tx)), Some(num(1)));
    assert_eq!(a.get(grid(2), NasIndex::Dof(Dof::Tx)), Some(num(1002)));
    assert_eq!(a.get(grid(3), NasIndex::Dof(Dof::Tx)), Some(num(1003)));
    assert_eq!(a.line_range, Some((5, 6)));
}

#[test]
fn blocks_of_other_tables_are_not_merged() {
    let mut a = block(&[1], 0, 1, Some((1, 2)));
    let other_subcase = block(&[2], 0, 2, Some((3, 4)));
    assert!(!a.can_merge(&other_subcase));
    assert!(!a.try_merge(&other_subcase));
    assert_eq!(a.row_indexes, vec![grid(1)]);
    assert_eq!(a.line_range, Some((1, 2)));
    let mut rb = RowBlock::new(two_cols());
    rb.insert(grid(2), vec![num(1), num(2)]);
    let other_type = rb.finalise(BlockType::SpcForces, 1, None);
    assert!(!a.try_merge(&other_type));
    let mut rb = RowBlock::new(vec![NasIndex::Dof(Dof::Tx), NasIndex::Dof(Dof::Tz)]);
    rb.insert(grid(2), vec![num(1), num(2)]);
    let other_cols = rb.finalise(BlockType::Displacements, 1, None);
    assert!(!a.try_merge(&other_cols));
    assert_eq!(a.row_indexes, vec![grid(1)]);
}
