//! What holds of every parse: laws of the parser, proved from its
//! definition.

use vstd::prelude::*;
use vstd::string::StringSliceAdditionalSpecFns;
use vstd::string::is_ascii_spec_bytes;
use crate::blocks::BlockView;
use crate::blocks::LineResponse;
use crate::blocks::decoders::DecoderView;
use crate::blocks::decoders::balance_step;
use crate::blocks::decoders::cols_of;
use crate::blocks::decoders::decoder_after;
use crate::blocks::decoders::decoder_response;
use crate::blocks::decoders::grid_response;
use crate::blocks::decoders::grid_row;
use crate::blocks::decoders::quad_step;
use crate::blocks::decoders::reads_grid_rows;
use crate::blocks::decoders::with_row;
use crate::blocks::types::BlockType;
use crate::blocks::types::lemma_all_holds_every_type;
use crate::flavour::Flavour;
use crate::indexing::NasIndex;
use crate::numbers::Decimal;
use crate::parser::ActiveView;
use crate::parser::ParserView;
use crate::parser::UNTERMINATED_MESSAGE;
use crate::parser::active_block;
use crate::parser::finished;
use crate::parser::header_from;
use crate::parser::header_of;
use crate::parser::holds_header_of;
use crate::parser::next_line;
use crate::parser::notes;
use crate::parser::opened;
use crate::parser::recorded;
use crate::parser::run;
use crate::parser::starts_with_number;
use crate::parser::step;
use crate::parser::subcase_in;
use crate::text::contains;
use crate::text::has;
use crate::text::is_plain;
use crate::text::lemma_spelling_variants;
use crate::text::normalised;
use crate::text::occurs_at;
use crate::text::spaced;

verus! {

/// Both spellings of a header are headers of the same block type and open
/// the same decoder, whatever the flavour: a text and its letter-spaced
/// spelling have one plain form, and the plain form alone decides.
pub proof fn lemma_header_spellings(x: Seq<u8>, t: BlockType, flavour: Flavour)
    requires
        is_plain(x),
    ensures
        normalised(spaced(x)) == normalised(x),
        header_of(normalised(spaced(x))) == header_of(normalised(x)),
        opened(t, flavour, normalised(spaced(x))) == opened(t, flavour, normalised(x)),
{
    lemma_spelling_variants(x);
}

/// A text that holds a header of a block type is the header of some block
/// type of the catalogue: of that type, or of one that stands before it.
pub proof fn lemma_header_found(t: BlockType, text: Seq<u8>)
    requires
        holds_header_of(t, text),
    ensures
        header_of(text).is_some(),
        header_of(text).unwrap().spec_ordinal() <= t.spec_ordinal(),
        holds_header_of(header_of(text).unwrap(), text),
{
    lemma_all_holds_every_type(t);
    lemma_header_from(text, 0, t.spec_ordinal());
}

/// The search for a header from position `i` finds a type at or before a
/// position at which the text holds a header.
pub proof fn lemma_header_from(text: Seq<u8>, i: int, at: int)
    requires
        0 <= i <= at < BlockType::spec_all().len(),
        holds_header_of(BlockType::spec_all()[at], text),
    ensures
        header_from(text, i).is_some(),
        header_from(text, i).unwrap().spec_ordinal() <= at,
        holds_header_of(header_from(text, i).unwrap(), text),
    decreases at - i,
{
    if holds_header_of(BlockType::spec_all()[i], text) {
        lemma_ordinal_of_all(i);
    } else {
        lemma_header_from(text, i + 1, at);
    }
}

/// The block type at a position of the catalogue has that position as its
/// ordinal.
pub proof fn lemma_ordinal_of_all(i: int)
    requires
        0 <= i < BlockType::spec_all().len(),
    ensures
        BlockType::spec_all()[i].spec_ordinal() == i,
{
}

/// A line that comes while no block is being decoded makes no block and
/// changes none. Unless it is a header it opens no block either, and where
/// it starts with a number and is no header it is not recorded as a
/// potential header.
pub proof fn lemma_line_outside_block(s: ParserView, l: Seq<u8>)
    requires
        s.active.is_none(),
    ensures
        step(s, l).blocks == s.blocks,
        step(s, l).fatal_errors == s.fatal_errors,
        step(s, l).warnings == s.warnings,
        header_of(normalised(l)).is_none() ==> step(s, l).active.is_none(),
        header_of(normalised(l)).is_none() && starts_with_number(normalised(l)) ==> step(
            s,
            l,
        ).potential_headers == s.potential_headers,
{
}

/// No line changes a block that is finished: the finished blocks before a
/// line are the first of the finished blocks after it, and a line adds one
/// block at most.
pub proof fn lemma_blocks_only_grow(s: ParserView, l: Seq<u8>)
    ensures
        s.blocks.len() <= step(s, l).blocks.len() <= s.blocks.len() + 1,
        step(s, l).blocks.take(s.blocks.len() as int) == s.blocks,
{
    let after = step(s, l);
    assert(after.blocks.take(s.blocks.len() as int) =~= s.blocks);
}

/// A line that makes the active decoder give up loses the active block
/// and nothing else: the finished blocks stay as they are, no block is
/// being decoded any more, and one fatal error is noted at the line.
pub proof fn lemma_fatal_line_drops_one_block(s: ParserView, l: Seq<u8>)
    requires
        s.active.is_some(),
        subcase_in(l).is_none(),
        header_of(normalised(l)).is_none(),
        decoder_response(s.active.unwrap().decoder, l) == LineResponse::Abort || decoder_response(
            s.active.unwrap().decoder,
            l,
        ) == LineResponse::BadFlavour,
    ensures
        step(s, l).blocks == s.blocks,
        step(s, l).active.is_none(),
        step(s, l).fatal_errors.len() == s.fatal_errors.len() + 1,
        step(s, l).fatal_errors.last().0 == next_line(s.line_no),
        step(s, l).warnings == s.warnings,
{
}

/// A decoder after it has been fed lines, one by one.
pub open spec fn fed(d: DecoderView, lines: Seq<Seq<u8>>) -> DecoderView
    decreases lines.len(),
{
    if lines.len() == 0 {
        d
    } else {
        decoder_after(fed(d, lines.drop_last()), lines.last())
    }
}

/// Whether a line is left to the active decoder: it announces no subcase
/// and is the header of no block.
pub open spec fn is_block_line(l: Seq<u8>) -> bool {
    subcase_in(l).is_none() && header_of(normalised(l)).is_none()
}

/// Whether an answer lets the block go on.
pub open spec fn goes_further(r: LineResponse) -> bool {
    r == LineResponse::Data || r == LineResponse::Metadata || r == LineResponse::Useless
}

/// Whether lines are the inside of a block for a decoder: each is left to
/// the decoder, and the decoder goes on after each.
pub open spec fn inside_block(d: DecoderView, lines: Seq<Seq<u8>>) -> bool {
    forall|i: int|
        0 <= i < lines.len() ==> is_block_line(#[trigger] lines[i]) && goes_further(
            decoder_response(fed(d, lines.take(i)), lines[i]),
        )
}

/// The row that a line gives a decoder, with its key.
pub open spec fn row_given(d: DecoderView, l: Seq<u8>) -> Option<(NasIndex, Seq<Decimal>)> {
    if reads_grid_rows(d.kind) {
        if grid_response(l) == LineResponse::Data {
            grid_row(l)
        } else {
            None
        }
    } else if d.kind == BlockType::GridPointForceBalance {
        balance_step(d.flavour.solver, d.gpref, l).row
    } else {
        quad_step(d.flavour.solver, d.etype, d.cur_row, l).row
    }
}

/// A line gives a decoder a row exactly where the decoder answers that
/// the line is data, and the decoder's rows after the line are its rows
/// before with that row put in.
pub proof fn lemma_row_given(d: DecoderView, l: Seq<u8>)
    ensures
        row_given(d, l).is_some() <==> decoder_response(d, l) == LineResponse::Data,
        decoder_after(d, l).table == with_row(d.table, row_given(d, l)),
        decoder_after(d, l).kind == d.kind,
{
}

/// The row that line `i` of a block gives the decoder that has read the
/// lines before it.
pub open spec fn row_of_line(d: DecoderView, lines: Seq<Seq<u8>>, i: int) -> Option<
    (NasIndex, Seq<Decimal>),
> {
    row_given(fed(d, lines.take(i)), lines[i])
}

/// Feeding a decoder lines that each give a row, under keys that differ
/// from line to line, gives as many rows as there are lines, and under the
/// key of each line the values of that line.
pub proof fn lemma_rows_of_lines(d: DecoderView, lines: Seq<Seq<u8>>)
    requires
        d.table == Map::<NasIndex, Seq<Decimal>>::empty(),
        forall|i: int| 0 <= i < lines.len() ==> (#[trigger] row_of_line(d, lines, i)).is_some(),
        forall|i: int, j: int|
            0 <= i < j < lines.len() ==> (#[trigger] row_of_line(d, lines, i)).unwrap().0 != (
            #[trigger] row_of_line(d, lines, j)).unwrap().0,
    ensures
        fed(d, lines).table.dom().finite(),
        fed(d, lines).table.dom().len() == lines.len(),
        forall|i: int|
            0 <= i < lines.len() ==> fed(d, lines).table.dom().contains(
                (#[trigger] row_of_line(d, lines, i)).unwrap().0,
            ) && fed(d, lines).table[row_of_line(d, lines, i).unwrap().0] == row_of_line(
                d,
                lines,
                i,
            ).unwrap().1,
        forall|k: NasIndex|
            fed(d, lines).table.dom().contains(k) ==> exists|i: int|
                0 <= i < lines.len() && (#[trigger] row_of_line(d, lines, i)).unwrap().0 == k,
    decreases lines.len(),
{
    if lines.len() > 0 {
        let front = lines.drop_last();
        let n = front.len() as int;
        assert forall|i: int| 0 <= i < front.len() implies row_of_line(d, front, i) == row_of_line(
            d,
            lines,
            i,
        ) by {
            assert(front.take(i) =~= lines.take(i));
        }
        assert forall|i: int| 0 <= i < front.len() implies (#[trigger] row_of_line(d, front, i)).is_some() by {
            assert(row_of_line(d, lines, i).is_some());
        }
        assert forall|i: int, j: int| 0 <= i < j < front.len() implies (#[trigger] row_of_line(
            d,
            front,
            i,
        )).unwrap().0 != (#[trigger] row_of_line(d, front, j)).unwrap().0 by {
            assert(row_of_line(d, lines, i).unwrap().0 != row_of_line(d, lines, j).unwrap().0);
        }
        lemma_rows_of_lines(d, front);
        assert(lines.take(n) =~= front);
        let before = fed(d, front);
        let row = row_of_line(d, lines, n);
        assert(row.is_some());
        lemma_row_given(before, lines.last());
        let after = fed(d, lines);
        assert(after.table == before.table.insert(row.unwrap().0, row.unwrap().1));
        assert(!before.table.dom().contains(row.unwrap().0)) by {
            if before.table.dom().contains(row.unwrap().0) {
                let i = choose|i: int|
                    0 <= i < front.len() && (#[trigger] row_of_line(d, front, i)).unwrap().0
                        == row.unwrap().0;
                assert(row_of_line(d, lines, i).unwrap().0 != row_of_line(d, lines, n).unwrap().0);
            }
        }
        assert forall|i: int| 0 <= i < lines.len() implies after.table.dom().contains(
            (#[trigger] row_of_line(d, lines, i)).unwrap().0,
        ) && after.table[row_of_line(d, lines, i).unwrap().0] == row_of_line(d, lines, i).unwrap().1 by {
            if i < n {
                assert(row_of_line(d, front, i) == row_of_line(d, lines, i));
                assert(row_of_line(d, lines, i).unwrap().0 != row_of_line(d, lines, n).unwrap().0);
            }
        }
        assert forall|k: NasIndex| after.table.dom().contains(k) implies exists|i: int|
            0 <= i < lines.len() && (#[trigger] row_of_line(d, lines, i)).unwrap().0 == k by {
            if k == row.unwrap().0 {
                assert(row_of_line(d, lines, n).unwrap().0 == k);
            } else {
                let i = choose|i: int|
                    0 <= i < front.len() && (#[trigger] row_of_line(d, front, i)).unwrap().0 == k;
                assert(row_of_line(d, lines, i).unwrap().0 == k);
            }
        }
    }
}

/// A line of the inside of a block is fed to the active decoder, and
/// nothing else in the parse changes but the count of lines and what is
/// known of the flavour.
pub proof fn lemma_line_inside_block(s: ParserView, l: Seq<u8>)
    requires
        s.active.is_some(),
        is_block_line(l),
        goes_further(decoder_response(s.active.unwrap().decoder, l)),
        s.line_no < usize::MAX,
    ensures
        step(s, l).active == Some(
            ActiveView {
                decoder: decoder_after(s.active.unwrap().decoder, l),
                first_line: s.active.unwrap().first_line,
                last_line: (s.line_no + 1) as usize,
            },
        ),
        step(s, l).line_no == s.line_no + 1,
        step(s, l).subcase == s.subcase,
        step(s, l).blocks == s.blocks,
        step(s, l).warnings == s.warnings,
        step(s, l).fatal_errors == s.fatal_errors,
        step(s, l).potential_headers == s.potential_headers,
{
}

/// While the lines of the inside of a block are read, the active decoder
/// is fed each of them, and nothing else in the parse changes but the count
/// of lines and what is known of the flavour.
pub proof fn lemma_inside_block(s: ParserView, lines: Seq<Seq<u8>>)
    requires
        s.active.is_some(),
        inside_block(s.active.unwrap().decoder, lines),
        s.line_no + lines.len() <= usize::MAX,
    ensures
        run(s, lines).active.is_some(),
        run(s, lines).active.unwrap().decoder == fed(s.active.unwrap().decoder, lines),
        run(s, lines).active.unwrap().first_line == s.active.unwrap().first_line,
        run(s, lines).active.unwrap().last_line == (if lines.len() == 0 {
            s.active.unwrap().last_line
        } else {
            (s.line_no + lines.len()) as usize
        }),
        run(s, lines).line_no == s.line_no + lines.len(),
        run(s, lines).subcase == s.subcase,
        run(s, lines).blocks == s.blocks,
        run(s, lines).warnings == s.warnings,
        run(s, lines).fatal_errors == s.fatal_errors,
        run(s, lines).potential_headers == s.potential_headers,
    decreases lines.len(),
{
    if lines.len() > 0 {
        let front = lines.drop_last();
        let d = s.active.unwrap().decoder;
        assert forall|i: int| 0 <= i < front.len() implies is_block_line(#[trigger] front[i])
            && goes_further(decoder_response(fed(d, front.take(i)), front[i])) by {
            assert(front.take(i) =~= lines.take(i));
            assert(is_block_line(lines[i]));
        }
        lemma_inside_block(s, front);
        assert(lines.take(front.len() as int) =~= front);
        assert(is_block_line(lines[front.len() as int]));
        assert(lines.last() == lines[front.len() as int]);
        lemma_line_inside_block(run(s, front), lines.last());
    }
}

/// A header that opens a block, read while no block is being decoded,
/// makes its decoder the active one, and finishes, drops and notes nothing.
pub proof fn lemma_header_line(s: ParserView, header: Seq<u8>, t: BlockType)
    requires
        s.active.is_none(),
        subcase_in(header).is_none(),
        header_of(normalised(header)) == Some(t),
        opened(t, s.flavour.spec_detect(header), normalised(header)).is_some(),
        s.line_no < usize::MAX,
    ensures
        step(s, header).active == Some(
            ActiveView {
                decoder: opened(t, s.flavour.spec_detect(header), normalised(header)).unwrap(),
                first_line: (s.line_no + 1) as usize,
                last_line: (s.line_no + 1) as usize,
            },
        ),
        step(s, header).line_no == s.line_no + 1,
        step(s, header).subcase == s.subcase,
        step(s, header).blocks == s.blocks,
        step(s, header).warnings == s.warnings,
        step(s, header).fatal_errors == s.fatal_errors,
        step(s, header).potential_headers == s.potential_headers,
{
}

/// The end of a report finishes the active block where it has a row, and
/// drops it with a warning at its header where it has none.
pub proof fn lemma_end_of_report(s: ParserView)
    requires
        s.active.is_some(),
    ensures
        s.active.unwrap().decoder.table.dom().len() > 0 ==> finished(s).blocks == s.blocks.push(
            active_block(s.active.unwrap(), s.subcase),
        ) && finished(s).warnings == s.warnings,
        s.active.unwrap().decoder.table.dom().len() == 0 ==> finished(s).blocks == s.blocks
            && finished(s).warnings == s.warnings.push(
            (s.active.unwrap().first_line, UNTERMINATED_MESSAGE@),
        ),
        finished(s).fatal_errors == s.fatal_errors,
        finished(s).potential_headers == s.potential_headers,
{
}

/// A header, the inside of a block and a line that ends the block give one
/// more finished block: of the header's type, under the subcase of the
/// parse, over the lines from the header to the ending line, with the
/// columns of the type and the rows that the decoder has read. Nothing else
/// is finished, dropped or noted.
pub proof fn lemma_terminated_block(
    s: ParserView,
    header: Seq<u8>,
    t: BlockType,
    inside: Seq<Seq<u8>>,
    end: Seq<u8>,
)
    requires
        s.active.is_none(),
        subcase_in(header).is_none(),
        header_of(normalised(header)) == Some(t),
        opened(t, s.flavour.spec_detect(header), normalised(header)).is_some(),
        inside_block(
            opened(t, s.flavour.spec_detect(header), normalised(header)).unwrap(),
            inside,
        ),
        is_block_line(end),
        decoder_response(
            fed(opened(t, s.flavour.spec_detect(header), normalised(header)).unwrap(), inside),
            end,
        ) == LineResponse::Done,
        s.line_no + inside.len() + 2 <= usize::MAX,
    ensures
        run(s, seq![header] + inside + seq![end]).active.is_none(),
        run(s, seq![header] + inside + seq![end]).blocks == s.blocks.push(
            BlockView {
                block_type: t,
                subcase: s.subcase,
                line_range: Some(((s.line_no + 1) as usize, (s.line_no + inside.len() + 2) as usize)),
                cols: cols_of(t),
                rows: fed(
                    opened(t, s.flavour.spec_detect(header), normalised(header)).unwrap(),
                    inside,
                ).table,
            },
        ),
        run(s, seq![header] + inside + seq![end]).warnings == s.warnings,
        run(s, seq![header] + inside + seq![end]).fatal_errors == s.fatal_errors,
        run(s, seq![header] + inside + seq![end]).potential_headers == s.potential_headers,
{
    let d0 = opened(t, s.flavour.spec_detect(header), normalised(header)).unwrap();
    let s1 = step(s, header);
    lemma_run_after_first(s, header, inside);
    lemma_inside_block(s1, inside);
    let s2 = run(s1, inside);
    let all = seq![header] + inside + seq![end];
    assert(all.drop_last() =~= seq![header] + inside);
    assert(all.last() == end);
    assert(run(s, all) == step(s2, end));
    lemma_fed_keeps_kind(d0, inside);
    lemma_row_given(fed(d0, inside), end);
    assert(cols_of(fed(d0, inside).kind) == cols_of(t));
}

/// Feeding a decoder does not change the type of block that it reads.
pub proof fn lemma_fed_keeps_kind(d: DecoderView, lines: Seq<Seq<u8>>)
    ensures
        fed(d, lines).kind == d.kind,
        fed(d, lines).flavour == d.flavour,
    decreases lines.len(),
{
    if lines.len() > 0 {
        lemma_fed_keeps_kind(d, lines.drop_last());
    }
}

/// Reading a line and then more lines is reading them all.
pub proof fn lemma_run_after_first(s: ParserView, first: Seq<u8>, rest: Seq<Seq<u8>>)
    ensures
        run(s, seq![first] + rest) == run(step(s, first), rest),
    decreases rest.len(),
{
    let all = seq![first] + rest;
    if rest.len() == 0 {
        assert(all.drop_last() =~= Seq::<Seq<u8>>::empty());
        assert(all.last() == first);
        assert(run(s, all.drop_last()) == s);
    } else {
        lemma_run_after_first(s, first, rest.drop_last());
        assert(all.drop_last() =~= seq![first] + rest.drop_last());
        assert(all.last() == rest.last());
    }
}

/// A header and the inside of a block at the end of a report give one more
/// finished block where the decoder has read a row, and a warning at the
/// header where it has read none.
pub proof fn lemma_block_at_end_of_report(
    s: ParserView,
    header: Seq<u8>,
    t: BlockType,
    inside: Seq<Seq<u8>>,
)
    requires
        s.active.is_none(),
        subcase_in(header).is_none(),
        header_of(normalised(header)) == Some(t),
        opened(t, s.flavour.spec_detect(header), normalised(header)).is_some(),
        inside_block(
            opened(t, s.flavour.spec_detect(header), normalised(header)).unwrap(),
            inside,
        ),
        s.line_no + inside.len() + 1 <= usize::MAX,
    ensures
        fed(
            opened(t, s.flavour.spec_detect(header), normalised(header)).unwrap(),
            inside,
        ).table.dom().len() > 0 ==> finished(run(s, seq![header] + inside)).blocks == s.blocks.push(
            BlockView {
                block_type: t,
                subcase: s.subcase,
                line_range: Some(((s.line_no + 1) as usize, (s.line_no + inside.len() + 1) as usize)),
                cols: cols_of(t),
                rows: fed(
                    opened(t, s.flavour.spec_detect(header), normalised(header)).unwrap(),
                    inside,
                ).table,
            },
        ) && finished(run(s, seq![header] + inside)).warnings == s.warnings,
        fed(
            opened(t, s.flavour.spec_detect(header), normalised(header)).unwrap(),
            inside,
        ).table.dom().len() == 0 ==> finished(run(s, seq![header] + inside)).blocks == s.blocks
            && finished(run(s, seq![header] + inside)).warnings == s.warnings.push(
            ((s.line_no + 1) as usize, UNTERMINATED_MESSAGE@),
        ),
        finished(run(s, seq![header] + inside)).fatal_errors == s.fatal_errors,
        finished(run(s, seq![header] + inside)).potential_headers == s.potential_headers,
{
    let d0 = opened(t, s.flavour.spec_detect(header), normalised(header)).unwrap();
    let s1 = step(s, header);
    lemma_run_after_first(s, header, inside);
    lemma_header_line(s, header, t);
    lemma_inside_block(s1, inside);
    lemma_fed_keeps_kind(d0, inside);
    let s2 = run(s1, inside);
    lemma_end_of_report(s2);
    assert(s2.active.unwrap().last_line == (s.line_no + inside.len() + 1) as usize);
    assert(cols_of(fed(d0, inside).kind) == cols_of(t));
}

/// Every header of the catalogue is in plain form.
pub proof fn lemma_catalogue_is_plain(t: BlockType, k: int)
    requires
        0 <= k < t.spec_headers().len(),
    ensures
        is_plain(t.spec_headers()[k].spec_bytes()),
{
    match t {
        BlockType::Displacements => {
            if k == 0 {
                reveal_strlit("DISPLACEMENTS");
                is_ascii_spec_bytes("DISPLACEMENTS");
                assert(vstd::string::is_ascii("DISPLACEMENTS"));
                assert("DISPLACEMENTS".spec_bytes()[2 * 0int + 1] != 32);
            }
            if k == 1 {
                reveal_strlit("DISPLACEMENT VECTOR");
                is_ascii_spec_bytes("DISPLACEMENT VECTOR");
                assert(vstd::string::is_ascii("DISPLACEMENT VECTOR"));
                assert("DISPLACEMENT VECTOR".spec_bytes()[2 * 0int + 1] != 32);
            }
        },
        BlockType::GridPointForceBalance => {
            if k == 0 {
                reveal_strlit("GRID POINT FORCE BALANCE");
                is_ascii_spec_bytes("GRID POINT FORCE BALANCE");
                assert(vstd::string::is_ascii("GRID POINT FORCE BALANCE"));
                assert("GRID POINT FORCE BALANCE".spec_bytes()[2 * 0int + 1] != 32);
            }
        },
        BlockType::SpcForces => {
            if k == 0 {
                reveal_strlit("SPC FORCES");
                is_ascii_spec_bytes("SPC FORCES");
                assert(vstd::string::is_ascii("SPC FORCES"));
                assert("SPC FORCES".spec_bytes()[2 * 0int + 1] != 32);
            }
            if k == 1 {
                reveal_strlit("FORCES OF SINGLE-POINT CONSTRAINT");
                is_ascii_spec_bytes("FORCES OF SINGLE-POINT CONSTRAINT");
                assert(vstd::string::is_ascii("FORCES OF SINGLE-POINT CONSTRAINT"));
                assert("FORCES OF SINGLE-POINT CONSTRAINT".spec_bytes()[2 * 0int + 1] != 32);
            }
        },
        BlockType::AppliedForces => {
            if k == 0 {
                reveal_strlit("APPLIED FORCES");
                is_ascii_spec_bytes("APPLIED FORCES");
                assert(vstd::string::is_ascii("APPLIED FORCES"));
                assert("APPLIED FORCES".spec_bytes()[2 * 0int + 1] != 32);
            }
            if k == 1 {
                reveal_strlit("LOAD VECTOR");
                is_ascii_spec_bytes("LOAD VECTOR");
                assert(vstd::string::is_ascii("LOAD VECTOR"));
                assert("LOAD VECTOR".spec_bytes()[2 * 0int + 1] != 32);
            }
        },
        BlockType::QuadStresses => {
            if k == 0 {
                reveal_strlit("STRESSES IN QUADRILATERAL ELEMENTS");
                is_ascii_spec_bytes("STRESSES IN QUADRILATERAL ELEMENTS");
                assert(vstd::string::is_ascii("STRESSES IN QUADRILATERAL ELEMENTS"));
                assert("STRESSES IN QUADRILATERAL ELEMENTS".spec_bytes()[2 * 0int + 1] != 32);
            }
            if k == 1 {
                reveal_strlit("ELEMENT STRESSES IN LOCAL ELEMENT COORDINATE SYSTEM FOR ELEMENT TYPE QUAD4");
                is_ascii_spec_bytes("ELEMENT STRESSES IN LOCAL ELEMENT COORDINATE SYSTEM FOR ELEMENT TYPE QUAD4");
                assert(vstd::string::is_ascii("ELEMENT STRESSES IN LOCAL ELEMENT COORDINATE SYSTEM FOR ELEMENT TYPE QUAD4"));
                assert("ELEMENT STRESSES IN LOCAL ELEMENT COORDINATE SYSTEM FOR ELEMENT TYPE QUAD4".spec_bytes()[2 * 0int + 1] != 32);
            }
        },
        BlockType::QuadStrains => {
            if k == 0 {
                reveal_strlit("STRAINS IN QUADRILATERAL ELEMENTS");
                is_ascii_spec_bytes("STRAINS IN QUADRILATERAL ELEMENTS");
                assert(vstd::string::is_ascii("STRAINS IN QUADRILATERAL ELEMENTS"));
                assert("STRAINS IN QUADRILATERAL ELEMENTS".spec_bytes()[2 * 0int + 1] != 32);
            }
            if k == 1 {
                reveal_strlit("ELEMENT STRAINS IN LOCAL ELEMENT COORDINATE SYSTEM FOR ELEMENT TYPE QUAD4");
                is_ascii_spec_bytes("ELEMENT STRAINS IN LOCAL ELEMENT COORDINATE SYSTEM FOR ELEMENT TYPE QUAD4");
                assert(vstd::string::is_ascii("ELEMENT STRAINS IN LOCAL ELEMENT COORDINATE SYSTEM FOR ELEMENT TYPE QUAD4"));
                assert("ELEMENT STRAINS IN LOCAL ELEMENT COORDINATE SYSTEM FOR ELEMENT TYPE QUAD4".spec_bytes()[2 * 0int + 1] != 32);
            }
        },
        BlockType::QuadForces => {
            if k == 0 {
                reveal_strlit("FORCES IN QUADRILATERAL ELEMENTS");
                is_ascii_spec_bytes("FORCES IN QUADRILATERAL ELEMENTS");
                assert(vstd::string::is_ascii("FORCES IN QUADRILATERAL ELEMENTS"));
                assert("FORCES IN QUADRILATERAL ELEMENTS".spec_bytes()[2 * 0int + 1] != 32);
            }
            if k == 1 {
                reveal_strlit("ELEMENT ENGINEERING FORCES FOR ELEMENT TYPE QUAD4");
                is_ascii_spec_bytes("ELEMENT ENGINEERING FORCES FOR ELEMENT TYPE QUAD4");
                assert(vstd::string::is_ascii("ELEMENT ENGINEERING FORCES FOR ELEMENT TYPE QUAD4"));
                assert("ELEMENT ENGINEERING FORCES FOR ELEMENT TYPE QUAD4".spec_bytes()[2 * 0int + 1] != 32);
            }
        },
        BlockType::TriaForces => {
            if k == 0 {
                reveal_strlit("FORCES IN TRIANGULAR ELEMENTS");
                is_ascii_spec_bytes("FORCES IN TRIANGULAR ELEMENTS");
                assert(vstd::string::is_ascii("FORCES IN TRIANGULAR ELEMENTS"));
                assert("FORCES IN TRIANGULAR ELEMENTS".spec_bytes()[2 * 0int + 1] != 32);
            }
            if k == 1 {
                reveal_strlit("ELEMENT ENGINEERING FORCES FOR ELEMENT TYPE TRIA3");
                is_ascii_spec_bytes("ELEMENT ENGINEERING FORCES FOR ELEMENT TYPE TRIA3");
                assert(vstd::string::is_ascii("ELEMENT ENGINEERING FORCES FOR ELEMENT TYPE TRIA3"));
                assert("ELEMENT ENGINEERING FORCES FOR ELEMENT TYPE TRIA3".spec_bytes()[2 * 0int + 1] != 32);
            }
        },
        BlockType::RodForces => {
            if k == 0 {
                reveal_strlit("FORCES IN ROD ELEMENTS");
                is_ascii_spec_bytes("FORCES IN ROD ELEMENTS");
                assert(vstd::string::is_ascii("FORCES IN ROD ELEMENTS"));
                assert("FORCES IN ROD ELEMENTS".spec_bytes()[2 * 0int + 1] != 32);
            }
            if k == 1 {
                reveal_strlit("ELEMENT ENGINEERING FORCES FOR ELEMENT TYPE ROD");
                is_ascii_spec_bytes("ELEMENT ENGINEERING FORCES FOR ELEMENT TYPE ROD");
                assert(vstd::string::is_ascii("ELEMENT ENGINEERING FORCES FOR ELEMENT TYPE ROD"));
                assert("ELEMENT ENGINEERING FORCES FOR ELEMENT TYPE ROD".spec_bytes()[2 * 0int + 1] != 32);
            }
        },
        BlockType::BarForces => {
            if k == 0 {
                reveal_strlit("FORCES IN BAR ELEMENTS");
                is_ascii_spec_bytes("FORCES IN BAR ELEMENTS");
                assert(vstd::string::is_ascii("FORCES IN BAR ELEMENTS"));
                assert("FORCES IN BAR ELEMENTS".spec_bytes()[2 * 0int + 1] != 32);
            }
            if k == 1 {
                reveal_strlit("ELEMENT ENGINEERING FORCES FOR ELEMENT TYPE BAR");
                is_ascii_spec_bytes("ELEMENT ENGINEERING FORCES FOR ELEMENT TYPE BAR");
                assert(vstd::string::is_ascii("ELEMENT ENGINEERING FORCES FOR ELEMENT TYPE BAR"));
                assert("ELEMENT ENGINEERING FORCES FOR ELEMENT TYPE BAR".spec_bytes()[2 * 0int + 1] != 32);
            }
        },
        BlockType::Elas1Forces => {
            if k == 0 {
                reveal_strlit("FORCES IN SCALAR SPRINGS (CELAS1)");
                is_ascii_spec_bytes("FORCES IN SCALAR SPRINGS (CELAS1)");
                assert(vstd::string::is_ascii("FORCES IN SCALAR SPRINGS (CELAS1)"));
                assert("FORCES IN SCALAR SPRINGS (CELAS1)".spec_bytes()[2 * 0int + 1] != 32);
            }
            if k == 1 {
                reveal_strlit("ELEMENT ENGINEERING FORCES FOR ELEMENT TYPE ELAS1");
                is_ascii_spec_bytes("ELEMENT ENGINEERING FORCES FOR ELEMENT TYPE ELAS1");
                assert(vstd::string::is_ascii("ELEMENT ENGINEERING FORCES FOR ELEMENT TYPE ELAS1"));
                assert("ELEMENT ENGINEERING FORCES FOR ELEMENT TYPE ELAS1".spec_bytes()[2 * 0int + 1] != 32);
            }
        },
        BlockType::TriaStresses => {
            if k == 0 {
                reveal_strlit("STRESSES IN TRIANGULAR ELEMENTS (TRIA3)");
                is_ascii_spec_bytes("STRESSES IN TRIANGULAR ELEMENTS (TRIA3)");
                assert(vstd::string::is_ascii("STRESSES IN TRIANGULAR ELEMENTS (TRIA3)"));
                assert("STRESSES IN TRIANGULAR ELEMENTS (TRIA3)".spec_bytes()[2 * 0int + 1] != 32);
            }
            if k == 1 {
                reveal_strlit("ELEMENT STRESSES IN LOCAL ELEMENT COORDINATE SYSTEM FOR ELEMENT TYPE TRIA3");
                is_ascii_spec_bytes("ELEMENT STRESSES IN LOCAL ELEMENT COORDINATE SYSTEM FOR ELEMENT TYPE TRIA3");
                assert(vstd::string::is_ascii("ELEMENT STRESSES IN LOCAL ELEMENT COORDINATE SYSTEM FOR ELEMENT TYPE TRIA3"));
                assert("ELEMENT STRESSES IN LOCAL ELEMENT COORDINATE SYSTEM FOR ELEMENT TYPE TRIA3".spec_bytes()[2 * 0int + 1] != 32);
            }
        },
        BlockType::TriaStrains => {
            if k == 0 {
                reveal_strlit("STRAINS IN TRIANGULAR ELEMENTS (TRIA3)");
                is_ascii_spec_bytes("STRAINS IN TRIANGULAR ELEMENTS (TRIA3)");
                assert(vstd::string::is_ascii("STRAINS IN TRIANGULAR ELEMENTS (TRIA3)"));
                assert("STRAINS IN TRIANGULAR ELEMENTS (TRIA3)".spec_bytes()[2 * 0int + 1] != 32);
            }
            if k == 1 {
                reveal_strlit("ELEMENT STRAINS IN LOCAL ELEMENT COORDINATE SYSTEM FOR ELEMENT TYPE TRIA3");
                is_ascii_spec_bytes("ELEMENT STRAINS IN LOCAL ELEMENT COORDINATE SYSTEM FOR ELEMENT TYPE TRIA3");
                assert(vstd::string::is_ascii("ELEMENT STRAINS IN LOCAL ELEMENT COORDINATE SYSTEM FOR ELEMENT TYPE TRIA3"));
                assert("ELEMENT STRAINS IN LOCAL ELEMENT COORDINATE SYSTEM FOR ELEMENT TYPE TRIA3".spec_bytes()[2 * 0int + 1] != 32);
            }
        },
        BlockType::RodStresses => {
            if k == 0 {
                reveal_strlit("STRESSES IN ROD ELEMENTS (CROD)");
                is_ascii_spec_bytes("STRESSES IN ROD ELEMENTS (CROD)");
                assert(vstd::string::is_ascii("STRESSES IN ROD ELEMENTS (CROD)"));
                assert("STRESSES IN ROD ELEMENTS (CROD)".spec_bytes()[2 * 0int + 1] != 32);
            }
            if k == 1 {
                reveal_strlit("ELEMENT STRESSES IN LOCAL ELEMENT COORDINATE SYSTEM FOR ELEMENT TYPE ROD");
                is_ascii_spec_bytes("ELEMENT STRESSES IN LOCAL ELEMENT COORDINATE SYSTEM FOR ELEMENT TYPE ROD");
                assert(vstd::string::is_ascii("ELEMENT STRESSES IN LOCAL ELEMENT COORDINATE SYSTEM FOR ELEMENT TYPE ROD"));
                assert("ELEMENT STRESSES IN LOCAL ELEMENT COORDINATE SYSTEM FOR ELEMENT TYPE ROD".spec_bytes()[2 * 0int + 1] != 32);
            }
        },
        BlockType::RodStrains => {
            if k == 0 {
                reveal_strlit("STRAINS IN ROD ELEMENTS (CROD)");
                is_ascii_spec_bytes("STRAINS IN ROD ELEMENTS (CROD)");
                assert(vstd::string::is_ascii("STRAINS IN ROD ELEMENTS (CROD)"));
                assert("STRAINS IN ROD ELEMENTS (CROD)".spec_bytes()[2 * 0int + 1] != 32);
            }
            if k == 1 {
                reveal_strlit("ELEMENT STRAINS IN LOCAL ELEMENT COORDINATE SYSTEM FOR ELEMENT TYPE ROD");
                is_ascii_spec_bytes("ELEMENT STRAINS IN LOCAL ELEMENT COORDINATE SYSTEM FOR ELEMENT TYPE ROD");
                assert(vstd::string::is_ascii("ELEMENT STRAINS IN LOCAL ELEMENT COORDINATE SYSTEM FOR ELEMENT TYPE ROD"));
                assert("ELEMENT STRAINS IN LOCAL ELEMENT COORDINATE SYSTEM FOR ELEMENT TYPE ROD".spec_bytes()[2 * 0int + 1] != 32);
            }
        },
        BlockType::BarStresses => {
            if k == 0 {
                reveal_strlit("STRESSES IN BAR ELEMENTS (CBAR)");
                is_ascii_spec_bytes("STRESSES IN BAR ELEMENTS (CBAR)");
                assert(vstd::string::is_ascii("STRESSES IN BAR ELEMENTS (CBAR)"));
                assert("STRESSES IN BAR ELEMENTS (CBAR)".spec_bytes()[2 * 0int + 1] != 32);
            }
            if k == 1 {
                reveal_strlit("ELEMENT STRESSES IN LOCAL ELEMENT COORDINATE SYSTEM FOR ELEMENT TYPE BAR");
                is_ascii_spec_bytes("ELEMENT STRESSES IN LOCAL ELEMENT COORDINATE SYSTEM FOR ELEMENT TYPE BAR");
                assert(vstd::string::is_ascii("ELEMENT STRESSES IN LOCAL ELEMENT COORDINATE SYSTEM FOR ELEMENT TYPE BAR"));
                assert("ELEMENT STRESSES IN LOCAL ELEMENT COORDINATE SYSTEM FOR ELEMENT TYPE BAR".spec_bytes()[2 * 0int + 1] != 32);
            }
        },
        BlockType::BarStrains => {
            if k == 0 {
                reveal_strlit("STRAINS IN BAR ELEMENTS (CBAR)");
                is_ascii_spec_bytes("STRAINS IN BAR ELEMENTS (CBAR)");
                assert(vstd::string::is_ascii("STRAINS IN BAR ELEMENTS (CBAR)"));
                assert("STRAINS IN BAR ELEMENTS (CBAR)".spec_bytes()[2 * 0int + 1] != 32);
            }
            if k == 1 {
                reveal_strlit("ELEMENT STRAINS IN LOCAL ELEMENT COORDINATE SYSTEM FOR ELEMENT TYPE BAR");
                is_ascii_spec_bytes("ELEMENT STRAINS IN LOCAL ELEMENT COORDINATE SYSTEM FOR ELEMENT TYPE BAR");
                assert(vstd::string::is_ascii("ELEMENT STRAINS IN LOCAL ELEMENT COORDINATE SYSTEM FOR ELEMENT TYPE BAR"));
                assert("ELEMENT STRAINS IN LOCAL ELEMENT COORDINATE SYSTEM FOR ELEMENT TYPE BAR".spec_bytes()[2 * 0int + 1] != 32);
            }
        },
        BlockType::Elas1Stresses => {
            if k == 0 {
                reveal_strlit("STRESSES IN SCALAR SPRINGS (CELAS1)");
                is_ascii_spec_bytes("STRESSES IN SCALAR SPRINGS (CELAS1)");
                assert(vstd::string::is_ascii("STRESSES IN SCALAR SPRINGS (CELAS1)"));
                assert("STRESSES IN SCALAR SPRINGS (CELAS1)".spec_bytes()[2 * 0int + 1] != 32);
            }
            if k == 1 {
                reveal_strlit("ELEMENT STRESSES IN LOCAL ELEMENT COORDINATE SYSTEM FOR ELEMENT TYPE ELAS1");
                is_ascii_spec_bytes("ELEMENT STRESSES IN LOCAL ELEMENT COORDINATE SYSTEM FOR ELEMENT TYPE ELAS1");
                assert(vstd::string::is_ascii("ELEMENT STRESSES IN LOCAL ELEMENT COORDINATE SYSTEM FOR ELEMENT TYPE ELAS1"));
                assert("ELEMENT STRESSES IN LOCAL ELEMENT COORDINATE SYSTEM FOR ELEMENT TYPE ELAS1".spec_bytes()[2 * 0int + 1] != 32);
            }
        },
        BlockType::Elas1Strains => {
            if k == 0 {
                reveal_strlit("STRAINS IN SCALAR SPRINGS (CELAS1)");
                is_ascii_spec_bytes("STRAINS IN SCALAR SPRINGS (CELAS1)");
                assert(vstd::string::is_ascii("STRAINS IN SCALAR SPRINGS (CELAS1)"));
                assert("STRAINS IN SCALAR SPRINGS (CELAS1)".spec_bytes()[2 * 0int + 1] != 32);
            }
            if k == 1 {
                reveal_strlit("ELEMENT STRAINS IN LOCAL ELEMENT COORDINATE SYSTEM FOR ELEMENT TYPE ELAS1");
                is_ascii_spec_bytes("ELEMENT STRAINS IN LOCAL ELEMENT COORDINATE SYSTEM FOR ELEMENT TYPE ELAS1");
                assert(vstd::string::is_ascii("ELEMENT STRAINS IN LOCAL ELEMENT COORDINATE SYSTEM FOR ELEMENT TYPE ELAS1"));
                assert("ELEMENT STRAINS IN LOCAL ELEMENT COORDINATE SYSTEM FOR ELEMENT TYPE ELAS1".spec_bytes()[2 * 0int + 1] != 32);
            }
        },
    }
}

/// Both spellings of every header of the catalogue are headers of one
/// block type and open the same decoder, whatever the flavour; and each is
/// the header of some block type.
pub proof fn lemma_catalogue_spellings(t: BlockType, k: int, flavour: Flavour)
    requires
        0 <= k < t.spec_headers().len(),
    ensures
        normalised(t.spec_headers()[k].spec_bytes()) == t.spec_headers()[k].spec_bytes(),
        normalised(spaced(t.spec_headers()[k].spec_bytes())) == t.spec_headers()[k].spec_bytes(),
        holds_header_of(t, normalised(spaced(t.spec_headers()[k].spec_bytes()))),
        header_of(normalised(spaced(t.spec_headers()[k].spec_bytes()))).is_some(),
        header_of(normalised(spaced(t.spec_headers()[k].spec_bytes()))) == header_of(
            normalised(t.spec_headers()[k].spec_bytes()),
        ),
        opened(t, flavour, normalised(spaced(t.spec_headers()[k].spec_bytes()))) == opened(
            t,
            flavour,
            normalised(t.spec_headers()[k].spec_bytes()),
        ),
{
    let h = t.spec_headers()[k].spec_bytes();
    lemma_catalogue_is_plain(t, k);
    lemma_header_spellings(h, t, flavour);
    lemma_spelling_variants(h);
    assert(h.subrange(0, h.len() as int) =~= h);
    assert(occurs_at(h, h, 0));
    assert(contains(h, t.spec_headers()[k].spec_bytes()));
    lemma_header_found(t, h);
}

} // verus!
