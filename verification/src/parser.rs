//! The one-pass parser: it is fed the lines of a report in order, finds the
//! headers of known blocks, hands the lines of each block to its decoder,
//! and keeps the finished blocks and what it has to say about the rest.

use vstd::prelude::*;
use vstd::slice::slice_subrange;
use vstd::string::StringSliceAdditionalSpecFns;
use crate::blocks::decoders::block_of;
use crate::blocks::decoders::decoder_after;
use crate::blocks::decoders::decoder_response;
use crate::blocks::decoders::fresh;
use crate::blocks::decoders::header_accepted;
use crate::blocks::decoders::supported;
use crate::blocks::decoders::with_header;
use crate::blocks::decoders::Decoder;
use crate::blocks::decoders::DecoderView;
use crate::blocks::types::BlockType;
use crate::blocks::BlockView;
use crate::blocks::FinalBlock;
use crate::blocks::LineResponse;
use crate::flavour::Flavour;
use crate::fields::breakdown;
use crate::fields::fields;
use crate::fields::naturals_of;
use crate::fields::nth;
use crate::fields::nth_natural_of;
use crate::fields::LineField;
use crate::text::contains;
use crate::text::find;
use crate::text::first_index;
use crate::text::has;
use crate::text::is_first_occurrence;
use crate::text::normalise;
use crate::text::normalised;
use crate::text::same_bytes;
use crate::text::occurs_at;
use crate::text::lemma_first_occurrence_unique;

pub mod laws;

verus! {

/// The word that announces a subcase.
pub const SUBCASE_WORD: &'static str = "SUBCASE";

/// The subcase of the blocks that stand before any announcement.
pub const FIRST_SUBCASE: usize = 1;

/// Least length of a line that is taken for the header of a table.
pub const MIN_HEADER_LEN: usize = 8;

/// Whether a text holds one of the headers of a block type.
pub open spec fn holds_header_of(t: BlockType, text: Seq<u8>) -> bool {
    exists|k: int|
        0 <= k < t.spec_headers().len() && contains(text, (#[trigger] t.spec_headers()[k]).spec_bytes())
}

/// The first block type at or after position `i` of the catalogue of which
/// a text holds a header.
pub open spec fn header_from(text: Seq<u8>, i: int) -> Option<BlockType>
    decreases BlockType::spec_all().len() - i,
{
    if i < 0 || i >= BlockType::spec_all().len() {
        None
    } else if holds_header_of(BlockType::spec_all()[i], text) {
        Some(BlockType::spec_all()[i])
    } else {
        header_from(text, i + 1)
    }
}

/// The block type that a text in plain form is a header of: the first type
/// of the catalogue of which the text holds a header.
pub open spec fn header_of(text: Seq<u8>) -> Option<BlockType> {
    header_from(text, 0)
}

/// Tells whether a text holds one of the headers of a block type.
pub fn is_header_of(t: BlockType, text: &[u8]) -> (r: bool)
    ensures
        r == holds_header_of(t, text@),
{
    let hs = t.headers();
    let mut k: usize = 0;
    while k < hs.len()
        invariant
            k <= hs@.len(),
            hs@ == t.spec_headers(),
            forall|j: int| 0 <= j < k ==> !contains(text@, (#[trigger] hs@[j]).spec_bytes()),
        decreases hs@.len() - k,
    {
        if has(text, hs[k].as_bytes()) {
            return true;
        }
        k += 1;
    }
    false
}

/// Finds the block type that a text in plain form is a header of.
pub fn find_header(text: &[u8]) -> (r: Option<BlockType>)
    ensures
        r == header_of(text@),
{
    let all = BlockType::all();
    let mut i: usize = 0;
    while i < all.len()
        invariant
            i <= all@.len(),
            all@ == BlockType::spec_all(),
            header_of(text@) == header_from(text@, i as int),
        decreases all@.len() - i,
    {
        if is_header_of(all[i], text) {
            return Some(all[i]);
        }
        i += 1;
    }
    None
}

/// The subcase that a line announces: the first natural after the first
/// occurrence of the announcing word.
pub open spec fn subcase_in(l: Seq<u8>) -> Option<usize> {
    let w = SUBCASE_WORD.spec_bytes();
    if contains(l, w) {
        nth(naturals_of(fields(l.subrange(first_index(l, w) + w.len(), l.len() as int))), 0)
    } else {
        None
    }
}

/// Looks for the announcement of a subcase in a line.
pub fn find_subcase(line: &[u8]) -> (r: Option<usize>)
    ensures
        r == subcase_in(line@),
{
    let w = SUBCASE_WORD.as_bytes();
    match find(line, w) {
        None => None,
        Some(i) => {
            proof {
                assert(is_first_occurrence(line@, w@, i as int));
                assert(occurs_at(line@, w@, i as int));
                lemma_first_occurrence_unique(line@, w@, i as int, first_index(line@, w@));
            }
            let n: usize = line.len();
            let rest = slice_subrange(line, i + w.len(), n);
            let fs = breakdown(rest);
            nth_natural_of(&fs, 0)
        },
    }
}

/// Whether a byte is a lower-case letter.
pub open spec fn is_lower(b: u8) -> bool {
    97 <= b && b <= 122
}

/// Whether a byte is an upper-case letter.
pub open spec fn is_upper(b: u8) -> bool {
    65 <= b && b <= 90
}

/// Whether a text starts with a number: its first field is a natural or a
/// real.
pub open spec fn starts_with_number(text: Seq<u8>) -> bool {
    match nth(fields(text), 0) {
        Some(LineField::Natural(_)) => true,
        Some(LineField::Real(_)) => true,
        _ => false,
    }
}

/// Whether a text in plain form looks like the header of a table: it is
/// long enough, holds an upper-case letter and no lower-case letter, and
/// does not start with a number.
pub open spec fn looks_like_header(text: Seq<u8>) -> bool {
    &&& text.len() >= MIN_HEADER_LEN
    &&& exists|i: int| 0 <= i < text.len() && is_upper(#[trigger] text[i])
    &&& forall|i: int| 0 <= i < text.len() ==> !is_lower(#[trigger] text[i])
    &&& !starts_with_number(text)
}

/// Tells whether a text in plain form looks like the header of a table.
pub fn header_shaped(text: &[u8]) -> (r: bool)
    ensures
        r == looks_like_header(text@),
{
    if text.len() < MIN_HEADER_LEN {
        return false;
    }
    let mut upper: bool = false;
    let mut i: usize = 0;
    while i < text.len()
        invariant
            i <= text@.len(),
            upper == exists|j: int| 0 <= j < i && is_upper(#[trigger] text@[j]),
            forall|j: int| 0 <= j < i ==> !is_lower(#[trigger] text@[j]),
        decreases text@.len() - i,
    {
        let b: u8 = text[i];
        if 97 <= b && b <= 122 {
            return false;
        }
        if 65 <= b && b <= 90 {
            upper = true;
        }
        i += 1;
    }
    if !upper {
        return false;
    }
    let fs = breakdown(text);
    if fs.len() > 0 {
        match fs[0] {
            LineField::Natural(_) => false,
            LineField::Real(_) => false,
            _ => true,
        }
    } else {
        true
    }
}

/// A line, or a run of lines with one text, that looks like the header of
/// a table and is the header of no block that is decoded.
#[derive(Debug)]
pub struct PotentialHeader {
    /// The number of the first line.
    pub start: usize,
    /// How many lines in a row hold the text.
    pub span: usize,
    /// The text, in plain form.
    pub text: Vec<u8>,
}

/// What a potential header holds.
pub struct HeaderView {
    /// The number of the first line.
    pub start: usize,
    /// How many lines in a row hold the text.
    pub span: usize,
    /// The text, in plain form.
    pub text: Seq<u8>,
}

impl PotentialHeader {
    /// What the potential header holds.
    pub open spec fn view(&self) -> HeaderView {
        HeaderView { start: self.start, span: self.span, text: self.text@ }
    }

    /// The number of the last line of the run, for a run of one line or
    /// more that ends within the machine's numbers.
    pub fn last_line(&self) -> (r: usize)
        requires
            self.span >= 1,
            self.start + self.span - 1 <= usize::MAX,
        ensures
            r == self.start + self.span - 1,
    {
        self.start + (self.span - 1)
    }
}

/// What a list of potential headers holds.
pub open spec fn header_views(v: Seq<PotentialHeader>) -> Seq<HeaderView> {
    Seq::new(v.len(), |i: int| v[i]@)
}

/// Whether a run of lines goes on with a line of a given number and text:
/// the text is the run's, and the line is the next after the run.
pub open spec fn goes_on(run: HeaderView, line: usize, text: Seq<u8>) -> bool {
    run.text == text && run.start + run.span == line && run.span < usize::MAX
}

/// The list of potential headers after a line has been recorded: the line
/// lengthens the last run where it goes on with it, and starts a run of its
/// own where it does not.
pub open spec fn recorded(hs: Seq<HeaderView>, line: usize, text: Seq<u8>) -> Seq<HeaderView> {
    if hs.len() > 0 && goes_on(hs.last(), line, text) {
        hs.drop_last().push(
            HeaderView { start: hs.last().start, span: (hs.last().span + 1) as usize, text },
        )
    } else {
        hs.push(HeaderView { start: line, span: 1, text })
    }
}

/// Records a line as a potential header.
pub fn record_header(hs: &mut Vec<PotentialHeader>, line: usize, text: Vec<u8>)
    ensures
        header_views(final(hs)@) == recorded(header_views(old(hs)@), line, text@),
{
    let ghost before = header_views(hs@);
    let n: usize = hs.len();
    if n > 0 {
        let last = &hs[n - 1];
        if last.span < usize::MAX && line >= last.start && line - last.start == last.span
            && same_bytes(last.text.as_slice(), text.as_slice()) {
            let start: usize = last.start;
            let span: usize = last.span + 1;
            hs.pop();
            hs.push(PotentialHeader { start, span, text });
            proof {
                assert(header_views(hs@) =~= recorded(before, line, text@));
            }
            return ;
        }
    }
    hs.push(PotentialHeader { start: line, span: 1, text });
    proof {
        assert(header_views(hs@) =~= recorded(before, line, text@));
    }
}

/// What the parser says of a block that a line made it drop.
pub const ABORT_MESSAGE: &'static str =
    "a line of the block could not be decoded; the block was dropped";

/// What the parser says of a block that cannot be decoded for the solver.
pub const BAD_FLAVOUR_MESSAGE: &'static str =
    "the block cannot be decoded for the solver of this report; the block was dropped";

/// What the parser says of a block that ended before it gave a row.
pub const UNTERMINATED_MESSAGE: &'static str =
    "the block ended before it gave a row; it was dropped";

/// What a list of notes holds: for each note the number of its line and
/// its text.
pub open spec fn notes(v: Seq<(usize, String)>) -> Seq<(usize, Seq<char>)> {
    Seq::new(v.len(), |i: int| (v[i].0, v[i].1@))
}

/// Adds a note to a list.
pub fn add_note(list: &mut Vec<(usize, String)>, line: usize, text: &str)
    ensures
        notes(final(list)@) == notes(old(list)@).push((line, text@)),
{
    let ghost before = notes(list@);
    list.push((line, text.to_owned()));
    proof {
        assert(notes(list@) =~= before.push((line, text@)));
    }
}

/// What a list of blocks holds.
pub open spec fn block_views(v: Seq<FinalBlock>) -> Seq<BlockView> {
    Seq::new(v.len(), |i: int| v[i]@)
}

/// Whether every block of a list is a table.
pub open spec fn blocks_wf(v: Seq<FinalBlock>) -> bool {
    forall|i: int| 0 <= i < v.len() ==> (#[trigger] v[i]).wf()
}

/// The block that is being decoded.
pub struct ActiveBlock {
    /// The decoder of the block.
    pub decoder: Decoder,
    /// The number of the line that opened the block.
    pub first_line: usize,
    /// The number of the last line that was read as part of the block.
    pub last_line: usize,
}

/// What the block that is being decoded holds.
pub struct ActiveView {
    /// What the decoder holds.
    pub decoder: DecoderView,
    /// The number of the line that opened the block.
    pub first_line: usize,
    /// The number of the last line that was read as part of the block.
    pub last_line: usize,
}

impl ActiveBlock {
    /// What the block that is being decoded holds.
    pub open spec fn view(&self) -> ActiveView {
        ActiveView { decoder: self.decoder@, first_line: self.first_line, last_line: self.last_line }
    }
}

/// What an optional active block holds.
pub open spec fn active_view(a: Option<ActiveBlock>) -> Option<ActiveView> {
    match a {
        Some(x) => Some(x@),
        None => None,
    }
}

/// The state of a parse.
pub struct ParserView {
    /// What is known of the flavour of the report.
    pub flavour: Flavour,
    /// The subcase that was announced last.
    pub subcase: usize,
    /// How many lines have been read.
    pub line_no: usize,
    /// The block that is being decoded.
    pub active: Option<ActiveView>,
    /// The finished blocks, in the order in which they ended.
    pub blocks: Seq<BlockView>,
    /// The warnings, each with the number of its line.
    pub warnings: Seq<(usize, Seq<char>)>,
    /// The fatal errors, each with the number of its line.
    pub fatal_errors: Seq<(usize, Seq<char>)>,
    /// The potential headers.
    pub potential_headers: Seq<HeaderView>,
}

/// The number of the line after `n` lines; it stays at the machine's
/// greatest number.
pub open spec fn next_line(n: usize) -> usize {
    if n < usize::MAX {
        (n + 1) as usize
    } else {
        n
    }
}

/// The state before the first line.
pub open spec fn initial() -> ParserView {
    ParserView {
        flavour: Flavour::spec_unknown(),
        subcase: FIRST_SUBCASE,
        line_no: 0,
        active: None,
        blocks: Seq::empty(),
        warnings: Seq::empty(),
        fatal_errors: Seq::empty(),
        potential_headers: Seq::empty(),
    }
}

/// The block that the active decoder's rows make, under the subcase of the
/// parse.
pub open spec fn active_block(a: ActiveView, subcase: usize) -> BlockView {
    block_of(a.decoder, subcase, Some((a.first_line, a.last_line)))
}

/// The state after the active block has been ended from outside: a block
/// with rows is finished, one without is dropped with a warning at the line
/// that opened it.
pub open spec fn closed(s: ParserView) -> ParserView {
    match s.active {
        None => s,
        Some(a) => if a.decoder.table.dom().len() > 0 {
            ParserView { active: None, blocks: s.blocks.push(active_block(a, s.subcase)), ..s }
        } else {
            ParserView {
                active: None,
                warnings: s.warnings.push((a.first_line, UNTERMINATED_MESSAGE@)),
                ..s
            }
        },
    }
}

/// The decoder that a header opens, where it opens one: the block type is
/// decoded, and its decoder accepts the header.
pub open spec fn opened(t: BlockType, flavour: Flavour, header: Seq<u8>) -> Option<DecoderView> {
    if supported(t) && header_accepted(fresh(t, flavour), header) {
        Some(with_header(fresh(t, flavour), header))
    } else {
        None
    }
}

/// The state after a line that is the header of a block of type `t`: the
/// active block is ended, and the header opens a block or, where it opens
/// none, is recorded as a potential header.
pub open spec fn after_header(s: ParserView, t: BlockType, text: Seq<u8>) -> ParserView {
    let c = closed(s);
    match opened(t, s.flavour, text) {
        Some(d) => ParserView {
            active: Some(ActiveView { decoder: d, first_line: s.line_no, last_line: s.line_no }),
            ..c
        },
        None => ParserView {
            potential_headers: recorded(c.potential_headers, s.line_no, text),
            ..c
        },
    }
}

/// The state after a line has been fed to the active decoder: on the end of
/// the block the block is finished, on a fatal answer it is dropped with
/// a fatal error at the line, and on any other answer it goes on.
pub open spec fn after_fed(s: ParserView, a: ActiveView, l: Seq<u8>) -> ParserView {
    let fed = ActiveView {
        decoder: decoder_after(a.decoder, l),
        first_line: a.first_line,
        last_line: s.line_no,
    };
    match decoder_response(a.decoder, l) {
        LineResponse::Done => ParserView {
            active: None,
            blocks: s.blocks.push(active_block(fed, s.subcase)),
            ..s
        },
        LineResponse::Abort => ParserView {
            active: None,
            fatal_errors: s.fatal_errors.push((s.line_no, ABORT_MESSAGE@)),
            ..s
        },
        LineResponse::BadFlavour => ParserView {
            active: None,
            fatal_errors: s.fatal_errors.push((s.line_no, BAD_FLAVOUR_MESSAGE@)),
            ..s
        },
        _ => ParserView { active: Some(fed), ..s },
    }
}

/// The state after a line.
///
/// The line is counted, and looked at for what is not yet known of the
/// flavour. A line that announces a subcase sets the subcase, and ends the
/// active block first where the subcase changes. A line that is the header
/// of a known block ends the active block and opens the next. Any other
/// line goes to the active decoder; without one it is recorded as a
/// potential header where it looks like a header, and ignored where not.
pub open spec fn step(s: ParserView, l: Seq<u8>) -> ParserView {
    let s1 = ParserView { line_no: next_line(s.line_no), flavour: s.flavour.spec_detect(l), ..s };
    let text = normalised(l);
    match subcase_in(l) {
        Some(sc) => if sc != s.subcase {
            ParserView { subcase: sc, ..closed(s1) }
        } else {
            s1
        },
        None => match header_of(text) {
            Some(t) => after_header(s1, t, text),
            None => match s1.active {
                Some(a) => after_fed(s1, a, l),
                None => if looks_like_header(text) {
                    ParserView {
                        potential_headers: recorded(s1.potential_headers, s1.line_no, text),
                        ..s1
                    }
                } else {
                    s1
                },
            },
        },
    }
}

/// The state after the lines of a report, from a given state.
pub open spec fn run(s: ParserView, lines: Seq<Seq<u8>>) -> ParserView
    decreases lines.len(),
{
    if lines.len() == 0 {
        s
    } else {
        step(run(s, lines.drop_last()), lines.last())
    }
}

/// What has been read from a report.
#[derive(Debug)]
pub struct F06File {
    /// What was found of the flavour of the report.
    pub flavour: Flavour,
    /// The finished blocks.
    pub blocks: Vec<FinalBlock>,
    /// The warnings, each with the number of its line.
    pub warnings: Vec<(usize, String)>,
    /// The fatal errors, each with the number of its line.
    pub fatal_errors: Vec<(usize, String)>,
    /// The potential headers.
    pub potential_headers: Vec<PotentialHeader>,
}

/// What a parsed report holds.
pub struct FileView {
    /// What was found of the flavour of the report.
    pub flavour: Flavour,
    /// The finished blocks.
    pub blocks: Seq<BlockView>,
    /// The warnings, each with the number of its line.
    pub warnings: Seq<(usize, Seq<char>)>,
    /// The fatal errors, each with the number of its line.
    pub fatal_errors: Seq<(usize, Seq<char>)>,
    /// The potential headers.
    pub potential_headers: Seq<HeaderView>,
}

impl F06File {
    /// Whether every block of the report is a table.
    pub open spec fn wf(&self) -> bool {
        blocks_wf(self.blocks@)
    }

    /// What the parsed report holds.
    pub open spec fn view(&self) -> FileView {
        FileView {
            flavour: self.flavour,
            blocks: block_views(self.blocks@),
            warnings: notes(self.warnings@),
            fatal_errors: notes(self.fatal_errors@),
            potential_headers: header_views(self.potential_headers@),
        }
    }
}

/// What a parse leaves when the report ends: the active block is ended,
/// and the finished blocks and what was said of the rest are handed over.
pub open spec fn finished(s: ParserView) -> FileView {
    let c = closed(s);
    FileView {
        flavour: c.flavour,
        blocks: c.blocks,
        warnings: c.warnings,
        fatal_errors: c.fatal_errors,
        potential_headers: c.potential_headers,
    }
}

/// What a report holds, by its lines.
pub open spec fn parsed(lines: Seq<Seq<u8>>) -> FileView {
    finished(run(initial(), lines))
}

/// The parser of a report, fed line by line.
pub struct OnePassParser {
    /// What is known of the flavour of the report.
    pub flavour: Flavour,
    /// The subcase that was announced last.
    pub subcase: usize,
    /// How many lines have been read.
    pub line_no: usize,
    /// The block that is being decoded.
    pub active: Option<ActiveBlock>,
    /// The finished blocks, in the order in which they ended.
    pub blocks: Vec<FinalBlock>,
    /// The warnings, each with the number of its line.
    pub warnings: Vec<(usize, String)>,
    /// The fatal errors, each with the number of its line.
    pub fatal_errors: Vec<(usize, String)>,
    /// The potential headers.
    pub potential_headers: Vec<PotentialHeader>,
}

/// The views of a list of blocks with one more block are the views of the
/// list with the view of the block.
pub proof fn lemma_block_views_push(v: Seq<FinalBlock>, b: FinalBlock)
    ensures
        block_views(v.push(b)) == block_views(v).push(b@),
{
    assert(block_views(v.push(b)) =~= block_views(v).push(b@));
}

impl OnePassParser {
    /// Whether the finished blocks and the active decoder hold tables.
    pub open spec fn wf(&self) -> bool {
        &&& blocks_wf(self.blocks@)
        &&& self.active.is_some() ==> self.active.unwrap().decoder.wf()
    }

    /// The state of the parse.
    pub open spec fn view(&self) -> ParserView {
        ParserView {
            flavour: self.flavour,
            subcase: self.subcase,
            line_no: self.line_no,
            active: active_view(self.active),
            blocks: block_views(self.blocks@),
            warnings: notes(self.warnings@),
            fatal_errors: notes(self.fatal_errors@),
            potential_headers: header_views(self.potential_headers@),
        }
    }

    /// Makes a parser that has read nothing.
    pub fn new() -> (r: Self)
        ensures
            r.wf(),
            r@ == initial(),
    {
        let r = OnePassParser {
            flavour: Flavour::unknown(),
            subcase: FIRST_SUBCASE,
            line_no: 0,
            active: None,
            blocks: Vec::new(),
            warnings: Vec::new(),
            fatal_errors: Vec::new(),
            potential_headers: Vec::new(),
        };
        proof {
            assert(r@.blocks =~= Seq::<BlockView>::empty());
            assert(r@.warnings =~= Seq::<(usize, Seq<char>)>::empty());
            assert(r@.fatal_errors =~= Seq::<(usize, Seq<char>)>::empty());
            assert(r@.potential_headers =~= Seq::<HeaderView>::empty());
        }
        r
    }

    /// Ends the active block from outside.
    pub fn close_active(&mut self)
        requires
            old(self).wf(),
        ensures
            final(self).wf(),
            final(self)@ == closed(old(self)@),
    {
        match self.active.take() {
            None => {},
            Some(a) => {
                if a.decoder.row_count() > 0 {
                    let b = a.decoder.unwrap(self.subcase, Some((a.first_line, a.last_line)));
                    proof {
                        lemma_block_views_push(self.blocks@, b);
                    }
                    self.blocks.push(b);
                } else {
                    add_note(&mut self.warnings, a.first_line, UNTERMINATED_MESSAGE);
                }
            },
        }
    }

    /// Takes a line that is the header of a block of type `t`.
    pub fn open_block(&mut self, t: BlockType, text: Vec<u8>)
        requires
            old(self).wf(),
        ensures
            final(self).wf(),
            final(self)@ == after_header(old(self)@, t, text@),
    {
        self.close_active();
        match t.init_decoder(self.flavour) {
            Some(d) => {
                let mut decoder = d;
                if decoder.good_header(text.as_slice()) {
                    self.active =
                    Some(ActiveBlock { decoder, first_line: self.line_no, last_line: self.line_no });
                    return ;
                }
            },
            None => {},
        }
        record_header(&mut self.potential_headers, self.line_no, text);
    }

    /// Feeds a line to the active decoder.
    pub fn feed(&mut self, line: &str)
        requires
            old(self).wf(),
            old(self).active.is_some(),
        ensures
            final(self).wf(),
            final(self)@ == after_fed(old(self)@, old(self)@.active.unwrap(), line.spec_bytes()),
    {
        let a = self.active.take().unwrap();
        let mut decoder = a.decoder;
        let response = decoder.consume(line);
        let fed = ActiveBlock { decoder, first_line: a.first_line, last_line: self.line_no };
        match response {
            LineResponse::Done => {
                let b = fed.decoder.unwrap(self.subcase, Some((fed.first_line, fed.last_line)));
                proof {
                    lemma_block_views_push(self.blocks@, b);
                }
                self.blocks.push(b);
            },
            LineResponse::Abort => {
                add_note(&mut self.fatal_errors, self.line_no, ABORT_MESSAGE);
            },
            LineResponse::BadFlavour => {
                add_note(&mut self.fatal_errors, self.line_no, BAD_FLAVOUR_MESSAGE);
            },
            _ => {
                self.active = Some(fed);
            },
        }
    }

    /// Reads the next line of the report.
    pub fn consume(&mut self, line: &str)
        requires
            old(self).wf(),
        ensures
            final(self).wf(),
            final(self)@ == step(old(self)@, line.spec_bytes()),
    {
        let bytes = line.as_bytes();
        if self.line_no < usize::MAX {
            self.line_no = self.line_no + 1;
        }
        self.flavour.detect(line);
        match find_subcase(bytes) {
            Some(sc) => {
                if sc != self.subcase {
                    self.close_active();
                    self.subcase = sc;
                }
            },
            None => {
                let text = normalise(bytes);
                match find_header(text.as_slice()) {
                    Some(t) => {
                        self.open_block(t, text);
                    },
                    None => {
                        if self.active.is_some() {
                            self.feed(line);
                        } else if header_shaped(text.as_slice()) {
                            record_header(&mut self.potential_headers, self.line_no, text);
                        }
                    },
                }
            },
        }
    }

    /// Ends the parse at the end of the report.
    pub fn finish(self) -> (r: F06File)
        requires
            self.wf(),
        ensures
            r.wf(),
            r@ == finished(self@),
    {
        let mut parser = self;
        parser.close_active();
        F06File {
            flavour: parser.flavour,
            blocks: parser.blocks,
            warnings: parser.warnings,
            fatal_errors: parser.fatal_errors,
            potential_headers: parser.potential_headers,
        }
    }
}

/// The lines of a report as bytes.
pub open spec fn line_bytes(lines: Seq<String>) -> Seq<Seq<u8>> {
    Seq::new(lines.len(), |i: int| vstd::utf8::encode_utf8(lines[i]@))
}

/// Reads a whole report, given by its lines.
pub fn parse_lines(lines: &Vec<String>) -> (r: F06File)
    ensures
        r.wf(),
        r@ == parsed(line_bytes(lines@)),
{
    let mut parser = OnePassParser::new();
    let ghost all = line_bytes(lines@);
    let mut i: usize = 0;
    proof {
        assert(all.take(0) =~= Seq::<Seq<u8>>::empty());
    }
    while i < lines.len()
        invariant
            i <= lines@.len(),
            all == line_bytes(lines@),
            parser.wf(),
            parser@ == run(initial(), all.take(i as int)),
        decreases lines@.len() - i,
    {
        proof {
            assert(all.take(i + 1).drop_last() =~= all.take(i as int));
            assert(all.take(i + 1).last() == all[i as int]);
        }
        parser.consume(lines[i].as_str());
        i += 1;
    }
    proof {
        assert(all.take(i as int) =~= all);
    }
    parser.finish()
}

} // verus!
