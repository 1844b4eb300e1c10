//! Making records from finished blocks, by templates.

use vstd::prelude::*;
use crate::blocks::types::BlockType;
use crate::blocks::FinalBlock;
use crate::csv::layout::CsvBlockId;
use crate::csv::layout::CsvField;
use crate::csv::layout::CsvRecord;
use crate::csv::layout::FieldView;
use crate::csv::layout::RecordView;
use crate::csv::layout::NAS_CSV_COLS;
use crate::flavour::Flavour;
use crate::indexing::ElementPoint;
use crate::indexing::ElementSide;
use crate::indexing::ForceOrigin;
use crate::indexing::NasIndex;
use crate::numbers::F06Number;

verus! {

/// A conversion error.
#[derive(Clone, Copy, Debug, PartialEq, Eq, Structural)]
#[non_exhaustive]
pub enum ConversionError {
    /// The wrong block type was passed.
    WrongBlockType {
        /// The type of the passed block.
        got: BlockType,
        /// The type of block the converter expected.
        expected: BlockType,
    },
    /// A value was missing from the block data.
    MissingDatum {
        /// The row we tried to access.
        row: NasIndex,
        /// The column we tried to access.
        col: NasIndex,
    },
    /// A row index has the wrong type (contains the index).
    BadRowIndexType(NasIndex),
    /// A column index has the wrong type (contains the index).
    BadColIndexType(NasIndex),
}

/// The text of a field that could not be made.
pub const ERROR_FIELD: &'static str = "<ERROR>";

/// The text that stands for a kind of solution that is not known.
pub const UNKNOWN_SOLTYPE: &'static str = "?";

/// The text that stands for a solver that is not known.
pub const UNKNOWN_SOLVER: &'static str = "Unknown";

/// The number of the grid point of a row key: of a grid point, of the grid
/// point that a force acts on, or of the corner of an element.
pub open spec fn gid_of(row: NasIndex) -> Option<usize> {
    match row {
        NasIndex::GridPointRef(g) => Some(g.gid),
        NasIndex::GridPointForceOrigin(f) => Some(f.grid_point.gid),
        NasIndex::ElementSidedPoint(p) => match p.point {
            ElementPoint::Corner(g) => Some(g.gid),
            ElementPoint::Centroid => None,
        },
        _ => None,
    }
}

/// The element of a row key: an element itself, the element of a point, or
/// the element that a force comes from.
pub open spec fn element_of(row: NasIndex) -> Option<crate::indexing::ElementRef> {
    match row {
        NasIndex::ElementRef(e) => Some(e),
        NasIndex::ElementSidedPoint(p) => Some(p.element),
        NasIndex::GridPointForceOrigin(f) => match f.force_origin {
            ForceOrigin::Element { elem } => Some(elem),
            _ => None,
        },
        _ => None,
    }
}

/// The field with the number of the grid point of a row key.
pub open spec fn spec_ixfn_gid(row: NasIndex) -> Result<FieldView, ConversionError> {
    match gid_of(row) {
        Some(gid) => Ok(FieldView::Natural(gid)),
        None => Err(ConversionError::BadRowIndexType(row)),
    }
}

/// The field with the number of the element of a row key.
pub open spec fn spec_ixfn_eid(row: NasIndex) -> Result<FieldView, ConversionError> {
    match element_of(row) {
        Some(e) => Ok(FieldView::Natural(e.eid)),
        None => Err(ConversionError::BadRowIndexType(row)),
    }
}

/// The field with the type of the element of a row key.
pub open spec fn spec_ixfn_etype(row: NasIndex) -> Result<FieldView, ConversionError> {
    match element_of(row) {
        Some(e) => match e.etype {
            Some(t) => Ok(FieldView::ElementType(t)),
            None => Err(ConversionError::BadRowIndexType(row)),
        },
        None => Err(ConversionError::BadRowIndexType(row)),
    }
}

/// What a result with a field holds.
pub open spec fn result_view(r: Result<CsvField, ConversionError>) -> Result<
    FieldView,
    ConversionError,
> {
    match r {
        Ok(f) => Ok(f@),
        Err(e) => Err(e),
    }
}

/// Finds the element of a row key.
pub fn find_element(row: NasIndex) -> (r: Option<crate::indexing::ElementRef>)
    ensures
        r == element_of(row),
{
    match row {
        NasIndex::ElementRef(e) => Some(e),
        NasIndex::ElementSidedPoint(p) => Some(p.element),
        NasIndex::GridPointForceOrigin(f) => match f.force_origin {
            ForceOrigin::Element { elem } => Some(elem),
            _ => None,
        },
        _ => None,
    }
}

/// Makes the field with the number of the grid point of a row key.
pub fn ixfn_gid(row: NasIndex) -> (r: Result<CsvField, ConversionError>)
    ensures
        result_view(r) == spec_ixfn_gid(row),
{
    let gid = match row {
        NasIndex::GridPointRef(g) => Some(g.gid),
        NasIndex::GridPointForceOrigin(f) => Some(f.grid_point.gid),
        NasIndex::ElementSidedPoint(p) => match p.point {
            ElementPoint::Corner(g) => Some(g.gid),
            ElementPoint::Centroid => None,
        },
        _ => None,
    };
    match gid {
        Some(gid) => Ok(CsvField::Natural(gid)),
        None => Err(ConversionError::BadRowIndexType(row)),
    }
}

/// Makes the field with the number of the element of a row key.
pub fn ixfn_eid(row: NasIndex) -> (r: Result<CsvField, ConversionError>)
    ensures
        result_view(r) == spec_ixfn_eid(row),
{
    match find_element(row) {
        Some(e) => Ok(CsvField::Natural(e.eid)),
        None => Err(ConversionError::BadRowIndexType(row)),
    }
}

/// Makes the field with the type of the element of a row key.
pub fn ixfn_etype(row: NasIndex) -> (r: Result<CsvField, ConversionError>)
    ensures
        result_view(r) == spec_ixfn_etype(row),
{
    match find_element(row) {
        Some(e) => match e.etype {
            Some(t) => Ok(CsvField::ElementType(t)),
            None => Err(ConversionError::BadRowIndexType(row)),
        },
        None => Err(ConversionError::BadRowIndexType(row)),
    }
}

/// The functions of a row key that a template can ask for.
#[derive(Clone, Copy, Debug, PartialEq, Eq, Structural)]
pub enum IndexFn {
    /// The side of a point of an element: 0 for the bottom, 1 for the top.
    Side,
    /// The origin of a force on a grid point: 0 for a load, 1 for a
    /// single-point constraint, 2 for a multi-point constraint, 3 for an
    /// element.
    ForceOrigin,
}

impl IndexFn {
    /// The field that the function makes of a row key.
    pub open spec fn spec_apply(self, row: NasIndex) -> Result<FieldView, ConversionError> {
        match (self, row) {
            (IndexFn::Side, NasIndex::ElementSidedPoint(p)) => Ok(
                FieldView::Natural(
                    match p.side {
                        ElementSide::Bottom => 0,
                        ElementSide::Top => 1,
                    },
                ),
            ),
            (IndexFn::ForceOrigin, NasIndex::GridPointForceOrigin(f)) => Ok(
                FieldView::Natural(
                    match f.force_origin {
                        ForceOrigin::Load => 0,
                        ForceOrigin::SinglePointConstraint => 1,
                        ForceOrigin::MultiPointConstraint => 2,
                        ForceOrigin::Element { .. } => 3,
                    },
                ),
            ),
            _ => Err(ConversionError::BadRowIndexType(row)),
        }
    }

    /// Makes a field of a row key.
    pub fn apply(&self, row: NasIndex) -> (r: Result<CsvField, ConversionError>)
        ensures
            result_view(r) == self.spec_apply(row),
    {
        match (self, row) {
            (IndexFn::Side, NasIndex::ElementSidedPoint(p)) => Ok(
                CsvField::Natural(
                    match p.side {
                        ElementSide::Bottom => 0,
                        ElementSide::Top => 1,
                    },
                ),
            ),
            (IndexFn::ForceOrigin, NasIndex::GridPointForceOrigin(f)) => Ok(
                CsvField::Natural(
                    match f.force_origin {
                        ForceOrigin::Load => 0,
                        ForceOrigin::SinglePointConstraint => 1,
                        ForceOrigin::MultiPointConstraint => 2,
                        ForceOrigin::Element { .. } => 3,
                    },
                ),
            ),
            _ => Err(ConversionError::BadRowIndexType(row)),
        }
    }
}

/// A column generator: a template has ten of them for each record. A
/// generator makes a field from a block, the flavour of the report and a
/// row key.
#[derive(Clone, Debug)]
pub enum ColumnGenerator {
    /// Generate a blank column.
    Blank,
    /// Output the value from a specific column. Errs if absent.
    ColumnValue(NasIndex),
    /// Output a constant field.
    ConstantField(CsvField),
    /// Outputs the grid point ID of the row, errs if absent.
    GridId,
    /// Outputs the element ID of the row, errs if absent.
    ElementId,
    /// Outputs the element type of the row, errs if absent.
    ElementType,
    /// Outputs some other function of the row index.
    RowIndexFn(IndexFn),
    /// Output the block short name.
    BlockShortName,
    /// Output the block long name.
    BlockLongName,
    /// Output the solution type number ("?" if absent/unknown).
    SolTypeNumber,
    /// Output the solution type name ("?" if absent/unknown).
    SolTypeName,
    /// Output the solver name ("Unknown" if absent/unknown).
    SolverName,
    /// Output the subcase.
    Subcase,
    /// Output a constant number.
    ConstantNumber(F06Number),
    /// Output a constant string.
    ConstantString(&'static str),
}

impl ColumnGenerator {
    /// The field that the generator makes, or the error that it ends in.
    pub open spec fn spec_convert(&self, block: &FinalBlock, flavour: Flavour, row: NasIndex) -> Result<
        FieldView,
        ConversionError,
    > {
        match self {
            Self::Blank => Ok(FieldView::Blank),
            Self::ColumnValue(col) => match block.spec_get(row, *col) {
                Some(x) => Ok(FieldView::Real(x)),
                None => Err(ConversionError::MissingDatum { row, col: *col }),
            },
            Self::ConstantField(cf) => Ok(cf@),
            Self::GridId => spec_ixfn_gid(row),
            Self::ElementId => spec_ixfn_eid(row),
            Self::ElementType => spec_ixfn_etype(row),
            Self::RowIndexFn(f) => f.spec_apply(row),
            Self::BlockShortName => Ok(FieldView::Text(block.block_type.spec_short_name()@)),
            Self::BlockLongName => Ok(FieldView::Text(block.block_type.spec_desc()@)),
            Self::SolTypeNumber => match flavour.soltype {
                Some(sol) => Ok(FieldView::Natural(sol.spec_number())),
                None => Ok(FieldView::Text(UNKNOWN_SOLTYPE@)),
            },
            Self::SolTypeName => match flavour.soltype {
                Some(sol) => Ok(FieldView::Text(sol.spec_name()@)),
                None => Ok(FieldView::Text(UNKNOWN_SOLTYPE@)),
            },
            Self::SolverName => match flavour.solver {
                Some(solver) => Ok(FieldView::Text(solver.spec_name()@)),
                None => Ok(FieldView::Text(UNKNOWN_SOLVER@)),
            },
            Self::Subcase => Ok(FieldView::Natural(block.subcase)),
            Self::ConstantNumber(x) => Ok(CsvField::spec_from_number(*x)),
            Self::ConstantString(s) => Ok(FieldView::Text(s@)),
        }
    }

    /// Calls the generator to produce a field, or an error.
    pub fn convert(&self, block: &FinalBlock, flavour: Flavour, row: NasIndex) -> (r: Result<
        CsvField,
        ConversionError,
    >)
        requires
            block.wf(),
        ensures
            result_view(r) == self.spec_convert(block, flavour, row),
    {
        match self {
            Self::Blank => Ok(CsvField::Blank),
            Self::ColumnValue(col) => match block.get(row, *col) {
                Some(x) => Ok(CsvField::Real(x)),
                None => Err(ConversionError::MissingDatum { row, col: *col }),
            },
            Self::ConstantField(cf) => Ok(cf.duplicate()),
            Self::GridId => ixfn_gid(row),
            Self::ElementId => ixfn_eid(row),
            Self::ElementType => ixfn_etype(row),
            Self::RowIndexFn(f) => f.apply(row),
            Self::BlockShortName => Ok(CsvField::text(block.block_type.short_name())),
            Self::BlockLongName => Ok(CsvField::text(block.block_type.desc())),
            Self::SolTypeNumber => match flavour.soltype {
                Some(sol) => Ok(CsvField::Natural(sol.number())),
                None => Ok(CsvField::text(UNKNOWN_SOLTYPE)),
            },
            Self::SolTypeName => match flavour.soltype {
                Some(sol) => Ok(CsvField::text(sol.name())),
                None => Ok(CsvField::text(UNKNOWN_SOLTYPE)),
            },
            Self::SolverName => match flavour.solver {
                Some(solver) => Ok(CsvField::text(solver.name())),
                None => Ok(CsvField::text(UNKNOWN_SOLVER)),
            },
            Self::Subcase => Ok(CsvField::Natural(block.subcase)),
            Self::ConstantNumber(x) => Ok(CsvField::from_number(*x)),
            Self::ConstantString(s) => Ok(CsvField::text(s)),
        }
    }
}

/// The field that a generator puts into a record: the field that it
/// makes, or the error text where it ends in an error.
pub open spec fn field_made(
    g: ColumnGenerator,
    block: &FinalBlock,
    flavour: Flavour,
    row: NasIndex,
) -> FieldView {
    match g.spec_convert(block, flavour, row) {
        Ok(f) => f,
        Err(_) => FieldView::Text(ERROR_FIELD@),
    }
}

/// Whether one of the generators asks for the grid point of the row.
pub open spec fn asks_gid(gens: Seq<ColumnGenerator>) -> bool {
    exists|i: int| 0 <= i < gens.len() && (#[trigger] gens[i]) is GridId
}

/// Whether one of the generators asks for the element of the row.
pub open spec fn asks_eid(gens: Seq<ColumnGenerator>) -> bool {
    exists|i: int| 0 <= i < gens.len() && (#[trigger] gens[i]) is ElementId
}

/// Whether one of the generators asks for the element type of the row.
pub open spec fn asks_etype(gens: Seq<ColumnGenerator>) -> bool {
    exists|i: int| 0 <= i < gens.len() && (#[trigger] gens[i]) is ElementType
}

/// A template to convert a block into a series of records.
#[derive(Debug)]
pub struct BlockConverter {
    /// The block type this is meant for.
    pub input_block_type: BlockType,
    /// The kind of record block this produces.
    pub output_block_id: CsvBlockId,
    /// The row generators: one row of a block may give more than one
    /// record.
    pub generators: Vec<Vec<ColumnGenerator>>,
    /// The headers of the fields that the generators make.
    pub headers: &'static [&'static str],
}

impl BlockConverter {
    /// Whether the template is well formed: every row generator makes as
    /// many fields as a record holds after its first, and there is a header
    /// for each of them.
    pub open spec fn wf(&self) -> bool {
        &&& self.headers@.len() == NAS_CSV_COLS - 1
        &&& forall|i: int|
            0 <= i < self.generators@.len() ==> (#[trigger] self.generators@[i])@.len()
                == NAS_CSV_COLS - 1
    }

    /// The record that a row generator makes of a row of a block.
    ///
    /// Each generator gives a field, or the error text. The record names
    /// the grid point, the element and the element type of the row where a
    /// generator asks for them and the row has them.
    pub open spec fn spec_record(
        &self,
        gens: Seq<ColumnGenerator>,
        block: &FinalBlock,
        flavour: Flavour,
        row: NasIndex,
    ) -> RecordView {
        RecordView {
            block_id: self.output_block_id,
            block_type: Some(block.block_type),
            gid: if asks_gid(gens) {
                gid_of(row)
            } else {
                None
            },
            eid: if asks_eid(gens) {
                match element_of(row) {
                    Some(e) => Some(e.eid),
                    None => None,
                }
            } else {
                None
            },
            etype: if asks_etype(gens) {
                match element_of(row) {
                    Some(e) => e.etype,
                    None => None,
                }
            } else {
                None
            },
            subcase: Some(block.subcase),
            fields: Seq::new(gens.len(), |i: int| field_made(gens[i], block, flavour, row)),
            headers: self.headers@,
        }
    }

    /// The records that the template makes of one row of a block: one for
    /// each row generator, in order.
    pub open spec fn spec_row_records(&self, block: &FinalBlock, flavour: Flavour, row: NasIndex) -> Seq<
        RecordView,
    > {
        Seq::new(
            self.generators@.len(),
            |j: int| self.spec_record(self.generators@[j]@, block, flavour, row),
        )
    }

    /// The records that the template makes of the first `n` rows of a
    /// block.
    pub open spec fn spec_records_upto(&self, block: &FinalBlock, flavour: Flavour, n: int) -> Seq<
        RecordView,
    >
        decreases n,
    {
        if n <= 0 {
            Seq::empty()
        } else {
            self.spec_records_upto(block, flavour, n - 1) + self.spec_row_records(
                block,
                flavour,
                block.row_indexes@[n - 1],
            )
        }
    }

    /// The records that the template makes of a block: those of its rows,
    /// by rising row key.
    pub open spec fn spec_records(&self, block: &FinalBlock, flavour: Flavour) -> Seq<RecordView> {
        self.spec_records_upto(block, flavour, block.row_indexes@.len() as int)
    }

    /// Makes the record of a row generator for a row of a block.
    pub fn make_record(
        &self,
        gens: &Vec<ColumnGenerator>,
        block: &FinalBlock,
        flavour: Flavour,
        row: NasIndex,
    ) -> (r: CsvRecord)
        requires
            block.wf(),
        ensures
            r@ == self.spec_record(gens@, block, flavour, row),
    {
        let mut fields: Vec<CsvField> = Vec::new();
        let mut gid: Option<usize> = None;
        let mut eid: Option<usize> = None;
        let mut etype: Option<crate::elements::ElementType> = None;
        let mut i: usize = 0;
        while i < gens.len()
            invariant
                i <= gens@.len(),
                block.wf(),
                fields@.len() == i,
                forall|j: int| 0 <= j < i ==> (#[trigger] fields@[j])@ == field_made(
                    gens@[j],
                    block,
                    flavour,
                    row,
                ),
                gid == (if asks_gid(gens@.take(i as int)) {
                    gid_of(row)
                } else {
                    None
                }),
                eid == (if asks_eid(gens@.take(i as int)) {
                    match element_of(row) {
                        Some(e) => Some(e.eid),
                        None => None,
                    }
                } else {
                    None
                }),
                etype == (if asks_etype(gens@.take(i as int)) {
                    match element_of(row) {
                        Some(e) => e.etype,
                        None => None,
                    }
                } else {
                    None
                }),
            decreases gens@.len() - i,
        {
            let cgen = &gens[i];
            let fld = cgen.convert(block, flavour, row);
            let flderr = match fld {
                Ok(f) => f,
                Err(_) => CsvField::text(ERROR_FIELD),
            };
            let fld_nat: Option<usize> = match flderr {
                CsvField::Natural(n) => Some(n),
                _ => None,
            };
            let fld_et: Option<crate::elements::ElementType> = match flderr {
                CsvField::ElementType(et) => Some(et),
                _ => None,
            };
            proof {
                let before = gens@.take(i as int);
                let after = gens@.take(i + 1);
                assert(after[i as int] == gens@[i as int]);
                assert forall|k: int| 0 <= k < before.len() implies before[k] == after[k] by {}
                if asks_gid(before) {
                    let k = choose|k: int| 0 <= k < before.len() && (#[trigger] before[k]) is GridId;
                    assert(after[k] is GridId);
                }
                if asks_eid(before) {
                    let k = choose|k: int| 0 <= k < before.len() && (#[trigger] before[k]) is ElementId;
                    assert(after[k] is ElementId);
                }
                if asks_etype(before) {
                    let k = choose|k: int|
                        0 <= k < before.len() && (#[trigger] before[k]) is ElementType;
                    assert(after[k] is ElementType);
                }
                if asks_gid(after) && !(gens@[i as int] is GridId) {
                    let k = choose|k: int| 0 <= k < after.len() && (#[trigger] after[k]) is GridId;
                    assert(before[k] is GridId);
                }
                if asks_eid(after) && !(gens@[i as int] is ElementId) {
                    let k = choose|k: int| 0 <= k < after.len() && (#[trigger] after[k]) is ElementId;
                    assert(before[k] is ElementId);
                }
                if asks_etype(after) && !(gens@[i as int] is ElementType) {
                    let k = choose|k: int|
                        0 <= k < after.len() && (#[trigger] after[k]) is ElementType;
                    assert(before[k] is ElementType);
                }
            }
            if matches!(cgen, ColumnGenerator::GridId) && gid.is_none() {
                gid = fld_nat;
            }
            if matches!(cgen, ColumnGenerator::ElementId) && eid.is_none() {
                eid = fld_nat;
            }
            if matches!(cgen, ColumnGenerator::ElementType) && etype.is_none() {
                etype = fld_et;
            }
            fields.push(flderr);
            i += 1;
        }
        proof {
            assert(gens@.take(i as int) =~= gens@);
        }
        let r = CsvRecord {
            block_id: self.output_block_id,
            block_type: Some(block.block_type),
            gid,
            eid,
            etype,
            subcase: Some(block.subcase),
            fields,
            headers: self.headers,
        };
        proof {
            assert(r@.fields =~= self.spec_record(gens@, block, flavour, row).fields);
        }
        r
    }

    /// Converts a block into records, one for each row of the block and
    /// each row generator of the template. A field whose generator ends in
    /// an error holds the error text. A block of another type than the
    /// template is meant for is refused.
    pub fn convert_block(&self, block: &FinalBlock, flavour: &Flavour) -> (r: Result<
        Vec<CsvRecord>,
        ConversionError,
    >)
        requires
            block.wf(),
        ensures
            match r {
                Ok(records) => block.block_type == self.input_block_type && record_views(records@)
                    == self.spec_records(block, *flavour),
                Err(e) => block.block_type != self.input_block_type && e
                    == (ConversionError::WrongBlockType {
                    got: block.block_type,
                    expected: self.input_block_type,
                }),
            },
    {
        if block.block_type != self.input_block_type {
            return Err(
                ConversionError::WrongBlockType {
                    got: block.block_type,
                    expected: self.input_block_type,
                },
            );
        }
        let mut out: Vec<CsvRecord> = Vec::new();
        let mut i: usize = 0;
        proof {
            assert(record_views(out@) =~= self.spec_records_upto(block, *flavour, 0));
        }
        while i < block.row_indexes.len()
            invariant
                i <= block.row_indexes@.len(),
                block.wf(),
                record_views(out@) == self.spec_records_upto(block, *flavour, i as int),
            decreases block.row_indexes@.len() - i,
        {
            let row = block.row_indexes[i];
            let ghost done = record_views(out@);
            let ghost these = self.spec_row_records(block, *flavour, row);
            let mut j: usize = 0;
            proof {
                assert(done + these.take(0) =~= done);
            }
            while j < self.generators.len()
                invariant
                    j <= self.generators@.len(),
                    block.wf(),
                    these == self.spec_row_records(block, *flavour, row),
                    record_views(out@) == done + these.take(j as int),
                decreases self.generators@.len() - j,
            {
                let ghost before = record_views(out@);
                let record = self.make_record(&self.generators[j], block, *flavour, row);
                out.push(record);
                proof {
                    assert(record_views(out@) =~= before.push(record@));
                    assert(these.take(j + 1) =~= these.take(j as int).push(these[j as int]));
                    assert(record_views(out@) =~= done + these.take(j + 1));
                }
                j += 1;
            }
            proof {
                assert(these.take(j as int) =~= these);
            }
            i += 1;
        }
        Ok(out)
    }
}

/// What a list of records holds.
pub open spec fn record_views(v: Seq<CsvRecord>) -> Seq<RecordView> {
    Seq::new(v.len(), |i: int| v[i]@)
}

/// Every record that a well-formed template makes of a row holds as many
/// fields and headers as a record holds after its first field.
pub proof fn lemma_record_width(
    conv: &BlockConverter,
    block: &FinalBlock,
    flavour: Flavour,
    row: NasIndex,
    j: int,
)
    requires
        conv.wf(),
        0 <= j < conv.generators@.len(),
    ensures
        conv.spec_row_records(block, flavour, row)[j].fields.len() == NAS_CSV_COLS - 1,
        conv.spec_row_records(block, flavour, row)[j].headers.len() == NAS_CSV_COLS - 1,
{
}

/// A template makes of a block as many records as the block has rows,
/// times the number of its row generators.
pub proof fn lemma_record_count(conv: &BlockConverter, block: &FinalBlock, flavour: Flavour, n: int)
    requires
        0 <= n,
    ensures
        conv.spec_records_upto(block, flavour, n).len() == n * conv.generators@.len(),
    decreases n,
{
    if n > 0 {
        lemma_record_count(conv, block, flavour, n - 1);
        assert(n * conv.generators@.len() == (n - 1) * conv.generators@.len()
            + conv.generators@.len()) by (nonlinear_arith);
    } else {
        assert(n * conv.generators@.len() == 0) by (nonlinear_arith)
            requires
                n == 0,
        ;
    }
}

} // verus!
