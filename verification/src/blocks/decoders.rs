//! The decoders of the known block types.
//!
//! A decoder is fed the lines of one block, one by one, and says of each
//! what it made of it. Each decoder is specified by a function from its
//! state and the bytes of a line to its answer and its next state.

use vstd::prelude::*;
use vstd::string::StringSliceAdditionalSpecFns;
use crate::blocks::types::BlockType;
use crate::blocks::BlockView;
use crate::blocks::FinalBlock;
use crate::blocks::LineResponse;
use crate::blocks::RowBlock;
use crate::fields::breakdown;
use crate::fields::exact_reals;
use crate::fields::exact_reals_of;
use crate::fields::etypes_of;
use crate::fields::nth_etype_of;
use crate::fields::field_is;
use crate::fields::field_text;
use crate::fields::fields;
use crate::fields::naturals;
use crate::fields::naturals_of;
use crate::fields::nth;
use crate::fields::nth_natural_of;
use crate::fields::LineField;
use crate::flavour::Flavour;
use crate::flavour::Solver;
use crate::elements::ElementType;
use crate::indexing::ElementPoint;
use crate::indexing::ElementRef;
use crate::indexing::ElementSide;
use crate::indexing::ElementSidedPoint;
use crate::indexing::QuadStrainField;
use crate::indexing::ForceOrigin;
use crate::indexing::GridPointForceOrigin;
use crate::indexing::Dof;
use crate::indexing::GridPointRef;
use crate::indexing::NasIndex;
use crate::indexing::QuadStressField;
use crate::indexing::SIXDOF;
use crate::numbers::Decimal;
use crate::text::contains;
use crate::text::has;

verus! {

/// Dashes that signal the end of a table.
pub const MYSTRAN_DASHES: &'static str = "-------------";

/// Number of columns of a table of stresses or strains in quadrilaterals.
pub const QUAD_WIDTH: usize = 8;

/// The columns of a table with one column for each degree of freedom.
pub open spec fn spec_dof_cols() -> Seq<NasIndex> {
    seq![
        NasIndex::Dof(Dof::Tx),
        NasIndex::Dof(Dof::Ty),
        NasIndex::Dof(Dof::Tz),
        NasIndex::Dof(Dof::Rx),
        NasIndex::Dof(Dof::Ry),
        NasIndex::Dof(Dof::Rz),
    ]
}

/// Returns the columns for the degrees of freedom, by position.
pub fn dof_cols() -> (r: Vec<NasIndex>)
    ensures
        r@ == spec_dof_cols(),
        r@.len() == SIXDOF,
{
    vec![
        NasIndex::Dof(Dof::Tx),
        NasIndex::Dof(Dof::Ty),
        NasIndex::Dof(Dof::Tz),
        NasIndex::Dof(Dof::Rx),
        NasIndex::Dof(Dof::Ry),
        NasIndex::Dof(Dof::Rz),
    ]
}

/// The columns of a table of stresses in quadrilateral elements.
pub open spec fn spec_quad_stress_cols() -> Seq<NasIndex> {
    seq![
        NasIndex::QuadStressField(QuadStressField::FibreDistance),
        NasIndex::QuadStressField(QuadStressField::NormalX),
        NasIndex::QuadStressField(QuadStressField::NormalY),
        NasIndex::QuadStressField(QuadStressField::ShearXY),
        NasIndex::QuadStressField(QuadStressField::Angle),
        NasIndex::QuadStressField(QuadStressField::Major),
        NasIndex::QuadStressField(QuadStressField::Minor),
        NasIndex::QuadStressField(QuadStressField::VonMises),
    ]
}

/// Returns the columns for quad stresses, by position.
pub fn quad_stress_cols() -> (r: Vec<NasIndex>)
    ensures
        r@ == spec_quad_stress_cols(),
        r@.len() == QUAD_WIDTH,
{
    vec![
        NasIndex::QuadStressField(QuadStressField::FibreDistance),
        NasIndex::QuadStressField(QuadStressField::NormalX),
        NasIndex::QuadStressField(QuadStressField::NormalY),
        NasIndex::QuadStressField(QuadStressField::ShearXY),
        NasIndex::QuadStressField(QuadStressField::Angle),
        NasIndex::QuadStressField(QuadStressField::Major),
        NasIndex::QuadStressField(QuadStressField::Minor),
        NasIndex::QuadStressField(QuadStressField::VonMises),
    ]
}

/// The row that a line of a grid-point table gives: six reals under the
/// grid point that the line's first natural names.
pub open spec fn grid_row(l: Seq<u8>) -> Option<(NasIndex, Seq<Decimal>)> {
    match (exact_reals(fields(l), SIXDOF as int), nth(naturals_of(fields(l)), 0)) {
        (Some(v), Some(gid)) => Some((NasIndex::GridPointRef(GridPointRef { gid }), v)),
        _ => None,
    }
}

/// What a decoder of a grid-point table makes of a line: dashes end the
/// table, a line with a row is data, and any other line is ignored.
pub open spec fn grid_response(l: Seq<u8>) -> LineResponse {
    if contains(l, MYSTRAN_DASHES.spec_bytes()) {
        LineResponse::Done
    } else if grid_row(l).is_some() {
        LineResponse::Data
    } else {
        LineResponse::Useless
    }
}

/// The rows of a grid-point table after a line.
pub open spec fn grid_table(t: Map<NasIndex, Seq<Decimal>>, l: Seq<u8>) -> Map<
    NasIndex,
    Seq<Decimal>,
> {
    if grid_response(l) == LineResponse::Data {
        t.insert(grid_row(l).unwrap().0, grid_row(l).unwrap().1)
    } else {
        t
    }
}

/// Feeds a line to a grid-point table.
pub fn consume_grid_line(data: &mut RowBlock, line: &str) -> (r: LineResponse)
    requires
        old(data).wf(),
        old(data).cols@.len() == SIXDOF,
    ensures
        final(data).wf(),
        final(data).cols@ == old(data).cols@,
        r == grid_response(line.spec_bytes()),
        final(data)@ == grid_table(old(data)@, line.spec_bytes()),
{
    let bytes = line.as_bytes();
    if has(bytes, MYSTRAN_DASHES.as_bytes()) {
        return LineResponse::Done;
    }
    let fs = breakdown(bytes);
    let dofs = match exact_reals_of(&fs, SIXDOF) {
        Some(arr) => arr,
        None => {
            return LineResponse::Useless;
        },
    };
    if let Some(gid) = nth_natural_of(&fs, 0) {
        data.insert(NasIndex::GridPointRef(GridPointRef { gid }), dofs);
        return LineResponse::Data;
    }
    LineResponse::Useless
}

/// The decoder of displacement blocks.
pub struct DisplacementsDecoder {
    /// The flavour of the report.
    pub flavour: Flavour,
    /// The rows read so far.
    pub data: RowBlock,
}

impl DisplacementsDecoder {
    /// Whether the decoder holds a table with the six columns.
    pub open spec fn wf(&self) -> bool {
        self.data.wf() && self.data.cols@ == spec_dof_cols()
    }

    /// Makes a decoder with no rows.
    pub fn new(flavour: Flavour) -> (r: Self)
        ensures
            r.wf(),
            r.flavour == flavour,
            r.data@ == Map::<NasIndex, Seq<Decimal>>::empty(),
    {
        Self { flavour, data: RowBlock::new(dof_cols()) }
    }

    /// Ends the decoding: the rows read become a block of this type.
    pub fn unwrap(self, subcase: usize, line_range: Option<(usize, usize)>) -> (r: FinalBlock)
        requires
            self.wf(),
        ensures
            r.wf(),
            r.block_type == BlockType::Displacements,
            r.subcase == subcase,
            r.line_range == line_range,
            r.col_indexes@ == spec_dof_cols(),
            r.rows() == self.data@,
    {
        self.data.finalise(BlockType::Displacements, subcase, line_range)
    }

    /// Feeds a line to the decoder.
    pub fn consume(&mut self, line: &str) -> (r: LineResponse)
        requires
            old(self).wf(),
        ensures
            final(self).wf(),
            final(self).flavour == old(self).flavour,
            r == grid_response(line.spec_bytes()),
            final(self).data@ == grid_table(old(self).data@, line.spec_bytes()),
    {
        consume_grid_line(&mut self.data, line)
    }
}

/// The decoder of blocks of forces of single-point constraint.
pub struct SpcForcesDecoder {
    /// The flavour of the report.
    pub flavour: Flavour,
    /// The rows read so far.
    pub data: RowBlock,
}

impl SpcForcesDecoder {
    /// Whether the decoder holds a table with the six columns.
    pub open spec fn wf(&self) -> bool {
        self.data.wf() && self.data.cols@ == spec_dof_cols()
    }

    /// Makes a decoder with no rows.
    pub fn new(flavour: Flavour) -> (r: Self)
        ensures
            r.wf(),
            r.flavour == flavour,
            r.data@ == Map::<NasIndex, Seq<Decimal>>::empty(),
    {
        Self { flavour, data: RowBlock::new(dof_cols()) }
    }

    /// Ends the decoding: the rows read become a block of this type.
    pub fn unwrap(self, subcase: usize, line_range: Option<(usize, usize)>) -> (r: FinalBlock)
        requires
            self.wf(),
        ensures
            r.wf(),
            r.block_type == BlockType::SpcForces,
            r.subcase == subcase,
            r.line_range == line_range,
            r.col_indexes@ == spec_dof_cols(),
            r.rows() == self.data@,
    {
        self.data.finalise(BlockType::SpcForces, subcase, line_range)
    }

    /// Feeds a line to the decoder.
    pub fn consume(&mut self, line: &str) -> (r: LineResponse)
        requires
            old(self).wf(),
        ensures
            final(self).wf(),
            final(self).flavour == old(self).flavour,
            r == grid_response(line.spec_bytes()),
            final(self).data@ == grid_table(old(self).data@, line.spec_bytes()),
    {
        consume_grid_line(&mut self.data, line)
    }
}

/// The decoder of blocks of applied forces.
pub struct AppliedForcesDecoder {
    /// The flavour of the report.
    pub flavour: Flavour,
    /// The rows read so far.
    pub data: RowBlock,
}

impl AppliedForcesDecoder {
    /// Whether the decoder holds a table with the six columns.
    pub open spec fn wf(&self) -> bool {
        self.data.wf() && self.data.cols@ == spec_dof_cols()
    }

    /// Makes a decoder with no rows.
    pub fn new(flavour: Flavour) -> (r: Self)
        ensures
            r.wf(),
            r.flavour == flavour,
            r.data@ == Map::<NasIndex, Seq<Decimal>>::empty(),
    {
        Self { flavour, data: RowBlock::new(dof_cols()) }
    }

    /// Ends the decoding: the rows read become a block of this type.
    pub fn unwrap(self, subcase: usize, line_range: Option<(usize, usize)>) -> (r: FinalBlock)
        requires
            self.wf(),
        ensures
            r.wf(),
            r.block_type == BlockType::AppliedForces,
            r.subcase == subcase,
            r.line_range == line_range,
            r.col_indexes@ == spec_dof_cols(),
            r.rows() == self.data@,
    {
        self.data.finalise(BlockType::AppliedForces, subcase, line_range)
    }

    /// Feeds a line to the decoder.
    pub fn consume(&mut self, line: &str) -> (r: LineResponse)
        requires
            old(self).wf(),
        ensures
            final(self).wf(),
            final(self).flavour == old(self).flavour,
            r == grid_response(line.spec_bytes()),
            final(self).data@ == grid_table(old(self).data@, line.spec_bytes()),
    {
        consume_grid_line(&mut self.data, line)
    }
}

/// The line that announces the grid point of the rows that follow.
pub const GRID_POINT_MARK: &'static str = "FORCE BALANCE FOR GRID POINT";

/// The mark of a line of totals.
pub const TOTALS_MARK: &'static str = "*TOTALS*";

/// MYSTRAN's label of a row of applied force.
pub const APPLIED_FORCE_LABEL: &'static str = "APPLIED FORCE";

/// MYSTRAN's label of a row of single-point constraint force.
pub const SPC_FORCE_LABEL: &'static str = "SPC FORCE";

/// MYSTRAN's label of a row of multi-point constraint force.
pub const MPC_FORCE_LABEL: &'static str = "MPC FORCE";

/// MYSTRAN's label of a row of element force.
pub const ELEM_LABEL: &'static str = "ELEM";

/// Simcenter's label of a row of applied load.
pub const APP_LOAD_LABEL: &'static str = "APP-LOAD";

/// Simcenter's label of a row of single-point constraint force.
pub const F_OF_SPC_LABEL: &'static str = "F-OF-SPC";

/// Simcenter's label of a row of multi-point constraint force.
pub const F_OF_MPC_LABEL: &'static str = "F-OF-MPC";

/// The grid point with a given number, where there is a number.
pub open spec fn grid_of(n: Option<usize>) -> Option<GridPointRef> {
    match n {
        Some(gid) => Some(GridPointRef { gid }),
        None => None,
    }
}

/// Executable form of [`grid_of`].
pub fn to_grid(n: Option<usize>) -> (r: Option<GridPointRef>)
    ensures
        r == grid_of(n),
{
    match n {
        Some(gid) => Some(GridPointRef { gid }),
        None => None,
    }
}

/// The origin of the force in a row written by MYSTRAN: the row's label
/// names it; a row of element force gives the element's number as its first
/// natural and, where it names one, the element's type.
pub open spec fn mystran_origin(l: Seq<u8>) -> Option<ForceOrigin> {
    if contains(l, APPLIED_FORCE_LABEL.spec_bytes()) {
        Some(ForceOrigin::Load)
    } else if contains(l, SPC_FORCE_LABEL.spec_bytes()) {
        Some(ForceOrigin::SinglePointConstraint)
    } else if contains(l, MPC_FORCE_LABEL.spec_bytes()) {
        Some(ForceOrigin::MultiPointConstraint)
    } else if contains(l, ELEM_LABEL.spec_bytes()) {
        match nth(naturals_of(fields(l)), 0) {
            Some(eid) => Some(
                ForceOrigin::Element { elem: ElementRef { eid, etype: nth(etypes_of(fields(l)), 0) } },
            ),
            None => None,
        }
    } else {
        None
    }
}

/// The grid point of a row written by Simcenter: its first natural, or its
/// second in a row of applied load.
pub open spec fn simcenter_grid(l: Seq<u8>) -> Option<GridPointRef> {
    if contains(l, APP_LOAD_LABEL.spec_bytes()) {
        grid_of(nth(naturals_of(fields(l)), 1))
    } else {
        grid_of(nth(naturals_of(fields(l)), 0))
    }
}

/// The origin of the force in a row written by Simcenter: the row's label
/// names it; a row without a label is a row of element force where it gives
/// a grid point, an element number as its second natural and an element
/// type.
pub open spec fn simcenter_origin(l: Seq<u8>) -> Option<ForceOrigin> {
    if contains(l, APP_LOAD_LABEL.spec_bytes()) {
        Some(ForceOrigin::Load)
    } else if contains(l, F_OF_SPC_LABEL.spec_bytes()) {
        Some(ForceOrigin::SinglePointConstraint)
    } else if contains(l, F_OF_MPC_LABEL.spec_bytes()) {
        Some(ForceOrigin::MultiPointConstraint)
    } else {
        match (
            nth(naturals_of(fields(l)), 0),
            nth(naturals_of(fields(l)), 1),
            nth(etypes_of(fields(l)), 0),
        ) {
            (Some(_), Some(eid), Some(etype)) => Some(
                ForceOrigin::Element { elem: ElementRef { eid, etype: Some(etype) } },
            ),
            _ => None,
        }
    }
}

/// The origin of the force in a row, by the solver that wrote it.
pub open spec fn force_origin(solver: Solver, l: Seq<u8>) -> Option<ForceOrigin> {
    match solver {
        Solver::Mystran => mystran_origin(l),
        Solver::Simcenter => simcenter_origin(l),
    }
}

/// The grid point of a row, by the solver that wrote it: MYSTRAN announces
/// the grid point on a line of its own, Simcenter repeats it in every row.
pub open spec fn row_grid(solver: Solver, gpref: Option<GridPointRef>, l: Seq<u8>) -> Option<
    GridPointRef,
> {
    match solver {
        Solver::Mystran => gpref,
        Solver::Simcenter => simcenter_grid(l),
    }
}

/// Whether a line of a force balance table is one of the marks that are
/// handled before any row is looked for.
pub open spec fn is_balance_mark(l: Seq<u8>) -> bool {
    contains(l, MYSTRAN_DASHES.spec_bytes()) || contains(l, GRID_POINT_MARK.spec_bytes())
        || contains(l, TOTALS_MARK.spec_bytes())
}

/// What a step of the force balance decoder yields.
pub struct BalanceStep {
    /// The answer to the line.
    pub response: LineResponse,
    /// The grid point after the line.
    pub gpref: Option<GridPointRef>,
    /// The row that the line gave, with its key.
    pub row: Option<(NasIndex, Seq<Decimal>)>,
}

/// A step of the force balance decoder.
///
/// Dashes end the table. The line that announces a grid point sets the
/// grid point. A line of totals is ignored. Of any other line the origin of
/// the force and the grid point are looked for: without a known solver the
/// decoder gives up; a line without an origin or without a grid point is
/// ignored; a line with both is a row where it holds six reals, and loses
/// the block where it does not.
pub open spec fn balance_step(
    solver: Option<Solver>,
    gpref: Option<GridPointRef>,
    l: Seq<u8>,
) -> BalanceStep {
    if contains(l, MYSTRAN_DASHES.spec_bytes()) {
        BalanceStep { response: LineResponse::Done, gpref, row: None }
    } else if contains(l, GRID_POINT_MARK.spec_bytes()) {
        BalanceStep {
            response: LineResponse::Metadata,
            gpref: grid_of(nth(naturals_of(fields(l)), 0)),
            row: None,
        }
    } else if contains(l, TOTALS_MARK.spec_bytes()) {
        BalanceStep { response: LineResponse::Useless, gpref, row: None }
    } else {
        match solver {
            None => BalanceStep { response: LineResponse::BadFlavour, gpref, row: None },
            Some(s) => {
                let g = row_grid(s, gpref, l);
                match (force_origin(s, l), g) {
                    (Some(fo), Some(gp)) => match exact_reals(fields(l), SIXDOF as int) {
                        Some(v) => BalanceStep {
                            response: LineResponse::Data,
                            gpref: g,
                            row: Some(
                                (
                                    NasIndex::GridPointForceOrigin(
                                        GridPointForceOrigin { grid_point: gp, force_origin: fo },
                                    ),
                                    v,
                                ),
                            ),
                        },
                        None => BalanceStep { response: LineResponse::Abort, gpref: g, row: None },
                    },
                    _ => BalanceStep { response: LineResponse::Useless, gpref: g, row: None },
                }
            },
        }
    }
}

/// The rows of a table after a step that may have given a row.
pub open spec fn with_row(t: Map<NasIndex, Seq<Decimal>>, row: Option<(NasIndex, Seq<Decimal>)>) -> Map<
    NasIndex,
    Seq<Decimal>,
> {
    match row {
        Some(r) => t.insert(r.0, r.1),
        None => t,
    }
}

/// The decoder for grid point force balance blocks.
pub struct GridPointForceBalanceDecoder {
    /// The flavour of the report.
    pub flavour: Flavour,
    /// The grid point of the rows that are being read.
    pub gpref: Option<GridPointRef>,
    /// The rows read so far.
    pub data: RowBlock,
}

impl GridPointForceBalanceDecoder {
    /// Whether the decoder holds a table with the six columns.
    pub open spec fn wf(&self) -> bool {
        self.data.wf() && self.data.cols@ == spec_dof_cols()
    }

    /// Makes a decoder with no rows and no grid point.
    pub fn new(flavour: Flavour) -> (r: Self)
        ensures
            r.wf(),
            r.flavour == flavour,
            r.gpref.is_none(),
            r.data@ == Map::<NasIndex, Seq<Decimal>>::empty(),
    {
        Self { flavour, gpref: None, data: RowBlock::new(dof_cols()) }
    }

    /// Ends the decoding: the rows read become a block of this type.
    pub fn unwrap(self, subcase: usize, line_range: Option<(usize, usize)>) -> (r: FinalBlock)
        requires
            self.wf(),
        ensures
            r.wf(),
            r.block_type == BlockType::GridPointForceBalance,
            r.subcase == subcase,
            r.line_range == line_range,
            r.col_indexes@ == spec_dof_cols(),
            r.rows() == self.data@,
    {
        self.data.finalise(BlockType::GridPointForceBalance, subcase, line_range)
    }

    /// Looks for the origin of the force in a row written by MYSTRAN.
    pub fn origin_mystran(bytes: &[u8], fs: &Vec<LineField>) -> (r: Option<ForceOrigin>)
        requires
            fs@ == fields(bytes@),
        ensures
            r == mystran_origin(bytes@),
    {
        if has(bytes, APPLIED_FORCE_LABEL.as_bytes()) {
            Some(ForceOrigin::Load)
        } else if has(bytes, SPC_FORCE_LABEL.as_bytes()) {
            Some(ForceOrigin::SinglePointConstraint)
        } else if has(bytes, MPC_FORCE_LABEL.as_bytes()) {
            Some(ForceOrigin::MultiPointConstraint)
        } else if has(bytes, ELEM_LABEL.as_bytes()) {
            match nth_natural_of(fs, 0) {
                Some(eid) => Some(
                    ForceOrigin::Element { elem: ElementRef { eid, etype: nth_etype_of(fs, 0) } },
                ),
                None => None,
            }
        } else {
            None
        }
    }

    /// Looks for the origin of the force in a row written by Simcenter.
    pub fn origin_simcenter(bytes: &[u8], fs: &Vec<LineField>) -> (r: Option<ForceOrigin>)
        requires
            fs@ == fields(bytes@),
        ensures
            r == simcenter_origin(bytes@),
    {
        if has(bytes, APP_LOAD_LABEL.as_bytes()) {
            Some(ForceOrigin::Load)
        } else if has(bytes, F_OF_SPC_LABEL.as_bytes()) {
            Some(ForceOrigin::SinglePointConstraint)
        } else if has(bytes, F_OF_MPC_LABEL.as_bytes()) {
            Some(ForceOrigin::MultiPointConstraint)
        } else {
            match (nth_natural_of(fs, 0), nth_natural_of(fs, 1), nth_etype_of(fs, 0)) {
                (Some(_), Some(eid), Some(etype)) => Some(
                    ForceOrigin::Element { elem: ElementRef { eid, etype: Some(etype) } },
                ),
                _ => None,
            }
        }
    }

    /// Feeds a line to the decoder.
    pub fn consume(&mut self, line: &str) -> (r: LineResponse)
        requires
            old(self).wf(),
        ensures
            final(self).wf(),
            final(self).flavour == old(self).flavour,
            r == balance_step(old(self).flavour.solver, old(self).gpref, line.spec_bytes()).response,
            final(self).gpref == balance_step(
                old(self).flavour.solver,
                old(self).gpref,
                line.spec_bytes(),
            ).gpref,
            final(self).data@ == with_row(
                old(self).data@,
                balance_step(old(self).flavour.solver, old(self).gpref, line.spec_bytes()).row,
            ),
    {
        let bytes = line.as_bytes();
        if has(bytes, MYSTRAN_DASHES.as_bytes()) {
            return LineResponse::Done;
        }
        let fs = breakdown(bytes);
        if has(bytes, GRID_POINT_MARK.as_bytes()) {
            self.gpref = to_grid(nth_natural_of(&fs, 0));
            return LineResponse::Metadata;
        }
        if has(bytes, TOTALS_MARK.as_bytes()) {
            return LineResponse::Useless;
        }
        let fo: Option<ForceOrigin> = match self.flavour.solver {
            Some(Solver::Mystran) => Self::origin_mystran(bytes, &fs),
            Some(Solver::Simcenter) => {
                if has(bytes, APP_LOAD_LABEL.as_bytes()) {
                    self.gpref = to_grid(nth_natural_of(&fs, 1));
                } else {
                    self.gpref = to_grid(nth_natural_of(&fs, 0));
                }
                Self::origin_simcenter(bytes, &fs)
            },
            None => {
                return LineResponse::BadFlavour;
            },
        };
        match (fo, self.gpref) {
            (Some(force_origin), Some(grid_point)) => {
                match exact_reals_of(&fs, SIXDOF) {
                    Some(arr) => {
                        self.data.insert(
                            NasIndex::GridPointForceOrigin(
                                GridPointForceOrigin { grid_point, force_origin },
                            ),
                            arr,
                        );
                        LineResponse::Data
                    },
                    None => LineResponse::Abort,
                }
            },
            _ => LineResponse::Useless,
        }
    }
}

/// A line that is no mark and gives no origin of force is ignored, whatever
/// the solver and the grid point: it never loses the block.
pub proof fn lemma_balance_without_origin(solver: Solver, gpref: Option<GridPointRef>, l: Seq<u8>)
    requires
        !is_balance_mark(l),
        force_origin(solver, l).is_none(),
    ensures
        balance_step(Some(solver), gpref, l).response == LineResponse::Useless,
        balance_step(Some(solver), gpref, l).row.is_none(),
{
}

/// A line that is no mark and gives an origin of force and a grid point,
/// and does not hold six reals, loses the block and gives no row.
pub proof fn lemma_balance_bad_values(solver: Solver, gpref: Option<GridPointRef>, l: Seq<u8>)
    requires
        !is_balance_mark(l),
        force_origin(solver, l).is_some(),
        row_grid(solver, gpref, l).is_some(),
        exact_reals(fields(l), SIXDOF as int).is_none(),
    ensures
        balance_step(Some(solver), gpref, l).response == LineResponse::Abort,
        balance_step(Some(solver), gpref, l).row.is_none(),
{
}

/// No line makes the force balance decoder lose its block unless the line
/// gives an origin of force.
pub proof fn lemma_balance_abort_needs_origin(
    solver: Option<Solver>,
    gpref: Option<GridPointRef>,
    l: Seq<u8>,
)
    requires
        balance_step(solver, gpref, l).response == LineResponse::Abort,
    ensures
        solver.is_some(),
        force_origin(solver.unwrap(), l).is_some(),
{
}

/// The word that marks the centre of an element in MYSTRAN's tables.
pub const CENTER_WORD: &'static str = "CENTER";

/// The word that marks a corner of an element in MYSTRAN's tables.
pub const GRD_WORD: &'static str = "GRD";

/// The word that marks the centre of an element in Simcenter's tables.
pub const CEN4_WORD: &'static str = "CEN/4";

/// A word of a header of a table of thermal stresses or strains.
pub const THERMAL_WORD: &'static str = "THERMAL";

/// A word of a header of a table of elastic stresses or strains.
pub const ELASTIC_WORD: &'static str = "ELASTIC";

/// Whether a field denotes nothing.
pub open spec fn is_no_idea(f: Option<LineField>) -> bool {
    match f {
        Some(LineField::NoIdea { .. }) => true,
        _ => false,
    }
}

/// The natural that a field denotes, where it denotes one.
pub open spec fn natural_in(f: Option<LineField>) -> Option<usize> {
    match f {
        Some(LineField::Natural(n)) => Some(n),
        _ => None,
    }
}

/// Whether a field denotes nothing and reads as `word`.
pub open spec fn reads_as(l: Seq<u8>, f: Option<LineField>, word: Seq<u8>) -> bool {
    match f {
        Some(x) => field_text(l, x) == Some(word),
        None => false,
    }
}

/// The row that a line written by MYSTRAN addresses, where it addresses
/// one.
///
/// A line that starts with a natural and a word opens an element: the
/// natural is the element's number, the row is on the bottom side, at the
/// centre where the line holds the centre's word, else at the corner whose
/// grid point the third field gives after the corner's word. A line that
/// starts with the corner's word and a natural moves the current row to
/// that corner; one that starts with the centre's word moves it to the
/// centre; any other line moves it to the other side. A line that moves the
/// current row addresses nothing while there is no current row.
pub open spec fn mystran_target(
    etype: Option<ElementType>,
    cur: Option<ElementSidedPoint>,
    l: Seq<u8>,
) -> Option<ElementSidedPoint> {
    let fs = fields(l);
    let f0 = nth(fs, 0);
    let f1 = nth(fs, 1);
    if natural_in(f0).is_some() && is_no_idea(f1) {
        let element = ElementRef { eid: natural_in(f0).unwrap(), etype };
        if contains(l, CENTER_WORD.spec_bytes()) {
            Some(ElementSidedPoint { element, point: ElementPoint::Centroid, side: ElementSide::Bottom })
        } else if contains(l, GRD_WORD.spec_bytes()) {
            match natural_in(nth(fs, 2)) {
                Some(gid) => Some(
                    ElementSidedPoint {
                        element,
                        point: ElementPoint::Corner(GridPointRef { gid }),
                        side: ElementSide::Bottom,
                    },
                ),
                None => None,
            }
        } else {
            None
        }
    } else if reads_as(l, f0, GRD_WORD.spec_bytes()) && natural_in(f1).is_some() {
        match cur {
            Some(ri) => Some(
                ElementSidedPoint {
                    element: ri.element,
                    point: ElementPoint::Corner(GridPointRef { gid: natural_in(f1).unwrap() }),
                    side: ri.side,
                },
            ),
            None => None,
        }
    } else if reads_as(l, f0, CENTER_WORD.spec_bytes()) {
        match cur {
            Some(ri) => Some(
                ElementSidedPoint { element: ri.element, point: ElementPoint::Centroid, side: ri.side },
            ),
            None => None,
        }
    } else {
        match cur {
            Some(ri) => Some(ri.spec_flipped()),
            None => None,
        }
    }
}

/// The row that a line written by Simcenter addresses, where it addresses
/// one.
///
/// A line without a natural moves the current row to the other side. A
/// line with naturals opens a row on the top side: at the centre where the
/// line holds the centre's word, else at the corner that its last natural
/// names; of the element that its second natural names or, where it has
/// only one, of the element of the current row.
pub open spec fn simcenter_target(
    etype: Option<ElementType>,
    cur: Option<ElementSidedPoint>,
    l: Seq<u8>,
) -> Option<ElementSidedPoint> {
    let ints = naturals_of(fields(l));
    if ints.len() == 0 {
        match cur {
            Some(ri) => Some(ri.spec_flipped()),
            None => None,
        }
    } else {
        let point = if contains(l, CEN4_WORD.spec_bytes()) {
            ElementPoint::Centroid
        } else {
            ElementPoint::Corner(GridPointRef { gid: ints.last() })
        };
        let eid = if ints.len() > 1 {
            Some(ints[1])
        } else {
            match cur {
                Some(ri) => Some(ri.element.eid),
                None => None,
            }
        };
        match eid {
            Some(eid) => Some(
                ElementSidedPoint { element: ElementRef { eid, etype }, point, side: ElementSide::Top },
            ),
            None => None,
        }
    }
}

/// The row that a line addresses, by the solver that wrote it.
pub open spec fn quad_target(
    solver: Solver,
    etype: Option<ElementType>,
    cur: Option<ElementSidedPoint>,
    l: Seq<u8>,
) -> Option<ElementSidedPoint> {
    match solver {
        Solver::Mystran => mystran_target(etype, cur, l),
        Solver::Simcenter => simcenter_target(etype, cur, l),
    }
}

/// What a step of the decoder of quad stresses yields.
pub struct QuadStep {
    /// The answer to the line.
    pub response: LineResponse,
    /// The current row after the line.
    pub cur_row: Option<ElementSidedPoint>,
    /// The row that the line gave, with its key.
    pub row: Option<(NasIndex, Seq<Decimal>)>,
}

/// A step of the decoder of quad stresses.
///
/// A line that does not hold eight reals is ignored. Without a known
/// solver the decoder gives up. A line that addresses a row gives its
/// eight reals to that row, which becomes the current row; a line that
/// addresses none loses the block.
pub open spec fn quad_step(
    solver: Option<Solver>,
    etype: Option<ElementType>,
    cur: Option<ElementSidedPoint>,
    l: Seq<u8>,
) -> QuadStep {
    match exact_reals(fields(l), QUAD_WIDTH as int) {
        None => QuadStep { response: LineResponse::Useless, cur_row: cur, row: None },
        Some(v) => match solver {
            None => QuadStep { response: LineResponse::BadFlavour, cur_row: cur, row: None },
            Some(s) => match quad_target(s, etype, cur, l) {
                Some(p) => QuadStep {
                    response: LineResponse::Data,
                    cur_row: Some(p),
                    row: Some((NasIndex::ElementSidedPoint(p), v)),
                },
                None => QuadStep { response: LineResponse::Abort, cur_row: cur, row: None },
            },
        },
    }
}

/// Whether a header opens a table that is decoded: tables of thermal or
/// elastic stresses share the header's text and are not.
pub open spec fn quad_header_ok(header: Seq<u8>) -> bool {
    !contains(header, THERMAL_WORD.spec_bytes()) && !contains(header, ELASTIC_WORD.spec_bytes())
}

/// The field at position `n`, where there is one.
pub fn field_at(fs: &Vec<LineField>, n: usize) -> (r: Option<LineField>)
    ensures
        r == nth(fs@, n as int),
{
    if n < fs.len() {
        Some(fs[n])
    } else {
        None
    }
}

/// Executable form of [`natural_in`].
pub fn natural_at(f: &Option<LineField>) -> (r: Option<usize>)
    ensures
        r == natural_in(*f),
{
    match f {
        Some(LineField::Natural(n)) => Some(*n),
        _ => None,
    }
}

/// Executable form of [`reads_as`].
pub fn field_reads(line: &[u8], f: &Option<LineField>, word: &[u8]) -> (r: bool)
    ensures
        r == reads_as(line@, *f, word@),
{
    match f {
        Some(x) => field_is(line, x, word),
        None => false,
    }
}

/// A decoder for the table of stresses in quad elements.
pub struct QuadStressesDecoder {
    /// The flavour of the report.
    pub flavour: Flavour,
    /// The rows read so far.
    pub data: RowBlock,
    /// The row that the last line of data went to.
    pub cur_row: Option<ElementSidedPoint>,
    /// The element type that the header named.
    pub etype: Option<ElementType>,
}

impl QuadStressesDecoder {
    /// Whether the decoder holds a table with the eight columns.
    pub open spec fn wf(&self) -> bool {
        self.data.wf() && self.data.cols@ == spec_quad_stress_cols()
    }

    /// Makes a decoder with no rows, no current row and no element type.
    pub fn new(flavour: Flavour) -> (r: Self)
        ensures
            r.wf(),
            r.flavour == flavour,
            r.cur_row.is_none(),
            r.etype.is_none(),
            r.data@ == Map::<NasIndex, Seq<Decimal>>::empty(),
    {
        Self { flavour, data: RowBlock::new(quad_stress_cols()), cur_row: None, etype: None }
    }

    /// Ends the decoding: the rows read become a block of this type.
    pub fn unwrap(self, subcase: usize, line_range: Option<(usize, usize)>) -> (r: FinalBlock)
        requires
            self.wf(),
        ensures
            r.wf(),
            r.block_type == BlockType::QuadStresses,
            r.subcase == subcase,
            r.line_range == line_range,
            r.col_indexes@ == spec_quad_stress_cols(),
            r.rows() == self.data@,
    {
        self.data.finalise(BlockType::QuadStresses, subcase, line_range)
    }

    /// Looks at the header that opened the block: takes the element type
    /// that it names, and tells whether the table is one that is decoded.
    pub fn good_header(&mut self, header: &str) -> (r: bool)
        requires
            old(self).wf(),
        ensures
            final(self).wf(),
            final(self).flavour == old(self).flavour,
            final(self).cur_row == old(self).cur_row,
            final(self).data@ == old(self).data@,
            final(self).etype == nth(etypes_of(fields(header.spec_bytes())), 0),
            r == quad_header_ok(header.spec_bytes()),
    {
        self.good_header_bytes(header.as_bytes())
    }

    /// Looks at the header that opened the block, given as bytes.
    pub fn good_header_bytes(&mut self, bytes: &[u8]) -> (r: bool)
        requires
            old(self).wf(),
        ensures
            final(self).wf(),
            final(self).flavour == old(self).flavour,
            final(self).cur_row == old(self).cur_row,
            final(self).data@ == old(self).data@,
            final(self).etype == nth(etypes_of(fields(bytes@)), 0),
            r == quad_header_ok(bytes@),
    {
        let fs = breakdown(bytes);
        self.etype = nth_etype_of(&fs, 0);
        if has(bytes, THERMAL_WORD.as_bytes()) || has(bytes, ELASTIC_WORD.as_bytes()) {
            return false;
        }
        true
    }

    /// Finds the row that a line written by MYSTRAN addresses.
    pub fn target_mystran(&self, bytes: &[u8], fs: &Vec<LineField>) -> (r: Option<ElementSidedPoint>)
        requires
            fs@ == fields(bytes@),
        ensures
            r == mystran_target(self.etype, self.cur_row, bytes@),
    {
        let f0 = field_at(fs, 0);
        let f1 = field_at(fs, 1);
        let first = natural_at(&f0);
        let second = natural_at(&f1);
        if first.is_some() && matches!(f1, Some(LineField::NoIdea { .. })) {
            let element = ElementRef { eid: first.unwrap(), etype: self.etype };
            if has(bytes, CENTER_WORD.as_bytes()) {
                Some(
                    ElementSidedPoint {
                        element,
                        point: ElementPoint::Centroid,
                        side: ElementSide::Bottom,
                    },
                )
            } else if has(bytes, GRD_WORD.as_bytes()) {
                match natural_at(&field_at(fs, 2)) {
                    Some(gid) => Some(
                        ElementSidedPoint {
                            element,
                            point: ElementPoint::Corner(GridPointRef { gid }),
                            side: ElementSide::Bottom,
                        },
                    ),
                    None => None,
                }
            } else {
                None
            }
        } else if field_reads(bytes, &f0, GRD_WORD.as_bytes()) && second.is_some() {
            match self.cur_row {
                Some(ri) => Some(
                    ElementSidedPoint {
                        element: ri.element,
                        point: ElementPoint::Corner(GridPointRef { gid: second.unwrap() }),
                        side: ri.side,
                    },
                ),
                None => None,
            }
        } else if field_reads(bytes, &f0, CENTER_WORD.as_bytes()) {
            match self.cur_row {
                Some(ri) => Some(
                    ElementSidedPoint {
                        element: ri.element,
                        point: ElementPoint::Centroid,
                        side: ri.side,
                    },
                ),
                None => None,
            }
        } else {
            match self.cur_row {
                Some(ri) => {
                    let mut flipped = ri;
                    flipped.flip_side();
                    Some(flipped)
                },
                None => None,
            }
        }
    }

    /// Finds the row that a line written by Simcenter addresses.
    pub fn target_simcenter(&self, bytes: &[u8], fs: &Vec<LineField>) -> (r: Option<
        ElementSidedPoint,
    >)
        requires
            fs@ == fields(bytes@),
        ensures
            r == simcenter_target(self.etype, self.cur_row, bytes@),
    {
        let ints = naturals(fs);
        if ints.len() == 0 {
            match self.cur_row {
                Some(ri) => {
                    let mut flipped = ri;
                    flipped.flip_side();
                    Some(flipped)
                },
                None => None,
            }
        } else {
            let point = if has(bytes, CEN4_WORD.as_bytes()) {
                ElementPoint::Centroid
            } else {
                ElementPoint::Corner(GridPointRef { gid: ints[ints.len() - 1] })
            };
            let eid = if ints.len() > 1 {
                Some(ints[1])
            } else {
                match self.cur_row {
                    Some(ri) => Some(ri.element.eid),
                    None => None,
                }
            };
            match eid {
                Some(eid) => Some(
                    ElementSidedPoint {
                        element: ElementRef { eid, etype: self.etype },
                        point,
                        side: ElementSide::Top,
                    },
                ),
                None => None,
            }
        }
    }

    /// Feeds a line to the decoder.
    pub fn consume(&mut self, line: &str) -> (r: LineResponse)
        requires
            old(self).wf(),
        ensures
            final(self).wf(),
            final(self).flavour == old(self).flavour,
            final(self).etype == old(self).etype,
            r == quad_step(
                old(self).flavour.solver,
                old(self).etype,
                old(self).cur_row,
                line.spec_bytes(),
            ).response,
            final(self).cur_row == quad_step(
                old(self).flavour.solver,
                old(self).etype,
                old(self).cur_row,
                line.spec_bytes(),
            ).cur_row,
            final(self).data@ == with_row(
                old(self).data@,
                quad_step(
                    old(self).flavour.solver,
                    old(self).etype,
                    old(self).cur_row,
                    line.spec_bytes(),
                ).row,
            ),
    {
        let bytes = line.as_bytes();
        let fs = breakdown(bytes);
        let cols = match exact_reals_of(&fs, QUAD_WIDTH) {
            Some(arr) => arr,
            None => {
                return LineResponse::Useless;
            },
        };
        let target = match self.flavour.solver {
            Some(Solver::Mystran) => self.target_mystran(bytes, &fs),
            Some(Solver::Simcenter) => self.target_simcenter(bytes, &fs),
            None => {
                return LineResponse::BadFlavour;
            },
        };
        match target {
            Some(rid) => {
                self.cur_row = Some(rid);
                self.data.insert(NasIndex::ElementSidedPoint(rid), cols);
                LineResponse::Data
            },
            None => LineResponse::Abort,
        }
    }
}

/// The columns of a table of strains in quadrilateral elements.
pub open spec fn spec_quad_strain_cols() -> Seq<NasIndex> {
    seq![
        NasIndex::QuadStrainField(QuadStrainField::FibreDistance),
        NasIndex::QuadStrainField(QuadStrainField::NormalX),
        NasIndex::QuadStrainField(QuadStrainField::NormalY),
        NasIndex::QuadStrainField(QuadStrainField::ShearXY),
        NasIndex::QuadStrainField(QuadStrainField::Angle),
        NasIndex::QuadStrainField(QuadStrainField::Major),
        NasIndex::QuadStrainField(QuadStrainField::Minor),
        NasIndex::QuadStrainField(QuadStrainField::VonMises),
    ]
}

/// The column of strains that stands for a column of stresses; any other
/// column stands for itself.
pub open spec fn strain_col(c: NasIndex) -> NasIndex {
    match c {
        NasIndex::QuadStressField(q) => NasIndex::QuadStrainField(
            QuadStrainField::spec_from_stress(q),
        ),
        _ => c,
    }
}

/// Turns columns of stresses into the columns of strains.
pub fn strain_cols(cols: &Vec<NasIndex>) -> (r: Vec<NasIndex>)
    ensures
        r@.len() == cols@.len(),
        forall|i: int| 0 <= i < cols@.len() ==> r@[i] == strain_col(#[trigger] cols@[i]),
{
    let mut r: Vec<NasIndex> = Vec::new();
    let mut i: usize = 0;
    while i < cols.len()
        invariant
            i <= cols@.len(),
            r@.len() == i,
            forall|j: int| 0 <= j < i ==> r@[j] == strain_col(#[trigger] cols@[j]),
        decreases cols@.len() - i,
    {
        let c = match cols[i] {
            NasIndex::QuadStressField(q) => NasIndex::QuadStrainField(QuadStrainField::from_stress(q)),
            other => other,
        };
        r.push(c);
        i += 1;
    }
    r
}

/// A decoder for the table of strains in quad elements. The table is laid
/// out as the table of stresses is, and is read by the same decoder.
pub struct QuadStrainsDecoder {
    /// The decoder that reads the lines.
    pub inner: QuadStressesDecoder,
}

impl QuadStrainsDecoder {
    /// Whether the decoder holds a table with the eight columns.
    pub open spec fn wf(&self) -> bool {
        self.inner.wf()
    }

    /// Makes a decoder with no rows, no current row and no element type.
    pub fn new(flavour: Flavour) -> (r: Self)
        ensures
            r.wf(),
            r.inner.flavour == flavour,
            r.inner.cur_row.is_none(),
            r.inner.etype.is_none(),
            r.inner.data@ == Map::<NasIndex, Seq<Decimal>>::empty(),
    {
        Self { inner: QuadStressesDecoder::new(flavour) }
    }

    /// Looks at the header that opened the block, as the decoder of
    /// stresses does.
    pub fn good_header(&mut self, header: &str) -> (r: bool)
        requires
            old(self).wf(),
        ensures
            final(self).wf(),
            final(self).inner.flavour == old(self).inner.flavour,
            final(self).inner.cur_row == old(self).inner.cur_row,
            final(self).inner.data@ == old(self).inner.data@,
            final(self).inner.etype == nth(etypes_of(fields(header.spec_bytes())), 0),
            r == quad_header_ok(header.spec_bytes()),
    {
        self.inner.good_header(header)
    }

    /// Looks at the header that opened the block, given as bytes.
    pub fn good_header_bytes(&mut self, bytes: &[u8]) -> (r: bool)
        requires
            old(self).wf(),
        ensures
            final(self).wf(),
            final(self).inner.flavour == old(self).inner.flavour,
            final(self).inner.cur_row == old(self).inner.cur_row,
            final(self).inner.data@ == old(self).inner.data@,
            final(self).inner.etype == nth(etypes_of(fields(bytes@)), 0),
            r == quad_header_ok(bytes@),
    {
        self.inner.good_header_bytes(bytes)
    }

    /// Ends the decoding: the rows read become a block of strains, under
    /// the columns of strains.
    pub fn unwrap(self, subcase: usize, line_range: Option<(usize, usize)>) -> (r: FinalBlock)
        requires
            self.wf(),
        ensures
            r.wf(),
            r.block_type == BlockType::QuadStrains,
            r.subcase == subcase,
            r.line_range == line_range,
            r.col_indexes@ == spec_quad_strain_cols(),
            r.rows() == self.inner.data@,
    {
        let mut fb = self.inner.unwrap(subcase, line_range);
        let cols = strain_cols(&fb.col_indexes);
        proof {
            assert(cols@ =~= spec_quad_strain_cols());
        }
        fb.col_indexes = cols;
        fb.block_type = BlockType::QuadStrains;
        fb
    }

    /// Feeds a line to the decoder, as the decoder of stresses reads it.
    pub fn consume(&mut self, line: &str) -> (r: LineResponse)
        requires
            old(self).wf(),
        ensures
            final(self).wf(),
            final(self).inner.flavour == old(self).inner.flavour,
            final(self).inner.etype == old(self).inner.etype,
            r == quad_step(
                old(self).inner.flavour.solver,
                old(self).inner.etype,
                old(self).inner.cur_row,
                line.spec_bytes(),
            ).response,
            final(self).inner.cur_row == quad_step(
                old(self).inner.flavour.solver,
                old(self).inner.etype,
                old(self).inner.cur_row,
                line.spec_bytes(),
            ).cur_row,
            final(self).inner.data@ == with_row(
                old(self).inner.data@,
                quad_step(
                    old(self).inner.flavour.solver,
                    old(self).inner.etype,
                    old(self).inner.cur_row,
                    line.spec_bytes(),
                ).row,
            ),
    {
        self.inner.consume(line)
    }
}

/// What a decoder holds, whatever its type.
pub struct DecoderView {
    /// The type of block that the decoder reads.
    pub kind: BlockType,
    /// The flavour that the decoder was made for.
    pub flavour: Flavour,
    /// The grid point of the rows that are being read, where the decoder
    /// keeps one.
    pub gpref: Option<GridPointRef>,
    /// The row that the last line of data went to, where the decoder keeps
    /// one.
    pub cur_row: Option<ElementSidedPoint>,
    /// The element type that the header named, where the decoder keeps one.
    pub etype: Option<ElementType>,
    /// The rows read so far.
    pub table: Map<NasIndex, Seq<Decimal>>,
}

/// Whether blocks of a type are decoded.
pub open spec fn supported(t: BlockType) -> bool {
    t == BlockType::Displacements || t == BlockType::GridPointForceBalance || t
        == BlockType::SpcForces || t == BlockType::AppliedForces || t == BlockType::QuadStresses || t
        == BlockType::QuadStrains
}

/// Whether a type of block is read as a table of stresses in quad elements.
pub open spec fn reads_quads(t: BlockType) -> bool {
    t == BlockType::QuadStresses || t == BlockType::QuadStrains
}

/// Whether a type of block is read as a table with one row for each grid
/// point.
pub open spec fn reads_grid_rows(t: BlockType) -> bool {
    t == BlockType::Displacements || t == BlockType::SpcForces || t == BlockType::AppliedForces
}

/// The columns of the blocks of a type.
pub open spec fn cols_of(t: BlockType) -> Seq<NasIndex> {
    if t == BlockType::QuadStresses {
        spec_quad_stress_cols()
    } else if t == BlockType::QuadStrains {
        spec_quad_strain_cols()
    } else {
        spec_dof_cols()
    }
}

/// A decoder of a type that has read nothing.
pub open spec fn fresh(t: BlockType, flavour: Flavour) -> DecoderView {
    DecoderView {
        kind: t,
        flavour,
        gpref: None,
        cur_row: None,
        etype: None,
        table: Map::empty(),
    }
}

/// Whether a decoder accepts the header that opened its block.
pub open spec fn header_accepted(d: DecoderView, header: Seq<u8>) -> bool {
    reads_quads(d.kind) ==> quad_header_ok(header)
}

/// A decoder after it has seen the header that opened its block.
pub open spec fn with_header(d: DecoderView, header: Seq<u8>) -> DecoderView {
    if reads_quads(d.kind) {
        DecoderView { etype: nth(etypes_of(fields(header)), 0), ..d }
    } else {
        d
    }
}

/// The answer of a decoder to a line.
pub open spec fn decoder_response(d: DecoderView, l: Seq<u8>) -> LineResponse {
    if reads_grid_rows(d.kind) {
        grid_response(l)
    } else if d.kind == BlockType::GridPointForceBalance {
        balance_step(d.flavour.solver, d.gpref, l).response
    } else {
        quad_step(d.flavour.solver, d.etype, d.cur_row, l).response
    }
}

/// A decoder after a line.
pub open spec fn decoder_after(d: DecoderView, l: Seq<u8>) -> DecoderView {
    if reads_grid_rows(d.kind) {
        DecoderView { table: grid_table(d.table, l), ..d }
    } else if d.kind == BlockType::GridPointForceBalance {
        DecoderView {
            gpref: balance_step(d.flavour.solver, d.gpref, l).gpref,
            table: with_row(d.table, balance_step(d.flavour.solver, d.gpref, l).row),
            ..d
        }
    } else {
        DecoderView {
            cur_row: quad_step(d.flavour.solver, d.etype, d.cur_row, l).cur_row,
            table: with_row(d.table, quad_step(d.flavour.solver, d.etype, d.cur_row, l).row),
            ..d
        }
    }
}

/// The block that a decoder's rows make.
pub open spec fn block_of(d: DecoderView, subcase: usize, line_range: Option<(usize, usize)>) -> BlockView {
    BlockView { block_type: d.kind, subcase, line_range, cols: cols_of(d.kind), rows: d.table }
}

/// A decoder of any of the supported block types.
pub enum Decoder {
    /// A decoder of displacements.
    Displacements(DisplacementsDecoder),
    /// A decoder of grid point force balance.
    GridPointForceBalance(GridPointForceBalanceDecoder),
    /// A decoder of forces of single-point constraint.
    SpcForces(SpcForcesDecoder),
    /// A decoder of applied forces.
    AppliedForces(AppliedForcesDecoder),
    /// A decoder of stresses in quad elements.
    QuadStresses(QuadStressesDecoder),
    /// A decoder of strains in quad elements.
    QuadStrains(QuadStrainsDecoder),
}

impl Decoder {
    /// Whether the decoder holds a table with the columns of its type.
    pub open spec fn wf(&self) -> bool {
        match self {
            Decoder::Displacements(d) => d.wf(),
            Decoder::GridPointForceBalance(d) => d.wf(),
            Decoder::SpcForces(d) => d.wf(),
            Decoder::AppliedForces(d) => d.wf(),
            Decoder::QuadStresses(d) => d.wf(),
            Decoder::QuadStrains(d) => d.wf(),
        }
    }

    /// What the decoder holds.
    pub open spec fn view(&self) -> DecoderView {
        match self {
            Decoder::Displacements(d) => DecoderView {
                kind: BlockType::Displacements,
                flavour: d.flavour,
                gpref: None,
                cur_row: None,
                etype: None,
                table: d.data@,
            },
            Decoder::GridPointForceBalance(d) => DecoderView {
                kind: BlockType::GridPointForceBalance,
                flavour: d.flavour,
                gpref: d.gpref,
                cur_row: None,
                etype: None,
                table: d.data@,
            },
            Decoder::SpcForces(d) => DecoderView {
                kind: BlockType::SpcForces,
                flavour: d.flavour,
                gpref: None,
                cur_row: None,
                etype: None,
                table: d.data@,
            },
            Decoder::AppliedForces(d) => DecoderView {
                kind: BlockType::AppliedForces,
                flavour: d.flavour,
                gpref: None,
                cur_row: None,
                etype: None,
                table: d.data@,
            },
            Decoder::QuadStresses(d) => DecoderView {
                kind: BlockType::QuadStresses,
                flavour: d.flavour,
                gpref: None,
                cur_row: d.cur_row,
                etype: d.etype,
                table: d.data@,
            },
            Decoder::QuadStrains(d) => DecoderView {
                kind: BlockType::QuadStrains,
                flavour: d.inner.flavour,
                gpref: None,
                cur_row: d.inner.cur_row,
                etype: d.inner.etype,
                table: d.inner.data@,
            },
        }
    }

    /// Makes a decoder for blocks of a type, where the type is decoded.
    pub fn new(t: BlockType, flavour: Flavour) -> (r: Option<Decoder>)
        ensures
            r.is_some() == supported(t),
            r.is_some() ==> r.unwrap().wf() && r.unwrap()@ == fresh(t, flavour),
    {
        match t {
            BlockType::Displacements => Some(
                Decoder::Displacements(DisplacementsDecoder::new(flavour)),
            ),
            BlockType::GridPointForceBalance => Some(
                Decoder::GridPointForceBalance(GridPointForceBalanceDecoder::new(flavour)),
            ),
            BlockType::SpcForces => Some(Decoder::SpcForces(SpcForcesDecoder::new(flavour))),
            BlockType::AppliedForces => Some(
                Decoder::AppliedForces(AppliedForcesDecoder::new(flavour)),
            ),
            BlockType::QuadStresses => Some(Decoder::QuadStresses(QuadStressesDecoder::new(flavour))),
            BlockType::QuadStrains => Some(Decoder::QuadStrains(QuadStrainsDecoder::new(flavour))),
            _ => None,
        }
    }

    /// The type of block that the decoder reads.
    pub fn block_type(&self) -> (r: BlockType)
        ensures
            r == self@.kind,
            supported(r),
    {
        match self {
            Decoder::Displacements(_) => BlockType::Displacements,
            Decoder::GridPointForceBalance(_) => BlockType::GridPointForceBalance,
            Decoder::SpcForces(_) => BlockType::SpcForces,
            Decoder::AppliedForces(_) => BlockType::AppliedForces,
            Decoder::QuadStresses(_) => BlockType::QuadStresses,
            Decoder::QuadStrains(_) => BlockType::QuadStrains,
        }
    }

    /// Number of rows read so far.
    pub fn row_count(&self) -> (r: usize)
        requires
            self.wf(),
        ensures
            r == self@.table.dom().len(),
    {
        match self {
            Decoder::Displacements(d) => d.data.len(),
            Decoder::GridPointForceBalance(d) => d.data.len(),
            Decoder::SpcForces(d) => d.data.len(),
            Decoder::AppliedForces(d) => d.data.len(),
            Decoder::QuadStresses(d) => d.data.len(),
            Decoder::QuadStrains(d) => d.inner.data.len(),
        }
    }

    /// Shows the decoder the header that opened its block, in plain form,
    /// and tells whether the decoder accepts it.
    pub fn good_header(&mut self, header: &[u8]) -> (r: bool)
        requires
            old(self).wf(),
        ensures
            final(self).wf(),
            final(self)@ == with_header(old(self)@, header@),
            r == header_accepted(old(self)@, header@),
    {
        match self {
            Decoder::QuadStresses(d) => d.good_header_bytes(header),
            Decoder::QuadStrains(d) => d.good_header_bytes(header),
            _ => true,
        }
    }

    /// Feeds a line to the decoder.
    pub fn consume(&mut self, line: &str) -> (r: LineResponse)
        requires
            old(self).wf(),
        ensures
            final(self).wf(),
            r == decoder_response(old(self)@, line.spec_bytes()),
            final(self)@ == decoder_after(old(self)@, line.spec_bytes()),
    {
        match self {
            Decoder::Displacements(d) => d.consume(line),
            Decoder::GridPointForceBalance(d) => d.consume(line),
            Decoder::SpcForces(d) => d.consume(line),
            Decoder::AppliedForces(d) => d.consume(line),
            Decoder::QuadStresses(d) => d.consume(line),
            Decoder::QuadStrains(d) => d.consume(line),
        }
    }

    /// Ends the decoding: the rows read become a block of the decoder's
    /// type, for the given subcase and range of lines.
    pub fn unwrap(self, subcase: usize, line_range: Option<(usize, usize)>) -> (r: FinalBlock)
        requires
            self.wf(),
        ensures
            r.wf(),
            r@ == block_of(self@, subcase, line_range),
    {
        match self {
            Decoder::Displacements(d) => d.unwrap(subcase, line_range),
            Decoder::GridPointForceBalance(d) => d.unwrap(subcase, line_range),
            Decoder::SpcForces(d) => d.unwrap(subcase, line_range),
            Decoder::AppliedForces(d) => d.unwrap(subcase, line_range),
            Decoder::QuadStresses(d) => d.unwrap(subcase, line_range),
            Decoder::QuadStrains(d) => d.unwrap(subcase, line_range),
        }
    }
}

impl BlockType {
    /// Instantiates the decoder for this block type, where the type is
    /// decoded.
    pub fn init_decoder(&self, flavour: Flavour) -> (r: Option<Decoder>)
        ensures
            r.is_some() == supported(*self),
            r.is_some() ==> r.unwrap().wf() && r.unwrap()@ == fresh(*self, flavour),
    {
        Decoder::new(*self, flavour)
    }
}

} // verus!
