//! The catalogue of known data blocks: what each is called and the header
//! lines that open it.

use vstd::prelude::*;

verus! {

/// The known data blocks.
#[derive(Clone, Copy, Debug, PartialEq, Eq, Structural, PartialOrd, Ord, Hash)]
#[non_exhaustive]
pub enum BlockType {
    /// Grid point displacements.
    Displacements,
    /// Grid point force balance.
    GridPointForceBalance,
    /// Forces of single-point constraint.
    SpcForces,
    /// Applied forces.
    AppliedForces,
    /// Stresses in quadrilateral elements.
    QuadStresses,
    /// Strains in quadrilateral elements.
    QuadStrains,
    /// Engineering forces in quadrilateral elements.
    QuadForces,
    /// Engineering forces in triangular elements.
    TriaForces,
    /// Engineering forces in rod elements.
    RodForces,
    /// Engineering forces in bar elements.
    BarForces,
    /// Engineering forces in ELAS1 elements.
    Elas1Forces,
    /// Stresses in triangular elements.
    TriaStresses,
    /// Strains in triangular elements.
    TriaStrains,
    /// Stresses in rod elements.
    RodStresses,
    /// Strains in rod elements.
    RodStrains,
    /// Stresses in bar elements.
    BarStresses,
    /// Strains in bar elements.
    BarStrains,
    /// Stresses in ELAS1 elements.
    Elas1Stresses,
    /// Strains in ELAS1 elements.
    Elas1Strains,
}

impl BlockType {
    /// All known block types, in the order in which headers are tried.
    pub open spec fn spec_all() -> Seq<BlockType> {
        seq![
            BlockType::Displacements,
            BlockType::GridPointForceBalance,
            BlockType::SpcForces,
            BlockType::AppliedForces,
            BlockType::QuadStresses,
            BlockType::QuadStrains,
            BlockType::QuadForces,
            BlockType::TriaForces,
            BlockType::RodForces,
            BlockType::BarForces,
            BlockType::Elas1Forces,
            BlockType::TriaStresses,
            BlockType::TriaStrains,
            BlockType::RodStresses,
            BlockType::RodStrains,
            BlockType::BarStresses,
            BlockType::BarStrains,
            BlockType::Elas1Stresses,
            BlockType::Elas1Strains,
        ]
    }

    /// Returns all known block types.
    pub fn all() -> (r: &'static [Self])
        ensures
            r@ == Self::spec_all(),
    {
        &[
            Self::Displacements,
            Self::GridPointForceBalance,
            Self::SpcForces,
            Self::AppliedForces,
            Self::QuadStresses,
            Self::QuadStrains,
            Self::QuadForces,
            Self::TriaForces,
            Self::RodForces,
            Self::BarForces,
            Self::Elas1Forces,
            Self::TriaStresses,
            Self::TriaStrains,
            Self::RodStresses,
            Self::RodStrains,
            Self::BarStresses,
            Self::BarStrains,
            Self::Elas1Stresses,
            Self::Elas1Strains,
        ]
    }

    /// The description of a block type.
    pub open spec fn spec_desc(self) -> &'static str {
        match self {
            Self::Displacements => "Grid point displacements",
            Self::GridPointForceBalance => "Grid point force balance",
            Self::SpcForces => "Forces of single-point constraint",
            Self::AppliedForces => "Applied forces",
            Self::QuadStresses => "Stresses in quadrilateral elements",
            Self::QuadStrains => "Strains in quadrilateral elements",
            Self::QuadForces => "Engineering forces in quadrilateral elements",
            Self::TriaForces => "Engineering forces in triangular elements",
            Self::RodForces => "Engineering forces in rod elements",
            Self::BarForces => "Engineering forces in bar elements",
            Self::Elas1Forces => "Engineering forces in ELAS1 elements",
            Self::TriaStresses => "Stresses in triangular elements",
            Self::TriaStrains => "Strains in triangular elements",
            Self::RodStresses => "Stresses in rod elements",
            Self::RodStrains => "Strains in rod elements",
            Self::BarStresses => "Stresses in bar elements",
            Self::BarStrains => "Strains in bar elements",
            Self::Elas1Stresses => "Stresses in ELAS1 elements",
            Self::Elas1Strains => "Strains in ELAS1 elements",
        }
    }

    /// Returns the name of the block.
    pub fn desc(&self) -> (r: &'static str)
        ensures
            r == self.spec_desc(),
    {
        match self {
            Self::Displacements => "Grid point displacements",
            Self::GridPointForceBalance => "Grid point force balance",
            Self::SpcForces => "Forces of single-point constraint",
            Self::AppliedForces => "Applied forces",
            Self::QuadStresses => "Stresses in quadrilateral elements",
            Self::QuadStrains => "Strains in quadrilateral elements",
            Self::QuadForces => "Engineering forces in quadrilateral elements",
            Self::TriaForces => "Engineering forces in triangular elements",
            Self::RodForces => "Engineering forces in rod elements",
            Self::BarForces => "Engineering forces in bar elements",
            Self::Elas1Forces => "Engineering forces in ELAS1 elements",
            Self::TriaStresses => "Stresses in triangular elements",
            Self::TriaStrains => "Strains in triangular elements",
            Self::RodStresses => "Stresses in rod elements",
            Self::RodStrains => "Strains in rod elements",
            Self::BarStresses => "Stresses in bar elements",
            Self::BarStrains => "Strains in bar elements",
            Self::Elas1Stresses => "Stresses in ELAS1 elements",
            Self::Elas1Strains => "Strains in ELAS1 elements",
        }
    }

    /// The upper-case header texts that open a block of this type.
    pub open spec fn spec_headers(self) -> Seq<&'static str> {
        match self {
            Self::Displacements => seq![
                "DISPLACEMENTS",
                "DISPLACEMENT VECTOR",
            ],
            Self::GridPointForceBalance => seq![
                "GRID POINT FORCE BALANCE",
            ],
            Self::SpcForces => seq![
                "SPC FORCES",
                "FORCES OF SINGLE-POINT CONSTRAINT",
            ],
            Self::AppliedForces => seq![
                "APPLIED FORCES",
                "LOAD VECTOR",
            ],
            Self::QuadStresses => seq![
                "STRESSES IN QUADRILATERAL ELEMENTS",
                "ELEMENT STRESSES IN LOCAL ELEMENT COORDINATE SYSTEM FOR ELEMENT TYPE QUAD4",
            ],
            Self::QuadStrains => seq![
                "STRAINS IN QUADRILATERAL ELEMENTS",
                "ELEMENT STRAINS IN LOCAL ELEMENT COORDINATE SYSTEM FOR ELEMENT TYPE QUAD4",
            ],
            Self::QuadForces => seq![
                "FORCES IN QUADRILATERAL ELEMENTS",
                "ELEMENT ENGINEERING FORCES FOR ELEMENT TYPE QUAD4",
            ],
            Self::TriaForces => seq![
                "FORCES IN TRIANGULAR ELEMENTS",
                "ELEMENT ENGINEERING FORCES FOR ELEMENT TYPE TRIA3",
            ],
            Self::RodForces => seq![
                "FORCES IN ROD ELEMENTS",
                "ELEMENT ENGINEERING FORCES FOR ELEMENT TYPE ROD",
            ],
            Self::BarForces => seq![
                "FORCES IN BAR ELEMENTS",
                "ELEMENT ENGINEERING FORCES FOR ELEMENT TYPE BAR",
            ],
            Self::Elas1Forces => seq![
                "FORCES IN SCALAR SPRINGS (CELAS1)",
                "ELEMENT ENGINEERING FORCES FOR ELEMENT TYPE ELAS1",
            ],
            Self::TriaStresses => seq![
                "STRESSES IN TRIANGULAR ELEMENTS (TRIA3)",
                "ELEMENT STRESSES IN LOCAL ELEMENT COORDINATE SYSTEM FOR ELEMENT TYPE TRIA3",
            ],
            Self::TriaStrains => seq![
                "STRAINS IN TRIANGULAR ELEMENTS (TRIA3)",
                "ELEMENT STRAINS IN LOCAL ELEMENT COORDINATE SYSTEM FOR ELEMENT TYPE TRIA3",
            ],
            Self::RodStresses => seq![
                "STRESSES IN ROD ELEMENTS (CROD)",
                "ELEMENT STRESSES IN LOCAL ELEMENT COORDINATE SYSTEM FOR ELEMENT TYPE ROD",
            ],
            Self::RodStrains => seq![
                "STRAINS IN ROD ELEMENTS (CROD)",
                "ELEMENT STRAINS IN LOCAL ELEMENT COORDINATE SYSTEM FOR ELEMENT TYPE ROD",
            ],
            Self::BarStresses => seq![
                "STRESSES IN BAR ELEMENTS (CBAR)",
                "ELEMENT STRESSES IN LOCAL ELEMENT COORDINATE SYSTEM FOR ELEMENT TYPE BAR",
            ],
            Self::BarStrains => seq![
                "STRAINS IN BAR ELEMENTS (CBAR)",
                "ELEMENT STRAINS IN LOCAL ELEMENT COORDINATE SYSTEM FOR ELEMENT TYPE BAR",
            ],
            Self::Elas1Stresses => seq![
                "STRESSES IN SCALAR SPRINGS (CELAS1)",
                "ELEMENT STRESSES IN LOCAL ELEMENT COORDINATE SYSTEM FOR ELEMENT TYPE ELAS1",
            ],
            Self::Elas1Strains => seq![
                "STRAINS IN SCALAR SPRINGS (CELAS1)",
                "ELEMENT STRAINS IN LOCAL ELEMENT COORDINATE SYSTEM FOR ELEMENT TYPE ELAS1",
            ],
        }
    }

    /// Returns the known upper-case forms that signal the beginning of this
    /// block.
    pub fn headers(&self) -> (r: &'static [&'static str])
        ensures
            r@ == self.spec_headers(),
    {
        match self {
            Self::Displacements => &[
                "DISPLACEMENTS",
                "DISPLACEMENT VECTOR",
            ],
            Self::GridPointForceBalance => &[
                "GRID POINT FORCE BALANCE",
            ],
            Self::SpcForces => &[
                "SPC FORCES",
                "FORCES OF SINGLE-POINT CONSTRAINT",
            ],
            Self::AppliedForces => &[
                "APPLIED FORCES",
                "LOAD VECTOR",
            ],
            Self::QuadStresses => &[
                "STRESSES IN QUADRILATERAL ELEMENTS",
                "ELEMENT STRESSES IN LOCAL ELEMENT COORDINATE SYSTEM FOR ELEMENT TYPE QUAD4",
            ],
            Self::QuadStrains => &[
                "STRAINS IN QUADRILATERAL ELEMENTS",
                "ELEMENT STRAINS IN LOCAL ELEMENT COORDINATE SYSTEM FOR ELEMENT TYPE QUAD4",
            ],
            Self::QuadForces => &[
                "FORCES IN QUADRILATERAL ELEMENTS",
                "ELEMENT ENGINEERING FORCES FOR ELEMENT TYPE QUAD4",
            ],
            Self::TriaForces => &[
                "FORCES IN TRIANGULAR ELEMENTS",
                "ELEMENT ENGINEERING FORCES FOR ELEMENT TYPE TRIA3",
            ],
            Self::RodForces => &[
                "FORCES IN ROD ELEMENTS",
                "ELEMENT ENGINEERING FORCES FOR ELEMENT TYPE ROD",
            ],
            Self::BarForces => &[
                "FORCES IN BAR ELEMENTS",
                "ELEMENT ENGINEERING FORCES FOR ELEMENT TYPE BAR",
            ],
            Self::Elas1Forces => &[
                "FORCES IN SCALAR SPRINGS (CELAS1)",
                "ELEMENT ENGINEERING FORCES FOR ELEMENT TYPE ELAS1",
            ],
            Self::TriaStresses => &[
                "STRESSES IN TRIANGULAR ELEMENTS (TRIA3)",
                "ELEMENT STRESSES IN LOCAL ELEMENT COORDINATE SYSTEM FOR ELEMENT TYPE TRIA3",
            ],
            Self::TriaStrains => &[
                "STRAINS IN TRIANGULAR ELEMENTS (TRIA3)",
                "ELEMENT STRAINS IN LOCAL ELEMENT COORDINATE SYSTEM FOR ELEMENT TYPE TRIA3",
            ],
            Self::RodStresses => &[
                "STRESSES IN ROD ELEMENTS (CROD)",
                "ELEMENT STRESSES IN LOCAL ELEMENT COORDINATE SYSTEM FOR ELEMENT TYPE ROD",
            ],
            Self::RodStrains => &[
                "STRAINS IN ROD ELEMENTS (CROD)",
                "ELEMENT STRAINS IN LOCAL ELEMENT COORDINATE SYSTEM FOR ELEMENT TYPE ROD",
            ],
            Self::BarStresses => &[
                "STRESSES IN BAR ELEMENTS (CBAR)",
                "ELEMENT STRESSES IN LOCAL ELEMENT COORDINATE SYSTEM FOR ELEMENT TYPE BAR",
            ],
            Self::BarStrains => &[
                "STRAINS IN BAR ELEMENTS (CBAR)",
                "ELEMENT STRAINS IN LOCAL ELEMENT COORDINATE SYSTEM FOR ELEMENT TYPE BAR",
            ],
            Self::Elas1Stresses => &[
                "STRESSES IN SCALAR SPRINGS (CELAS1)",
                "ELEMENT STRESSES IN LOCAL ELEMENT COORDINATE SYSTEM FOR ELEMENT TYPE ELAS1",
            ],
            Self::Elas1Strains => &[
                "STRAINS IN SCALAR SPRINGS (CELAS1)",
                "ELEMENT STRAINS IN LOCAL ELEMENT COORDINATE SYSTEM FOR ELEMENT TYPE ELAS1",
            ],
        }
    }

    /// The short name of a block type, as it is written in records.
    pub open spec fn spec_short_name(self) -> &'static str {
        match self {
            Self::Displacements => "displacements",
            Self::GridPointForceBalance => "grid_point_force_balance",
            Self::SpcForces => "spc_forces",
            Self::AppliedForces => "applied_forces",
            Self::QuadStresses => "quad_stresses",
            Self::QuadStrains => "quad_strains",
            Self::QuadForces => "quad_forces",
            Self::TriaForces => "tria_forces",
            Self::RodForces => "rod_forces",
            Self::BarForces => "bar_forces",
            Self::Elas1Forces => "elas1_forces",
            Self::TriaStresses => "tria_stresses",
            Self::TriaStrains => "tria_strains",
            Self::RodStresses => "rod_stresses",
            Self::RodStrains => "rod_strains",
            Self::BarStresses => "bar_stresses",
            Self::BarStrains => "bar_strains",
            Self::Elas1Stresses => "elas1_stresses",
            Self::Elas1Strains => "elas1_strains",
        }
    }

    /// Returns the short name of the block.
    pub fn short_name(&self) -> (r: &'static str)
        ensures
            r == self.spec_short_name(),
    {
        match self {
            Self::Displacements => "displacements",
            Self::GridPointForceBalance => "grid_point_force_balance",
            Self::SpcForces => "spc_forces",
            Self::AppliedForces => "applied_forces",
            Self::QuadStresses => "quad_stresses",
            Self::QuadStrains => "quad_strains",
            Self::QuadForces => "quad_forces",
            Self::TriaForces => "tria_forces",
            Self::RodForces => "rod_forces",
            Self::BarForces => "bar_forces",
            Self::Elas1Forces => "elas1_forces",
            Self::TriaStresses => "tria_stresses",
            Self::TriaStrains => "tria_strains",
            Self::RodStresses => "rod_stresses",
            Self::RodStrains => "rod_strains",
            Self::BarStresses => "bar_stresses",
            Self::BarStrains => "bar_strains",
            Self::Elas1Stresses => "elas1_stresses",
            Self::Elas1Strains => "elas1_strains",
        }
    }

    /// Position of the block type in [`BlockType::spec_all`].
    pub open spec fn spec_ordinal(self) -> int {
        match self {
            Self::Displacements => 0,
            Self::GridPointForceBalance => 1,
            Self::SpcForces => 2,
            Self::AppliedForces => 3,
            Self::QuadStresses => 4,
            Self::QuadStrains => 5,
            Self::QuadForces => 6,
            Self::TriaForces => 7,
            Self::RodForces => 8,
            Self::BarForces => 9,
            Self::Elas1Forces => 10,
            Self::TriaStresses => 11,
            Self::TriaStrains => 12,
            Self::RodStresses => 13,
            Self::RodStrains => 14,
            Self::BarStresses => 15,
            Self::BarStrains => 16,
            Self::Elas1Stresses => 17,
            Self::Elas1Strains => 18,
        }
    }
}

/// Every block type stands in the list of all types, at its ordinal.
pub proof fn lemma_all_holds_every_type(t: BlockType)
    ensures
        0 <= t.spec_ordinal() < BlockType::spec_all().len(),
        BlockType::spec_all()[t.spec_ordinal()] == t,
{
}

} // verus!
