//! The general layout of a file of delimited records.

use vstd::prelude::*;
use crate::blocks::types::BlockType;
use crate::elements::ElementType;
use crate::numbers::Decimal;
use crate::numbers::F06Number;

verus! {

/// Number of fields in a fixed-form record.
pub const NAS_CSV_COLS: usize = 11;

/// The kinds of record blocks, by their content.
#[derive(Clone, Copy, Debug, PartialEq, Eq, Structural, PartialOrd, Ord, Hash)]
#[non_exhaustive]
pub enum CsvBlockId {
    /// The 0-block: general solution info; subcase numbers, solution types.
    SolInfo,
    /// The 1-block: displacements.
    Displacements,
    /// The 2-block: stresses.
    Stresses,
    /// The 3-block: strains.
    Strains,
    /// The 4-block: element engineering forces.
    EngForces,
    /// The 5-block: grid point force balance.
    GridPointForces,
    /// The 6-block: applied forces.
    AppliedForces,
    /// The 7-block: forces of single-point constraint.
    SpcForces,
}

impl CsvBlockId {
    /// All block kinds, by rising number.
    pub open spec fn spec_all() -> Seq<CsvBlockId> {
        seq![
            CsvBlockId::SolInfo,
            CsvBlockId::Displacements,
            CsvBlockId::Stresses,
            CsvBlockId::Strains,
            CsvBlockId::EngForces,
            CsvBlockId::GridPointForces,
            CsvBlockId::AppliedForces,
            CsvBlockId::SpcForces,
        ]
    }

    /// Returns all known block kinds, by rising number.
    pub fn all() -> (r: &'static [Self])
        ensures
            r@ == Self::spec_all(),
    {
        &[
            Self::SolInfo,
            Self::Displacements,
            Self::Stresses,
            Self::Strains,
            Self::EngForces,
            Self::GridPointForces,
            Self::AppliedForces,
            Self::SpcForces,
        ]
    }

    /// The constant name of a block kind.
    pub open spec fn spec_name(self) -> &'static str {
        match self {
            Self::SolInfo => "SolutionInfo",
            Self::Displacements => "Displacements",
            Self::Stresses => "Stresses",
            Self::Strains => "Strains",
            Self::EngForces => "EngForces",
            Self::GridPointForces => "GridPointForces",
            Self::AppliedForces => "AppliedForces",
            Self::SpcForces => "SpcForces",
        }
    }

    /// Returns a constant name for this block kind.
    pub fn name(&self) -> (r: &'static str)
        ensures
            r == self.spec_name(),
    {
        match self {
            Self::SolInfo => "SolutionInfo",
            Self::Displacements => "Displacements",
            Self::Stresses => "Stresses",
            Self::Strains => "Strains",
            Self::EngForces => "EngForces",
            Self::GridPointForces => "GridPointForces",
            Self::AppliedForces => "AppliedForces",
            Self::SpcForces => "SpcForces",
        }
    }

    /// The name of a block kind followed by the words "block ID".
    pub open spec fn spec_name_with_id(self) -> &'static str {
        match self {
            Self::SolInfo => "SolutionInfo block ID",
            Self::Displacements => "Displacements block ID",
            Self::Stresses => "Stresses block ID",
            Self::Strains => "Strains block ID",
            Self::EngForces => "EngForces block ID",
            Self::GridPointForces => "GridPointForces block ID",
            Self::AppliedForces => "AppliedForces block ID",
            Self::SpcForces => "SpcForces block ID",
        }
    }

    /// Returns the name with "block ID" appended, as a record header wants it.
    pub fn name_with_id(&self) -> (r: &'static str)
        ensures
            r == self.spec_name_with_id(),
    {
        match self {
            Self::SolInfo => "SolutionInfo block ID",
            Self::Displacements => "Displacements block ID",
            Self::Stresses => "Stresses block ID",
            Self::Strains => "Strains block ID",
            Self::EngForces => "EngForces block ID",
            Self::GridPointForces => "GridPointForces block ID",
            Self::AppliedForces => "AppliedForces block ID",
            Self::SpcForces => "SpcForces block ID",
        }
    }

    /// The short name by which a block kind is chosen on a command line.
    pub open spec fn spec_shorthand(self) -> &'static str {
        match self {
            Self::SolInfo => "sol",
            Self::Displacements => "disp",
            Self::Stresses => "stress",
            Self::Strains => "strain",
            Self::EngForces => "engfor",
            Self::GridPointForces => "gpforce",
            Self::AppliedForces => "load",
            Self::SpcForces => "spcfor",
        }
    }

    /// Returns the shorthand for the block kind.
    pub fn shorthand(&self) -> (r: &'static str)
        ensures
            r == self.spec_shorthand(),
    {
        match self {
            Self::SolInfo => "sol",
            Self::Displacements => "disp",
            Self::Stresses => "stress",
            Self::Strains => "strain",
            Self::EngForces => "engfor",
            Self::GridPointForces => "gpforce",
            Self::AppliedForces => "load",
            Self::SpcForces => "spcfor",
        }
    }

    /// The further names under which a block kind is accepted; the first of
    /// them is its number.
    pub open spec fn spec_aliases(self) -> Seq<&'static str> {
        match self {
            Self::SolInfo => seq!["0", "solinfo", "sol_info", "info"],
            Self::Displacements => seq!["1", "disp", "displs", "displacements"],
            Self::Stresses => seq!["2", "stresses"],
            Self::Strains => seq!["3", "strains"],
            Self::EngForces => seq!["4", "engforces", "eng_forces"],
            Self::GridPointForces => seq![
                "5",
                "gpfb",
                "gpforces",
                "grid_point_forces",
                "grid_point_force_balance",
            ],
            Self::AppliedForces => seq!["6", "applied"],
            Self::SpcForces => seq!["7", "spcf", "spcforces"],
        }
    }

    /// Returns the hidden aliases for each block kind.
    pub fn aliases(&self) -> (r: &'static [&'static str])
        ensures
            r@ == self.spec_aliases(),
    {
        match self {
            Self::SolInfo => &["0", "solinfo", "sol_info", "info"],
            Self::Displacements => &["1", "disp", "displs", "displacements"],
            Self::Stresses => &["2", "stresses"],
            Self::Strains => &["3", "strains"],
            Self::EngForces => &["4", "engforces", "eng_forces"],
            Self::GridPointForces => &[
                "5",
                "gpfb",
                "gpforces",
                "grid_point_forces",
                "grid_point_force_balance",
            ],
            Self::AppliedForces => &["6", "applied"],
            Self::SpcForces => &["7", "spcf", "spcforces"],
        }
    }

    /// The number of a block kind: its position in [`CsvBlockId::spec_all`].
    pub open spec fn spec_number(self) -> usize {
        match self {
            Self::SolInfo => 0,
            Self::Displacements => 1,
            Self::Stresses => 2,
            Self::Strains => 3,
            Self::EngForces => 4,
            Self::GridPointForces => 5,
            Self::AppliedForces => 6,
            Self::SpcForces => 7,
        }
    }

    /// Returns the number of the block kind.
    pub fn number(&self) -> (r: usize)
        ensures
            r == self.spec_number(),
    {
        match self {
            Self::SolInfo => 0,
            Self::Displacements => 1,
            Self::Stresses => 2,
            Self::Strains => 3,
            Self::EngForces => 4,
            Self::GridPointForces => 5,
            Self::AppliedForces => 6,
            Self::SpcForces => 7,
        }
    }

    /// The block kind with a given number, where there is one.
    pub open spec fn spec_from_number(value: usize) -> Result<CsvBlockId, ()> {
        if value < 8 {
            Ok(Self::spec_all()[value as int])
        } else {
            Err(())
        }
    }

    /// Returns the block kind with the given number, where there is one.
    pub fn from_number(value: usize) -> (r: Result<CsvBlockId, ()>)
        ensures
            r == Self::spec_from_number(value),
            r.is_ok() == (value < 8),
            r.is_ok() ==> r.unwrap().spec_number() == value,
    {
        match value {
            0 => Ok(CsvBlockId::SolInfo),
            1 => Ok(CsvBlockId::Displacements),
            2 => Ok(CsvBlockId::Stresses),
            3 => Ok(CsvBlockId::Strains),
            4 => Ok(CsvBlockId::EngForces),
            5 => Ok(CsvBlockId::GridPointForces),
            6 => Ok(CsvBlockId::AppliedForces),
            7 => Ok(CsvBlockId::SpcForces),
            _ => Err(()),
        }
    }
}

impl From<CsvBlockId> for usize {
    fn from(value: CsvBlockId) -> (r: usize) {
        value.number()
    }
}

impl vstd::std_specs::convert::FromSpecImpl<CsvBlockId> for usize {
    open spec fn obeys_from_spec() -> bool {
        true
    }

    open spec fn from_spec(value: CsvBlockId) -> usize {
        value.spec_number()
    }
}

impl TryFrom<usize> for CsvBlockId {
    type Error = ();

    fn try_from(value: usize) -> (r: Result<Self, Self::Error>) {
        CsvBlockId::from_number(value)
    }
}

impl vstd::std_specs::convert::TryFromSpecImpl<usize> for CsvBlockId {
    open spec fn obeys_try_from_spec() -> bool {
        true
    }

    open spec fn try_from_spec(value: usize) -> Result<Self, ()> {
        CsvBlockId::spec_from_number(value)
    }
}

/// A block kind is found at its number in the list of all kinds, and the
/// list holds nothing else.
pub proof fn lemma_all_by_number(id: CsvBlockId)
    ensures
        CsvBlockId::spec_all().len() == 8,
        0 <= id.spec_number() < 8,
        CsvBlockId::spec_all()[id.spec_number() as int] == id,
{
}

/// Two block kinds with one number are one kind.
pub proof fn lemma_number_injective(a: CsvBlockId, b: CsvBlockId)
    requires
        a.spec_number() == b.spec_number(),
    ensures
        a == b,
{
}

/// The kinds of field that a record can hold.
#[derive(Clone, Debug, PartialEq)]
pub enum CsvField {
    /// A blank field.
    Blank,
    /// An integer.
    Integer(isize),
    /// A natural number.
    Natural(usize),
    /// A real number.
    Real(Decimal),
    /// A text.
    String(String),
    /// An element type.
    ElementType(ElementType),
}

/// What a field holds.
pub enum FieldView {
    /// A blank field.
    Blank,
    /// An integer.
    Integer(isize),
    /// A natural number.
    Natural(usize),
    /// A real number.
    Real(Decimal),
    /// A text.
    Text(Seq<char>),
    /// An element type.
    ElementType(ElementType),
}

impl CsvField {
    /// What the field holds.
    pub open spec fn view(&self) -> FieldView {
        match self {
            CsvField::Blank => FieldView::Blank,
            CsvField::Integer(i) => FieldView::Integer(*i),
            CsvField::Natural(n) => FieldView::Natural(*n),
            CsvField::Real(x) => FieldView::Real(*x),
            CsvField::String(s) => FieldView::Text(s@),
            CsvField::ElementType(t) => FieldView::ElementType(*t),
        }
    }

    /// The field that holds a number of a report.
    pub open spec fn spec_from_number(value: F06Number) -> FieldView {
        match value {
            F06Number::Real(x) => FieldView::Real(x),
            F06Number::Integer(i) => FieldView::Integer(i),
            F06Number::Natural(n) => FieldView::Natural(n),
        }
    }

    /// Makes the field that holds a number of a report.
    pub fn from_number(value: F06Number) -> (r: CsvField)
        ensures
            r@ == Self::spec_from_number(value),
    {
        match value {
            F06Number::Real(x) => CsvField::Real(x),
            F06Number::Integer(i) => CsvField::Integer(i),
            F06Number::Natural(n) => CsvField::Natural(n),
        }
    }

    /// Makes the field that holds the number of a block kind.
    pub fn from_block_id(value: CsvBlockId) -> (r: CsvField)
        ensures
            r@ == FieldView::Natural(value.spec_number()),
    {
        CsvField::Natural(value.number())
    }

    /// Makes the field that holds a text.
    pub fn text(value: &str) -> (r: CsvField)
        ensures
            r@ == FieldView::Text(value@),
    {
        CsvField::String(value.to_owned())
    }

    /// Copies the field.
    pub fn duplicate(&self) -> (r: CsvField)
        ensures
            r@ == self@,
    {
        match self {
            CsvField::Blank => CsvField::Blank,
            CsvField::Integer(i) => CsvField::Integer(*i),
            CsvField::Natural(n) => CsvField::Natural(*n),
            CsvField::Real(x) => CsvField::Real(*x),
            CsvField::String(s) => CsvField::String(s.clone()),
            CsvField::ElementType(t) => CsvField::ElementType(*t),
        }
    }
}

impl From<CsvBlockId> for CsvField {
    fn from(value: CsvBlockId) -> (r: CsvField) {
        CsvField::Natural(value.number())
    }
}

impl vstd::std_specs::convert::FromSpecImpl<CsvBlockId> for CsvField {
    open spec fn obeys_from_spec() -> bool {
        true
    }

    open spec fn from_spec(value: CsvBlockId) -> CsvField {
        CsvField::Natural(value.spec_number())
    }
}

impl From<F06Number> for CsvField {
    fn from(value: F06Number) -> (r: CsvField) {
        match value {
            F06Number::Real(x) => CsvField::Real(x),
            F06Number::Integer(i) => CsvField::Integer(i),
            F06Number::Natural(n) => CsvField::Natural(n),
        }
    }
}

impl vstd::std_specs::convert::FromSpecImpl<F06Number> for CsvField {
    open spec fn obeys_from_spec() -> bool {
        true
    }

    open spec fn from_spec(value: F06Number) -> CsvField {
        match value {
            F06Number::Real(x) => CsvField::Real(x),
            F06Number::Integer(i) => CsvField::Integer(i),
            F06Number::Natural(n) => CsvField::Natural(n),
        }
    }
}

/// What a list of fields holds.
pub open spec fn field_views(v: Seq<CsvField>) -> Seq<FieldView> {
    Seq::new(v.len(), |i: int| v[i]@)
}

/// A line of a file of records that is no header.
#[derive(Clone, Debug)]
pub struct CsvRecord {
    /// The kind of block of the record.
    pub block_id: CsvBlockId,
    /// The type of block that the record was made from; none for the
    /// 0-block.
    pub block_type: Option<BlockType>,
    /// The number of the grid point that the record is about, if any.
    pub gid: Option<usize>,
    /// The number of the element that the record is about, if any.
    pub eid: Option<usize>,
    /// The type of the element that the record is about, if any.
    pub etype: Option<ElementType>,
    /// The subcase that the record belongs to, if any.
    pub subcase: Option<usize>,
    /// The fields after the first.
    pub fields: Vec<CsvField>,
    /// The headers of the fields after the first.
    pub headers: &'static [&'static str],
}

/// What a record holds.
pub struct RecordView {
    /// The kind of block of the record.
    pub block_id: CsvBlockId,
    /// The type of block that the record was made from.
    pub block_type: Option<BlockType>,
    /// The number of the grid point that the record is about, if any.
    pub gid: Option<usize>,
    /// The number of the element that the record is about, if any.
    pub eid: Option<usize>,
    /// The type of the element that the record is about, if any.
    pub etype: Option<ElementType>,
    /// The subcase that the record belongs to, if any.
    pub subcase: Option<usize>,
    /// The fields after the first.
    pub fields: Seq<FieldView>,
    /// The headers of the fields after the first.
    pub headers: Seq<&'static str>,
}

impl CsvRecord {
    /// What the record holds.
    pub open spec fn view(&self) -> RecordView {
        RecordView {
            block_id: self.block_id,
            block_type: self.block_type,
            gid: self.gid,
            eid: self.eid,
            etype: self.etype,
            subcase: self.subcase,
            fields: field_views(self.fields@),
            headers: self.headers@,
        }
    }

    /// Returns the fields of the record: the number of its kind of block,
    /// then its other fields.
    pub fn to_fields(self) -> (r: Vec<CsvField>)
        ensures
            field_views(r@) == seq![FieldView::Natural(self.block_id.spec_number())] + self@.fields,
    {
        let mut r: Vec<CsvField> = Vec::new();
        r.push(CsvField::from_block_id(self.block_id));
        let mut i: usize = 0;
        while i < self.fields.len()
            invariant
                i <= self.fields@.len(),
                r@.len() == i + 1,
                r@[0]@ == FieldView::Natural(self.block_id.spec_number()),
                forall|j: int| 1 <= j <= i ==> (#[trigger] r@[j])@ == self.fields@[j - 1]@,
            decreases self.fields@.len() - i,
        {
            r.push(self.fields[i].duplicate());
            i += 1;
        }
        proof {
            assert(field_views(r@) =~= seq![FieldView::Natural(self.block_id.spec_number())]
                + self@.fields);
        }
        r
    }

    /// Returns the headers of the record: the name of its kind of block
    /// with the words "block ID", then the headers of its other fields.
    pub fn header_as_iter(&self) -> (r: Vec<&'static str>)
        ensures
            r@ == seq![self.block_id.spec_name_with_id()] + self.headers@,
    {
        let mut r: Vec<&'static str> = Vec::new();
        r.push(self.block_id.name_with_id());
        let mut i: usize = 0;
        while i < self.headers.len()
            invariant
                i <= self.headers@.len(),
                r@ == seq![self.block_id.spec_name_with_id()] + self.headers@.take(i as int),
            decreases self.headers@.len() - i,
        {
            r.push(self.headers[i]);
            proof {
                assert(self.headers@.take(i + 1) =~= self.headers@.take(i as int).push(
                    self.headers@[i as int],
                ));
                assert(r@ =~= seq![self.block_id.spec_name_with_id()] + self.headers@.take(i + 1));
            }
            i += 1;
        }
        proof {
            assert(self.headers@.take(i as int) =~= self.headers@);
        }
        r
    }
}

} // verus!
