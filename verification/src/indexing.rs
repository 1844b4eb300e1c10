//! Row and column keys of decoded tables.
//!
//! Every key is a plain value. Keys are ordered by their [`NasIndex::code`],
//! a tuple of six naturals compared from left to right; the order is total,
//! and two keys with one code are the same key.

use vstd::prelude::*;
use crate::elements::ElementType;

verus! {

/// A reference to a grid point, by its number.
#[derive(Clone, Copy, Debug, PartialEq, Eq, Structural, PartialOrd, Ord, Hash)]
pub struct GridPointRef {
    /// The number of the grid point.
    pub gid: usize,
}

/// A reference to an element, by its number and, where known, its type.
#[derive(Clone, Copy, Debug, PartialEq, Eq, Structural, PartialOrd, Ord, Hash)]
pub struct ElementRef {
    /// The number of the element.
    pub eid: usize,
    /// The type of the element, where the report gave it.
    pub etype: Option<ElementType>,
}

/// A point of an element at which a quantity is reported.
#[derive(Clone, Copy, Debug, PartialEq, Eq, Structural, PartialOrd, Ord, Hash)]
pub enum ElementPoint {
    /// The centre of the element.
    Centroid,
    /// A corner of the element, on a grid point.
    Corner(GridPointRef),
}

/// A side of a shell element.
#[derive(Clone, Copy, Debug, PartialEq, Eq, Structural, PartialOrd, Ord, Hash)]
pub enum ElementSide {
    /// The bottom fibre.
    Bottom,
    /// The top fibre.
    Top,
}

impl ElementSide {
    /// The other side.
    pub open spec fn spec_opposite(self) -> ElementSide {
        match self {
            ElementSide::Bottom => ElementSide::Top,
            ElementSide::Top => ElementSide::Bottom,
        }
    }

    /// The other side.
    pub fn opposite(&self) -> (r: ElementSide)
        ensures
            r == self.spec_opposite(),
    {
        match self {
            ElementSide::Bottom => ElementSide::Top,
            ElementSide::Top => ElementSide::Bottom,
        }
    }
}

/// A point on one side of an element.
#[derive(Clone, Copy, Debug, PartialEq, Eq, Structural, PartialOrd, Ord, Hash)]
pub struct ElementSidedPoint {
    /// The element.
    pub element: ElementRef,
    /// The point of the element.
    pub point: ElementPoint,
    /// The side of the element.
    pub side: ElementSide,
}

impl ElementSidedPoint {
    /// The same point on the other side.
    pub open spec fn spec_flipped(self) -> ElementSidedPoint {
        ElementSidedPoint { element: self.element, point: self.point, side: self.side.spec_opposite() }
    }

    /// Moves the point to the other side of its element.
    pub fn flip_side(&mut self)
        ensures
            *final(self) == old(self).spec_flipped(),
    {
        self.side = self.side.opposite();
    }
}

/// A degree of freedom of a grid point.
#[derive(Clone, Copy, Debug, PartialEq, Eq, Structural, PartialOrd, Ord, Hash)]
pub enum Dof {
    /// Displacement along the first axis.
    Tx,
    /// Displacement along the second axis.
    Ty,
    /// Displacement along the third axis.
    Tz,
    /// Rotation about the first axis.
    Rx,
    /// Rotation about the second axis.
    Ry,
    /// Rotation about the third axis.
    Rz,
}

/// Number of degrees of freedom of a grid point.
pub const SIXDOF: usize = 6;

impl Dof {
    /// The six degrees of freedom, in the order of their columns.
    pub open spec fn spec_all() -> Seq<Dof> {
        seq![Dof::Tx, Dof::Ty, Dof::Tz, Dof::Rx, Dof::Ry, Dof::Rz]
    }

    /// The six degrees of freedom, in the order of their columns.
    pub fn all() -> (r: Vec<Dof>)
        ensures
            r@ == Self::spec_all(),
    {
        vec![Dof::Tx, Dof::Ty, Dof::Tz, Dof::Rx, Dof::Ry, Dof::Rz]
    }

    /// Position of the degree of freedom among the six.
    pub open spec fn spec_ordinal(self) -> int {
        match self {
            Dof::Tx => 0,
            Dof::Ty => 1,
            Dof::Tz => 2,
            Dof::Rx => 3,
            Dof::Ry => 4,
            Dof::Rz => 5,
        }
    }

    /// Position of the degree of freedom among the six.
    pub fn ordinal(&self) -> (r: u64)
        ensures
            r as int == self.spec_ordinal(),
    {
        match self {
            Dof::Tx => 0,
            Dof::Ty => 1,
            Dof::Tz => 2,
            Dof::Rx => 3,
            Dof::Ry => 4,
            Dof::Rz => 5,
        }
    }
}

/// A column of a table of stresses in quadrilateral elements.
#[derive(Clone, Copy, Debug, PartialEq, Eq, Structural, PartialOrd, Ord, Hash)]
pub enum QuadStressField {
    /// Distance of the fibre from the mid-surface.
    FibreDistance,
    /// Normal stress along the first element axis.
    NormalX,
    /// Normal stress along the second element axis.
    NormalY,
    /// In-plane shear stress.
    ShearXY,
    /// Angle of the principal axes.
    Angle,
    /// Major principal stress.
    Major,
    /// Minor principal stress.
    Minor,
    /// Equivalent stress after von Mises.
    VonMises,
}

impl QuadStressField {
    /// Position of the field among the eight.
    pub open spec fn spec_ordinal(self) -> int {
        match self {
            QuadStressField::FibreDistance => 0,
            QuadStressField::NormalX => 1,
            QuadStressField::NormalY => 2,
            QuadStressField::ShearXY => 3,
            QuadStressField::Angle => 4,
            QuadStressField::Major => 5,
            QuadStressField::Minor => 6,
            QuadStressField::VonMises => 7,
        }
    }

    /// Position of the field among the eight.
    pub fn ordinal(&self) -> (r: u64)
        ensures
            r as int == self.spec_ordinal(),
    {
        match self {
            QuadStressField::FibreDistance => 0,
            QuadStressField::NormalX => 1,
            QuadStressField::NormalY => 2,
            QuadStressField::ShearXY => 3,
            QuadStressField::Angle => 4,
            QuadStressField::Major => 5,
            QuadStressField::Minor => 6,
            QuadStressField::VonMises => 7,
        }
    }
}

/// A column of a table of strains in quadrilateral elements.
#[derive(Clone, Copy, Debug, PartialEq, Eq, Structural, PartialOrd, Ord, Hash)]
pub enum QuadStrainField {
    /// Distance of the fibre from the mid-surface.
    FibreDistance,
    /// Normal strain along the first element axis.
    NormalX,
    /// Normal strain along the second element axis.
    NormalY,
    /// In-plane shear strain.
    ShearXY,
    /// Angle of the principal axes.
    Angle,
    /// Major principal strain.
    Major,
    /// Minor principal strain.
    Minor,
    /// Equivalent strain after von Mises.
    VonMises,
}

impl QuadStrainField {
    /// The strain column that stands where `f` stands among the stresses.
    pub open spec fn spec_from_stress(f: QuadStressField) -> QuadStrainField {
        match f {
            QuadStressField::FibreDistance => QuadStrainField::FibreDistance,
            QuadStressField::NormalX => QuadStrainField::NormalX,
            QuadStressField::NormalY => QuadStrainField::NormalY,
            QuadStressField::ShearXY => QuadStrainField::ShearXY,
            QuadStressField::Angle => QuadStrainField::Angle,
            QuadStressField::Major => QuadStrainField::Major,
            QuadStressField::Minor => QuadStrainField::Minor,
            QuadStressField::VonMises => QuadStrainField::VonMises,
        }
    }

    /// The strain column that stands where `f` stands among the stresses.
    pub fn from_stress(f: QuadStressField) -> (r: QuadStrainField)
        ensures
            r == Self::spec_from_stress(f),
            r.spec_ordinal() == f.spec_ordinal(),
    {
        match f {
            QuadStressField::FibreDistance => QuadStrainField::FibreDistance,
            QuadStressField::NormalX => QuadStrainField::NormalX,
            QuadStressField::NormalY => QuadStrainField::NormalY,
            QuadStressField::ShearXY => QuadStrainField::ShearXY,
            QuadStressField::Angle => QuadStrainField::Angle,
            QuadStressField::Major => QuadStrainField::Major,
            QuadStressField::Minor => QuadStrainField::Minor,
            QuadStressField::VonMises => QuadStrainField::VonMises,
        }
    }

    /// Position of the field among the eight.
    pub open spec fn spec_ordinal(self) -> int {
        match self {
            QuadStrainField::FibreDistance => 0,
            QuadStrainField::NormalX => 1,
            QuadStrainField::NormalY => 2,
            QuadStrainField::ShearXY => 3,
            QuadStrainField::Angle => 4,
            QuadStrainField::Major => 5,
            QuadStrainField::Minor => 6,
            QuadStrainField::VonMises => 7,
        }
    }

    /// Position of the field among the eight.
    pub fn ordinal(&self) -> (r: u64)
        ensures
            r as int == self.spec_ordinal(),
    {
        match self {
            QuadStrainField::FibreDistance => 0,
            QuadStrainField::NormalX => 1,
            QuadStrainField::NormalY => 2,
            QuadStrainField::ShearXY => 3,
            QuadStrainField::Angle => 4,
            QuadStrainField::Major => 5,
            QuadStrainField::Minor => 6,
            QuadStrainField::VonMises => 7,
        }
    }
}

/// Where a force on a grid point comes from.
#[derive(Clone, Copy, Debug, PartialEq, Eq, Structural, PartialOrd, Ord, Hash)]
pub enum ForceOrigin {
    /// An applied load.
    Load,
    /// A single-point constraint.
    SinglePointConstraint,
    /// A multi-point constraint.
    MultiPointConstraint,
    /// An element attached to the grid point.
    Element {
        /// The element.
        elem: ElementRef,
    },
}

/// A force on a grid point, by the point and the origin of the force.
#[derive(Clone, Copy, Debug, PartialEq, Eq, Structural, PartialOrd, Ord, Hash)]
pub struct GridPointForceOrigin {
    /// The grid point on which the force acts.
    pub grid_point: GridPointRef,
    /// Where the force comes from.
    pub force_origin: ForceOrigin,
}

/// A row or column key of a table.
#[derive(Clone, Copy, Debug, PartialEq, Eq, Structural, PartialOrd, Ord, Hash)]
pub enum NasIndex {
    /// A grid point.
    GridPointRef(GridPointRef),
    /// An element.
    ElementRef(ElementRef),
    /// A point on one side of an element.
    ElementSidedPoint(ElementSidedPoint),
    /// A degree of freedom.
    Dof(Dof),
    /// A stress column of a quadrilateral element.
    QuadStressField(QuadStressField),
    /// A strain column of a quadrilateral element.
    QuadStrainField(QuadStrainField),
    /// A force on a grid point.
    GridPointForceOrigin(GridPointForceOrigin),
}

/// The sort code of a key: six naturals, compared from left to right.
#[derive(Clone, Copy, Debug, PartialEq, Eq, Structural)]
pub struct KeyCode {
    /// The kind of key.
    pub kind: u64,
    /// First component.
    pub a: u64,
    /// Second component.
    pub b: u64,
    /// Third component.
    pub c: u64,
    /// Fourth component.
    pub d: u64,
    /// Fifth component.
    pub e: u64,
}

impl KeyCode {
    /// Whether this code comes strictly before `other`.
    pub open spec fn spec_lt(self, other: KeyCode) -> bool {
        self.kind < other.kind || (self.kind == other.kind && (self.a < other.a || (self.a
            == other.a && (self.b < other.b || (self.b == other.b && (self.c < other.c || (self.c
            == other.c && (self.d < other.d || (self.d == other.d && self.e < other.e)))))))))
    }

    /// Whether this code comes strictly before `other`.
    pub fn lt(&self, other: &KeyCode) -> (r: bool)
        ensures
            r == self.spec_lt(*other),
    {
        self.kind < other.kind || (self.kind == other.kind && (self.a < other.a || (self.a
            == other.a && (self.b < other.b || (self.b == other.b && (self.c < other.c || (self.c
            == other.c && (self.d < other.d || (self.d == other.d && self.e < other.e)))))))))
    }
}

/// Code of an optional element type: nothing first, then the types in
/// declaration order.
pub open spec fn etype_code(t: Option<ElementType>) -> u64 {
    match t {
        None => 0,
        Some(t) => (t.spec_ordinal() + 1) as u64,
    }
}

impl ElementRef {
    /// Code of the element's type.
    pub fn type_code(&self) -> (r: u64)
        ensures
            r == etype_code(self.etype),
    {
        match self.etype {
            None => 0,
            Some(t) => t.ordinal() + 1,
        }
    }
}

impl ElementPoint {
    /// The pair that orders points: the centroid first, then the corners by
    /// grid point.
    pub open spec fn spec_code(self) -> (u64, u64) {
        match self {
            ElementPoint::Centroid => (0, 0),
            ElementPoint::Corner(g) => (1, g.gid as u64),
        }
    }

    /// The pair that orders points.
    pub fn code(&self) -> (r: (u64, u64))
        ensures
            r == self.spec_code(),
    {
        match self {
            ElementPoint::Centroid => (0, 0),
            ElementPoint::Corner(g) => (1, g.gid as u64),
        }
    }
}

impl ElementSide {
    /// Code of the side: bottom first.
    pub open spec fn spec_code(self) -> u64 {
        match self {
            ElementSide::Bottom => 0,
            ElementSide::Top => 1,
        }
    }

    /// Code of the side: bottom first.
    pub fn code(&self) -> (r: u64)
        ensures
            r == self.spec_code(),
    {
        match self {
            ElementSide::Bottom => 0,
            ElementSide::Top => 1,
        }
    }
}

impl ForceOrigin {
    /// The triple that orders origins: loads, single-point constraints,
    /// multi-point constraints, then elements by number and type.
    pub open spec fn spec_code(self) -> (u64, u64, u64) {
        match self {
            ForceOrigin::Load => (0, 0, 0),
            ForceOrigin::SinglePointConstraint => (1, 0, 0),
            ForceOrigin::MultiPointConstraint => (2, 0, 0),
            ForceOrigin::Element { elem } => (3, elem.eid as u64, etype_code(elem.etype)),
        }
    }

    /// The triple that orders origins.
    pub fn code(&self) -> (r: (u64, u64, u64))
        ensures
            r == self.spec_code(),
    {
        match self {
            ForceOrigin::Load => (0, 0, 0),
            ForceOrigin::SinglePointConstraint => (1, 0, 0),
            ForceOrigin::MultiPointConstraint => (2, 0, 0),
            ForceOrigin::Element { elem } => (3, elem.eid as u64, elem.type_code()),
        }
    }
}

impl NasIndex {
    /// The sort code of the key.
    pub open spec fn spec_code(self) -> KeyCode {
        match self {
            NasIndex::GridPointRef(g) => KeyCode { kind: 0, a: g.gid as u64, b: 0, c: 0, d: 0, e: 0 },
            NasIndex::ElementRef(el) => KeyCode {
                kind: 1,
                a: el.eid as u64,
                b: etype_code(el.etype),
                c: 0,
                d: 0,
                e: 0,
            },
            NasIndex::ElementSidedPoint(p) => KeyCode {
                kind: 2,
                a: p.element.eid as u64,
                b: etype_code(p.element.etype),
                c: p.point.spec_code().0,
                d: p.point.spec_code().1,
                e: p.side.spec_code(),
            },
            NasIndex::Dof(x) => KeyCode { kind: 3, a: x.spec_ordinal() as u64, b: 0, c: 0, d: 0, e: 0 },
            NasIndex::QuadStressField(x) => KeyCode {
                kind: 4,
                a: x.spec_ordinal() as u64,
                b: 0,
                c: 0,
                d: 0,
                e: 0,
            },
            NasIndex::QuadStrainField(x) => KeyCode {
                kind: 5,
                a: x.spec_ordinal() as u64,
                b: 0,
                c: 0,
                d: 0,
                e: 0,
            },
            NasIndex::GridPointForceOrigin(f) => KeyCode {
                kind: 6,
                a: f.grid_point.gid as u64,
                b: f.force_origin.spec_code().0,
                c: f.force_origin.spec_code().1,
                d: f.force_origin.spec_code().2,
                e: 0,
            },
        }
    }

    /// The sort code of the key.
    pub fn code(&self) -> (r: KeyCode)
        ensures
            r == self.spec_code(),
    {
        match self {
            NasIndex::GridPointRef(g) => KeyCode { kind: 0, a: g.gid as u64, b: 0, c: 0, d: 0, e: 0 },
            NasIndex::ElementRef(el) => KeyCode {
                kind: 1,
                a: el.eid as u64,
                b: el.type_code(),
                c: 0,
                d: 0,
                e: 0,
            },
            NasIndex::ElementSidedPoint(p) => {
                let pc = p.point.code();
                KeyCode {
                    kind: 2,
                    a: p.element.eid as u64,
                    b: p.element.type_code(),
                    c: pc.0,
                    d: pc.1,
                    e: p.side.code(),
                }
            },
            NasIndex::Dof(x) => KeyCode { kind: 3, a: x.ordinal(), b: 0, c: 0, d: 0, e: 0 },
            NasIndex::QuadStressField(x) => KeyCode { kind: 4, a: x.ordinal(), b: 0, c: 0, d: 0, e: 0 },
            NasIndex::QuadStrainField(x) => KeyCode { kind: 5, a: x.ordinal(), b: 0, c: 0, d: 0, e: 0 },
            NasIndex::GridPointForceOrigin(f) => {
                let fc = f.force_origin.code();
                KeyCode { kind: 6, a: f.grid_point.gid as u64, b: fc.0, c: fc.1, d: fc.2, e: 0 }
            },
        }
    }

    /// Whether this key sorts strictly before `other`.
    pub open spec fn spec_precedes(self, other: NasIndex) -> bool {
        self.spec_code().spec_lt(other.spec_code())
    }

    /// Whether this key sorts strictly before `other`.
    pub fn precedes(&self, other: &NasIndex) -> (r: bool)
        ensures
            r == self.spec_precedes(*other),
    {
        self.code().lt(&other.code())
    }

    /// Whether this key is `other`.
    pub fn same(&self, other: &NasIndex) -> (r: bool)
        ensures
            r == (*self == *other),
    {
        proof {
            lemma_code_injective(*self, *other);
        }
        self.code() == other.code()
    }
}

/// Two keys with one sort code are one key.
pub proof fn lemma_code_injective(x: NasIndex, y: NasIndex)
    ensures
        x.spec_code() == y.spec_code() <==> x == y,
{
}

/// The order of keys is strict: no key precedes itself, and of two keys at
/// most one precedes the other.
pub proof fn lemma_precedes_strict(x: NasIndex, y: NasIndex)
    ensures
        !x.spec_precedes(x),
        x.spec_precedes(y) ==> !y.spec_precedes(x),
{
}

/// The order of keys is transitive.
pub proof fn lemma_precedes_transitive(x: NasIndex, y: NasIndex, z: NasIndex)
    requires
        x.spec_precedes(y),
        y.spec_precedes(z),
    ensures
        x.spec_precedes(z),
{
}

/// The order of keys is total: of two different keys one precedes the other.
pub proof fn lemma_precedes_total(x: NasIndex, y: NasIndex)
    ensures
        x == y || x.spec_precedes(y) || y.spec_precedes(x),
{
    lemma_code_injective(x, y);
}

} // verus!
