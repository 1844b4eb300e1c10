//! Element types that reports name in headers and rows.

use vstd::prelude::*;
use vstd::string::StringSliceAdditionalSpecFns;
use crate::text::same_bytes;

verus! {

/// The element formulations whose tables are decoded.
#[derive(Clone, Copy, Debug, PartialEq, Eq, Structural, PartialOrd, Ord, Hash)]
pub enum ElementType {
    /// Four-noded quadrilateral shell.
    Quad4,
    /// Three-noded triangular shell.
    Tria3,
    /// Axial rod.
    Rod,
    /// Simple beam.
    Bar,
    /// Scalar spring.
    Elas1,
}

impl ElementType {
    /// Every known element type, in declaration order.
    pub fn all() -> (r: Vec<ElementType>)
        ensures
            r@ == Self::spec_all(),
    {
        vec![
            ElementType::Quad4,
            ElementType::Tria3,
            ElementType::Rod,
            ElementType::Bar,
            ElementType::Elas1,
        ]
    }

    /// Every known element type, in declaration order.
    pub open spec fn spec_all() -> Seq<ElementType> {
        seq![
            ElementType::Quad4,
            ElementType::Tria3,
            ElementType::Rod,
            ElementType::Bar,
            ElementType::Elas1,
        ]
    }

    /// The name that reports print for the element type.
    pub open spec fn spec_name(self) -> &'static str {
        match self {
            ElementType::Quad4 => "QUAD4",
            ElementType::Tria3 => "TRIA3",
            ElementType::Rod => "ROD",
            ElementType::Bar => "BAR",
            ElementType::Elas1 => "ELAS1",
        }
    }

    /// The name that reports print for the element type.
    pub fn name(&self) -> (r: &'static str)
        ensures
            r == self.spec_name(),
    {
        match self {
            ElementType::Quad4 => "QUAD4",
            ElementType::Tria3 => "TRIA3",
            ElementType::Rod => "ROD",
            ElementType::Bar => "BAR",
            ElementType::Elas1 => "ELAS1",
        }
    }

    /// Position of the element type in [`ElementType::spec_all`].
    pub open spec fn spec_ordinal(self) -> int {
        match self {
            ElementType::Quad4 => 0,
            ElementType::Tria3 => 1,
            ElementType::Rod => 2,
            ElementType::Bar => 3,
            ElementType::Elas1 => 4,
        }
    }

    /// Position of the element type in [`ElementType::all`].
    pub fn ordinal(&self) -> (r: u64)
        ensures
            r as int == self.spec_ordinal(),
            r < 5,
    {
        match self {
            ElementType::Quad4 => 0,
            ElementType::Tria3 => 1,
            ElementType::Rod => 2,
            ElementType::Bar => 3,
            ElementType::Elas1 => 4,
        }
    }
}

/// The element type that a field names: the field is exactly the printed
/// name of the type. Where no type has that name, none.
pub open spec fn etype_of(w: Seq<u8>) -> Option<ElementType> {
    if w == ElementType::Quad4.spec_name().spec_bytes() {
        Some(ElementType::Quad4)
    } else if w == ElementType::Tria3.spec_name().spec_bytes() {
        Some(ElementType::Tria3)
    } else if w == ElementType::Rod.spec_name().spec_bytes() {
        Some(ElementType::Rod)
    } else if w == ElementType::Bar.spec_name().spec_bytes() {
        Some(ElementType::Bar)
    } else if w == ElementType::Elas1.spec_name().spec_bytes() {
        Some(ElementType::Elas1)
    } else {
        None
    }
}

/// Reads a field as the name of an element type.
pub fn parse_etype(w: &[u8]) -> (r: Option<ElementType>)
    ensures
        r == etype_of(w@),
{
    if same_bytes(w, ElementType::Quad4.name().as_bytes()) {
        Some(ElementType::Quad4)
    } else if same_bytes(w, ElementType::Tria3.name().as_bytes()) {
        Some(ElementType::Tria3)
    } else if same_bytes(w, ElementType::Rod.name().as_bytes()) {
        Some(ElementType::Rod)
    } else if same_bytes(w, ElementType::Bar.name().as_bytes()) {
        Some(ElementType::Bar)
    } else if same_bytes(w, ElementType::Elas1.name().as_bytes()) {
        Some(ElementType::Elas1)
    } else {
        None
    }
}

} // verus!
