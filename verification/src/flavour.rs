//! The flavour of a report: which solver wrote it, and for which kind of
//! solution.

use vstd::prelude::*;
use vstd::string::StringSliceAdditionalSpecFns;
use crate::fields::breakdown;
use crate::fields::field_is;
use crate::fields::field_text;
use crate::fields::fields;
use crate::fields::LineField;
use crate::text::contains;
use crate::text::has;

verus! {

/// The solvers whose reports are read.
#[derive(Clone, Copy, Debug, PartialEq, Eq, Structural, PartialOrd, Ord, Hash)]
#[non_exhaustive]
pub enum Solver {
    /// The MYSTRAN solver.
    Mystran,
    /// The Simcenter Nastran solver.
    Simcenter,
}

/// The kinds of solution that a report can hold.
#[derive(Clone, Copy, Debug, PartialEq, Eq, Structural, PartialOrd, Ord, Hash)]
#[non_exhaustive]
pub enum SolType {
    /// Linear static analysis.
    LinearStatic,
    /// Normal modes.
    Eigenvalue,
}

/// The flavour of a report. A part that is `None` has not been found.
#[derive(Clone, Copy, Debug, PartialEq, Eq, Structural)]
pub struct Flavour {
    /// The solver that wrote the report.
    pub solver: Option<Solver>,
    /// The kind of solution in the report.
    pub soltype: Option<SolType>,
}

/// Text by which MYSTRAN names itself.
pub const MYSTRAN_MARK: &'static str = "MYSTRAN";

/// Text by which Simcenter Nastran names itself in page headers.
pub const SIMCENTER_MARK: &'static str = "SIMCENTER NASTRAN";

/// Text by which Simcenter Nastran names itself in running text.
pub const SIMCENTER_MARK_MIXED: &'static str = "Simcenter Nastran";

/// The field that announces the kind of solution.
pub const SOL_WORD: &'static str = "SOL";

impl Solver {
    /// The name of the solver.
    pub open spec fn spec_name(self) -> &'static str {
        match self {
            Solver::Mystran => "MYSTRAN",
            Solver::Simcenter => "Simcenter Nastran",
        }
    }

    /// Returns the name of the solver.
    pub fn name(&self) -> (r: &'static str)
        ensures
            r == self.spec_name(),
    {
        match self {
            Solver::Mystran => "MYSTRAN",
            Solver::Simcenter => "Simcenter Nastran",
        }
    }
}

impl SolType {
    /// The number of the solution sequence.
    pub open spec fn spec_number(self) -> usize {
        match self {
            SolType::LinearStatic => 101,
            SolType::Eigenvalue => 103,
        }
    }

    /// Returns the number of the solution sequence.
    pub fn number(&self) -> (r: usize)
        ensures
            r == self.spec_number(),
    {
        match self {
            SolType::LinearStatic => 101,
            SolType::Eigenvalue => 103,
        }
    }

    /// The name of the kind of solution.
    pub open spec fn spec_name(self) -> &'static str {
        match self {
            SolType::LinearStatic => "Linear static",
            SolType::Eigenvalue => "Eigenvalue",
        }
    }

    /// Returns the name of the kind of solution.
    pub fn name(&self) -> (r: &'static str)
        ensures
            r == self.spec_name(),
    {
        match self {
            SolType::LinearStatic => "Linear static",
            SolType::Eigenvalue => "Eigenvalue",
        }
    }

    /// The kind of solution with a given number. Both solvers' numbers are
    /// known: 1 and 101 for statics, 3 and 103 for modes.
    pub open spec fn spec_from_number(n: usize) -> Option<SolType> {
        if n == 1 || n == 101 {
            Some(SolType::LinearStatic)
        } else if n == 3 || n == 103 {
            Some(SolType::Eigenvalue)
        } else {
            None
        }
    }

    /// Returns the kind of solution with a given number.
    pub fn from_number(n: usize) -> (r: Option<SolType>)
        ensures
            r == Self::spec_from_number(n),
    {
        if n == 1 || n == 101 {
            Some(SolType::LinearStatic)
        } else if n == 3 || n == 103 {
            Some(SolType::Eigenvalue)
        } else {
            None
        }
    }
}

/// The solver that a line names, if it names one.
pub open spec fn solver_in(line: Seq<u8>) -> Option<Solver> {
    if contains(line, MYSTRAN_MARK.spec_bytes()) {
        Some(Solver::Mystran)
    } else if contains(line, SIMCENTER_MARK.spec_bytes()) || contains(
        line,
        SIMCENTER_MARK_MIXED.spec_bytes(),
    ) {
        Some(Solver::Simcenter)
    } else {
        None
    }
}

/// Whether the field of `line` at position `k` is the word that announces
/// the kind of solution.
pub open spec fn is_sol_word(line: Seq<u8>, fs: Seq<LineField>, k: int) -> bool {
    0 <= k < fs.len() && field_text(line, fs[k]) == Some(SOL_WORD.spec_bytes())
}

/// The kind of solution that the fields from position `k` on announce: the
/// number that follows the first announcing word, where that is the number
/// of a known kind.
pub open spec fn soltype_from(line: Seq<u8>, fs: Seq<LineField>, k: int) -> Option<SolType>
    decreases fs.len() - k,
{
    if k < 0 || k + 1 >= fs.len() {
        None
    } else if is_sol_word(line, fs, k) {
        match fs[k + 1] {
            LineField::Natural(n) => SolType::spec_from_number(n),
            _ => None,
        }
    } else {
        soltype_from(line, fs, k + 1)
    }
}

/// The kind of solution that a line announces, if it announces one.
pub open spec fn soltype_in(line: Seq<u8>) -> Option<SolType> {
    soltype_from(line, fields(line), 0)
}

impl Flavour {
    /// The flavour of which nothing is known yet.
    pub open spec fn spec_unknown() -> Flavour {
        Flavour { solver: None, soltype: None }
    }

    /// Returns the flavour of which nothing is known yet.
    pub fn unknown() -> (r: Flavour)
        ensures
            r == Self::spec_unknown(),
    {
        Flavour { solver: None, soltype: None }
    }

    /// The flavour after a line has been seen: a part that was known stays,
    /// a part that was not is taken from the line where the line gives it.
    pub open spec fn spec_detect(self, line: Seq<u8>) -> Flavour {
        Flavour {
            solver: if self.solver.is_some() {
                self.solver
            } else {
                solver_in(line)
            },
            soltype: if self.soltype.is_some() {
                self.soltype
            } else {
                soltype_in(line)
            },
        }
    }

    /// Looks at a line for what is not yet known of the flavour.
    pub fn detect(&mut self, line: &str)
        ensures
            *final(self) == old(self).spec_detect(line.spec_bytes()),
    {
        let bytes = line.as_bytes();
        if self.solver.is_none() {
            self.solver = find_solver(bytes);
        }
        if self.soltype.is_none() {
            self.soltype = find_soltype(bytes);
        }
    }
}

/// Looks for the name of a solver in a line.
pub fn find_solver(line: &[u8]) -> (r: Option<Solver>)
    ensures
        r == solver_in(line@),
{
    if has(line, MYSTRAN_MARK.as_bytes()) {
        Some(Solver::Mystran)
    } else if has(line, SIMCENTER_MARK.as_bytes()) || has(line, SIMCENTER_MARK_MIXED.as_bytes()) {
        Some(Solver::Simcenter)
    } else {
        None
    }
}

/// Looks for the announcement of a kind of solution in a line.
pub fn find_soltype(line: &[u8]) -> (r: Option<SolType>)
    ensures
        r == soltype_in(line@),
{
    let fs = breakdown(line);
    let mut k: usize = 0;
    while k < fs.len() && k + 1 < fs.len()
        invariant
            fs@ == fields(line@),
            soltype_in(line@) == soltype_from(line@, fs@, k as int),
        decreases fs@.len() - k,
    {
        if field_is(line, &fs[k], SOL_WORD.as_bytes()) {
            return match fs[k + 1] {
                LineField::Natural(n) => SolType::from_number(n),
                _ => None,
            };
        }
        k += 1;
    }
    None
}

} // verus!
