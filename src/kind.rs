use vstd::prelude::*;

verus! {

/// The fixed set of problem shapes a worksheet can hold.
#[derive(Clone, Copy, Debug, PartialEq, Eq, Structural)]
pub enum ProblemKind {
    /// `a + b = result`
    SingleAddition,
    /// `a - b = result`
    SingleSubtraction,
    /// `a` and `b` side by side, to be compared
    ComparisonPair,
    /// `a + b + c =`, result left open
    ChainedAddition,
    /// `a - b - c =`, result left open
    ChainedSubtraction,
}

/// How many operands a kind consumes.
pub open spec fn arity_of(kind: ProblemKind) -> nat {
    match kind {
        ProblemKind::SingleAddition => 2,
        ProblemKind::SingleSubtraction => 2,
        ProblemKind::ComparisonPair => 2,
        ProblemKind::ChainedAddition => 3,
        ProblemKind::ChainedSubtraction => 3,
    }
}

/// Whether a rendered problem of this kind hides one of its values.
pub open spec fn blanks_one_value(kind: ProblemKind) -> bool {
    kind == ProblemKind::SingleAddition || kind == ProblemKind::SingleSubtraction
}

impl ProblemKind {
    pub fn arity(self) -> (r: usize)
        ensures
            r == arity_of(self),
    {
        match self {
            ProblemKind::SingleAddition => 2,
            ProblemKind::SingleSubtraction => 2,
            ProblemKind::ComparisonPair => 2,
            ProblemKind::ChainedAddition => 3,
            ProblemKind::ChainedSubtraction => 3,
        }
    }

    pub fn supports_blank(self) -> (r: bool)
        ensures
            r == blanks_one_value(self),
    {
        match self {
            ProblemKind::SingleAddition => true,
            ProblemKind::SingleSubtraction => true,
            _ => false,
        }
    }
}

} // verus!
