use vstd::prelude::*;

use crate::kind::{arity_of, ProblemKind};

verus! {

/// An accepted problem: its kind and the values shown left to right.
#[derive(Clone, Debug)]
pub struct Problem {
    pub kind: ProblemKind,
    pub values: Vec<u64>,
}

/// The validity rule of each kind over its operands.
pub open spec fn accepts(kind: ProblemKind, ops: Seq<u64>, ceiling: u64) -> bool {
    match kind {
        ProblemKind::SingleAddition => ops[0] + ops[1] <= ceiling,
        ProblemKind::SingleSubtraction => ops[0] >= ops[1],
        ProblemKind::ComparisonPair => true,
        ProblemKind::ChainedAddition => ops[0] + ops[1] + ops[2] <= ceiling,
        ProblemKind::ChainedSubtraction => ops[0] - ops[1] >= 0 && ops[0] - ops[1] - ops[2] >= 0,
    }
}

/// The value sequence an accepted kind emits for its operands.
pub open spec fn emitted(kind: ProblemKind, ops: Seq<u64>) -> Seq<u64> {
    match kind {
        ProblemKind::SingleAddition => seq![ops[0], ops[1], (ops[0] + ops[1]) as u64],
        ProblemKind::SingleSubtraction => seq![ops[0], ops[1], (ops[0] - ops[1]) as u64],
        ProblemKind::ComparisonPair => seq![ops[0], ops[1]],
        ProblemKind::ChainedAddition => seq![ops[0], ops[1], ops[2]],
        ProblemKind::ChainedSubtraction => seq![ops[0], ops[1], ops[2]],
    }
}

/// How many values an accepted problem of `kind` shows.
pub open spec fn value_count(kind: ProblemKind) -> nat {
    if kind == ProblemKind::ComparisonPair { 2 } else { 3 }
}

/// Every operand lies in `[0, operand_max)`.
pub open spec fn operands_in_range(ops: Seq<u64>, operand_max: u64) -> bool {
    forall|i: int| 0 <= i < ops.len() ==> #[trigger] ops[i] < operand_max
}

/// What an accepted problem of `kind` with values `v` looks like, stated
/// on the values alone.
pub open spec fn well_formed(kind: ProblemKind, v: Seq<u64>, operand_max: u64, ceiling: u64) -> bool {
    match kind {
        ProblemKind::SingleAddition => {
            &&& v.len() == 3
            &&& v[0] < operand_max && v[1] < operand_max
            &&& v[0] + v[1] <= ceiling
            &&& v[2] == v[0] + v[1]
        },
        ProblemKind::SingleSubtraction => {
            &&& v.len() == 3
            &&& v[0] < operand_max && v[1] < operand_max
            &&& v[0] >= v[1]
            &&& v[2] == v[0] - v[1]
        },
        ProblemKind::ComparisonPair => {
            &&& v.len() == 2
            &&& v[0] < operand_max && v[1] < operand_max
        },
        ProblemKind::ChainedAddition => {
            &&& v.len() == 3
            &&& v[0] < operand_max && v[1] < operand_max && v[2] < operand_max
            &&& v[0] + v[1] + v[2] <= ceiling
        },
        ProblemKind::ChainedSubtraction => {
            &&& v.len() == 3
            &&& v[0] < operand_max && v[1] < operand_max && v[2] < operand_max
            &&& v[0] - v[1] >= 0
            &&& v[0] - v[1] - v[2] >= 0
        },
    }
}

/// Operands in range that a kind accepts give a well-formed problem.
pub proof fn lemma_accepted_is_well_formed(kind: ProblemKind, ops: Seq<u64>, operand_max: u64, ceiling: u64)
    requires
        ops.len() == arity_of(kind),
        operands_in_range(ops, operand_max),
        accepts(kind, ops, ceiling),
    ensures
        well_formed(kind, emitted(kind, ops), operand_max, ceiling),
{
    assert(ops[0] < operand_max && ops[1] < operand_max);
    if arity_of(kind) == 3 {
        assert(ops[2] < operand_max);
    }
}

/// Single addition: `[a, b, a + b]` when `a + b <= ceiling`.
pub fn attempt_addition(a: u64, b: u64, ceiling: u64) -> (r: Option<Problem>)
    ensures
        r is Some <==> accepts(ProblemKind::SingleAddition, seq![a, b], ceiling),
        r matches Some(p) ==> p.kind == ProblemKind::SingleAddition
            && p.values@ == emitted(ProblemKind::SingleAddition, seq![a, b]),
{
    if a > ceiling || b > ceiling - a {
        return None;
    }
    let sum = a + b;
    Some(Problem { kind: ProblemKind::SingleAddition, values: vec![a, b, sum] })
}

/// Single subtraction: `[a, b, a - b]` when `a >= b`.
pub fn attempt_subtraction(a: u64, b: u64) -> (r: Option<Problem>)
    ensures
        r is Some <==> accepts(ProblemKind::SingleSubtraction, seq![a, b], 0),
        r matches Some(p) ==> p.kind == ProblemKind::SingleSubtraction
            && p.values@ == emitted(ProblemKind::SingleSubtraction, seq![a, b]),
{
    if a < b {
        return None;
    }
    let diff = a - b;
    Some(Problem { kind: ProblemKind::SingleSubtraction, values: vec![a, b, diff] })
}

/// Comparison pair: `[a, b]`, always accepted.
pub fn attempt_comparison(a: u64, b: u64) -> (r: Problem)
    ensures
        r.kind == ProblemKind::ComparisonPair,
        r.values@ == emitted(ProblemKind::ComparisonPair, seq![a, b]),
{
    Problem { kind: ProblemKind::ComparisonPair, values: vec![a, b] }
}

/// Chained addition: `[a, b, c]` when `a + b + c <= ceiling`.
pub fn attempt_chained_addition(a: u64, b: u64, c: u64, ceiling: u64) -> (r: Option<Problem>)
    ensures
        r is Some <==> accepts(ProblemKind::ChainedAddition, seq![a, b, c], ceiling),
        r matches Some(p) ==> p.kind == ProblemKind::ChainedAddition
            && p.values@ == emitted(ProblemKind::ChainedAddition, seq![a, b, c]),
{
    if a > ceiling || b > ceiling - a || c > ceiling - a - b {
        return None;
    }
    Some(Problem { kind: ProblemKind::ChainedAddition, values: vec![a, b, c] })
}

/// Chained subtraction: `[a, b, c]` when `a - b >= 0` and `a - b - c >= 0`.
pub fn attempt_chained_subtraction(a: u64, b: u64, c: u64) -> (r: Option<Problem>)
    ensures
        r is Some <==> accepts(ProblemKind::ChainedSubtraction, seq![a, b, c], 0),
        r matches Some(p) ==> p.kind == ProblemKind::ChainedSubtraction
            && p.values@ == emitted(ProblemKind::ChainedSubtraction, seq![a, b, c]),
{
    if a < b || a - b < c {
        return None;
    }
    Some(Problem { kind: ProblemKind::ChainedSubtraction, values: vec![a, b, c] })
}

/// Runs the generator of `kind` on freshly drawn operands.
pub fn attempt(kind: ProblemKind, ops: &Vec<u64>, ceiling: u64) -> (r: Option<Problem>)
    requires
        ops.len() == arity_of(kind),
    ensures
        r is Some <==> accepts(kind, ops@, ceiling),
        r matches Some(p) ==> p.kind == kind && p.values@ == emitted(kind, ops@),
{
    match kind {
        ProblemKind::SingleAddition => {
            let r = attempt_addition(ops[0], ops[1], ceiling);
            assert(seq![ops@[0], ops@[1]][0] == ops@[0]);
            r
        },
        ProblemKind::SingleSubtraction => attempt_subtraction(ops[0], ops[1]),
        ProblemKind::ComparisonPair => Some(attempt_comparison(ops[0], ops[1])),
        ProblemKind::ChainedAddition => attempt_chained_addition(ops[0], ops[1], ops[2], ceiling),
        ProblemKind::ChainedSubtraction => attempt_chained_subtraction(ops[0], ops[1], ops[2]),
    }
}

/// An accepted single addition of `a` and `b` shows `a`, `b` and `a + b`,
/// and `a + b` does not pass the ceiling.
pub proof fn law_addition_result(ops: Seq<u64>, ceiling: u64)
    requires
        ops.len() == 2,
        accepts(ProblemKind::SingleAddition, ops, ceiling),
    ensures
        ({
            let v = emitted(ProblemKind::SingleAddition, ops);
            &&& v[0] == ops[0] && v[1] == ops[1]
            &&& v[0] + v[1] == v[2]
            &&& v[0] + v[1] <= ceiling
        }),
{
}

/// An accepted single subtraction of `b` from `a` has `a >= b` and shows
/// `a - b` as its result.
pub proof fn law_subtraction_result(ops: Seq<u64>, ceiling: u64)
    requires
        ops.len() == 2,
        accepts(ProblemKind::SingleSubtraction, ops, ceiling),
    ensures
        ({
            let v = emitted(ProblemKind::SingleSubtraction, ops);
            &&& v[0] == ops[0] && v[1] == ops[1]
            &&& v[0] - v[1] == v[2]
            &&& v[0] >= v[1]
        }),
{
}

/// An accepted chained subtraction `a - b - c` never goes below zero, at
/// either step.
pub proof fn law_chained_subtraction_nonnegative(ops: Seq<u64>, ceiling: u64)
    requires
        ops.len() == 3,
        accepts(ProblemKind::ChainedSubtraction, ops, ceiling),
    ensures
        ({
            let v = emitted(ProblemKind::ChainedSubtraction, ops);
            &&& v == ops
            &&& v[0] - v[1] >= 0
            &&& v[0] - v[1] - v[2] >= 0
        }),
{
    assert(emitted(ProblemKind::ChainedSubtraction, ops) =~= ops);
}

} // verus!
