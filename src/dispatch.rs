use vstd::prelude::*;

use crate::kind::{arity_of, ProblemKind};
use crate::problem::{
    accepts, attempt, emitted, lemma_accepted_is_well_formed, operands_in_range, well_formed,
    Problem,
};
use crate::random::RandomSource;

verus! {

/// How many draws the dispatcher makes before it gives up on a configuration.
pub const MAX_ATTEMPTS: u64 = 10000;

/// A worksheet variant: operand range, sum ceiling and the kinds it may use.
#[derive(Clone, Debug)]
pub struct Config {
    /// Operands are drawn from `[0, operand_max)`.
    pub operand_max: u64,
    /// Largest sum an addition kind may reach.
    pub sum_ceiling: u64,
    /// The kinds the dispatcher picks from.
    pub enabled_kinds: Vec<ProblemKind>,
}

/// Why no problem could be produced.
#[derive(Clone, Copy, Debug, PartialEq, Eq, Structural)]
pub enum ConfigError {
    /// No kind is enabled.
    NoKinds,
    /// The operand range `[0, operand_max)` is empty.
    EmptyRange,
    /// Every draw up to the attempt cap was rejected.
    Exhausted,
}

/// Every draw of operands in range, for every enabled kind, is accepted.
pub open spec fn always_accepts(config: Config) -> bool {
    forall|i: int, ops: Seq<u64>|
        0 <= i < config.enabled_kinds@.len() && ops.len() == arity_of(config.enabled_kinds@[i])
            && operands_in_range(ops, config.operand_max) ==> #[trigger] accepts(
            config.enabled_kinds@[i],
            ops,
            config.sum_ceiling,
        )
}

/// When only single additions and comparisons are enabled and two largest
/// operands still fit under the ceiling, every draw is accepted, so the
/// dispatcher succeeds on its first draw.
pub proof fn law_small_sums_always_accepted(config: Config)
    requires
        config.operand_max > 0,
        2 * (config.operand_max - 1) <= config.sum_ceiling,
        forall|i: int|
            0 <= i < config.enabled_kinds@.len() ==> #[trigger] config.enabled_kinds@[i]
                == ProblemKind::SingleAddition || config.enabled_kinds@[i]
                == ProblemKind::ComparisonPair,
    ensures
        always_accepts(config),
{
    assert forall|i: int, ops: Seq<u64>|
        0 <= i < config.enabled_kinds@.len() && ops.len() == arity_of(config.enabled_kinds@[i])
            && operands_in_range(ops, config.operand_max) implies #[trigger] accepts(
        config.enabled_kinds@[i],
        ops,
        config.sum_ceiling,
    ) by {
        assert(ops[0] < config.operand_max && ops[1] < config.operand_max);
    }
}

/// A problem the dispatcher may hand out under `config`.
pub open spec fn produced_under(config: Config, p: Problem) -> bool {
    &&& config.enabled_kinds@.contains(p.kind)
    &&& well_formed(p.kind, p.values@, config.operand_max, config.sum_ceiling)
}

/// One draw of the dispatcher: the `attempts`-th draw (counting from zero)
/// picked the kind at `idx` and the operands `ops`. An accepted draw yields
/// its problem; a rejected one asks for another draw, unless it was the last
/// draw allowed, in which case the configuration is given up on.
pub fn dispatch_step(config: &Config, attempts: u64, idx: usize, ops: &Vec<u64>) -> (r: Result<
    Option<Problem>,
    ConfigError,
>)
    requires
        idx < config.enabled_kinds.len(),
        ops.len() == arity_of(config.enabled_kinds@[idx as int]),
        attempts < MAX_ATTEMPTS,
    ensures
        accepts(config.enabled_kinds@[idx as int], ops@, config.sum_ceiling) ==> (r matches Ok(
            Some(p),
        ) && p.kind == config.enabled_kinds@[idx as int] && p.values@ == emitted(
            config.enabled_kinds@[idx as int],
            ops@,
        )),
        !accepts(config.enabled_kinds@[idx as int], ops@, config.sum_ceiling) && attempts + 1
            < MAX_ATTEMPTS ==> r == Ok::<Option<Problem>, ConfigError>(None),
        !accepts(config.enabled_kinds@[idx as int], ops@, config.sum_ceiling) && attempts + 1
            == MAX_ATTEMPTS ==> r == Err::<Option<Problem>, ConfigError>(ConfigError::Exhausted),
{
    let kind = config.enabled_kinds[idx];
    match attempt(kind, ops, config.sum_ceiling) {
        Some(p) => Ok(Some(p)),
        None => {
            if attempts + 1 < MAX_ATTEMPTS {
                Ok(None)
            } else {
                Err(ConfigError::Exhausted)
            }
        },
    }
}

/// Draws a kind and its operands until a kind accepts them, at most
/// `MAX_ATTEMPTS` times; each draw is decided by `dispatch_step`.
pub fn next_problem(config: &Config, rng: &mut RandomSource) -> (r: Result<Problem, ConfigError>)
    ensures
        r == Err::<Problem, ConfigError>(ConfigError::NoKinds) <==> config.enabled_kinds.len() == 0,
        r == Err::<Problem, ConfigError>(ConfigError::EmptyRange) <==> config.enabled_kinds.len() > 0
            && config.operand_max == 0,
        r matches Ok(p) ==> produced_under(*config, p),
        config.enabled_kinds.len() > 0 && config.operand_max > 0 && always_accepts(*config)
            ==> r is Ok,
{
    let n = config.enabled_kinds.len();
    if n == 0 {
        return Err(ConfigError::NoKinds);
    }
    if config.operand_max == 0 {
        return Err(ConfigError::EmptyRange);
    }
    let mut attempts: u64 = 0;
    loop
        invariant
            n == config.enabled_kinds.len(),
            n > 0,
            config.operand_max > 0,
            attempts < MAX_ATTEMPTS,
            always_accepts(*config) ==> attempts == 0,
        decreases MAX_ATTEMPTS - attempts,
    {
        let idx = rng.choose_index(n);
        let kind = config.enabled_kinds[idx];
        let ops = rng.sample_operands(kind.arity(), config.operand_max);
        proof {
            if always_accepts(*config) {
                assert(accepts(config.enabled_kinds@[idx as int], ops@, config.sum_ceiling));
            }
        }
        match dispatch_step(config, attempts, idx, &ops) {
            Ok(Some(p)) => {
                proof {
                    lemma_accepted_is_well_formed(kind, ops@, config.operand_max, config.sum_ceiling);
                    assert(config.enabled_kinds@[idx as int] == kind);
                }
                return Ok(p);
            },
            Ok(None) => {
                attempts = attempts + 1;
            },
            Err(e) => {
                return Err(e);
            },
        }
    }
}

} // verus!
