//! Laws of the engine that span several operations: determinism of the draw
//! and monotonic depletion of supply across a whole run of resolutions.

use vstd::prelude::*;

use crate::draw::resolve_outcome;
use crate::game::{weight_sum, Game};

verus! {

/// The draw is auditable because it is a pure function of the table and the
/// random bytes: two resolutions of identical inputs yield identical
/// outcomes. [`crate::draw::select_prize_index`] pins its result to
/// [`resolve_outcome`], so any two calls on the same table, count and bytes
/// return the same value.
pub proof fn lemma_draw_deterministic(
    weights: Seq<u16>,
    count: int,
    random_value: Seq<u8>,
    first: Option<int>,
    second: Option<int>,
)
    requires
        first == resolve_outcome(weights, count, random_value),
        second == resolve_outcome(weights, count, random_value),
    ensures
        first == second,
{
}

/// A well-formed game never holds more than the whole probability budget:
/// whatever sequence of prize additions produced its table, the weights sum
/// to at most 10000 basis points.
pub proof fn lemma_weight_budget(game: Game)
    requires
        game.wf(),
    ensures
        weight_sum(game.prize_probabilities@) <= 10000,
{
}

/// One observation of a prize's remaining supply before and after a
/// resolution: the supply is unchanged (a loss, an error, or another prize's
/// win) or decremented by exactly one from a positive value (a win of this
/// prize), as the ensures of [`crate::session::finalize_play`] guarantee.
pub open spec fn resolution_step(before: u32, after: u32) -> bool {
    after == before || (before > 0 && after == before - 1)
}

/// A run of resolutions, as the sequence of supply values it leaves behind:
/// every adjacent pair is one [`resolution_step`].
pub open spec fn supply_trace_ok(trace: Seq<u32>) -> bool {
    forall|i: int| 0 <= i < trace.len() - 1 ==> resolution_step(#[trigger] trace[i], trace[i + 1])
}

/// The number of wins a run records: the steps that strictly decrease.
pub open spec fn win_count(trace: Seq<u32>) -> int
    decreases trace.len(),
{
    if trace.len() <= 1 {
        0
    } else {
        win_count(trace.drop_last()) + if trace[trace.len() - 2] != trace[trace.len() - 1] {
            1int
        } else {
            0int
        }
    }
}

/// Across any run of resolutions a prize's remaining supply is
/// non-increasing — it never grows and, being unsigned, never goes negative.
pub proof fn lemma_supply_nonincreasing(trace: Seq<u32>, i: int, j: int)
    requires
        supply_trace_ok(trace),
        0 <= i <= j < trace.len(),
    ensures
        trace[j] <= trace[i],
    decreases j - i,
{
    if i < j {
        lemma_supply_nonincreasing(trace, i, j - 1);
        assert(resolution_step(trace[j - 1], trace[j - 1 + 1]));
    }
}

/// Supply is depleted by wins alone: across any run of resolutions, the
/// number of wins equals the supply consumed. In particular a prize whose
/// supply ends at zero was won exactly as many times as its initial supply.
pub proof fn lemma_supply_depletion(trace: Seq<u32>)
    requires
        supply_trace_ok(trace),
        trace.len() >= 1,
    ensures
        win_count(trace) == trace[0] - trace[trace.len() - 1],
    decreases trace.len(),
{
    if trace.len() > 1 {
        let shorter = trace.drop_last();
        assert(supply_trace_ok(shorter)) by {
            assert forall|i: int|
                0 <= i < shorter.len() - 1 implies resolution_step(
                #[trigger] shorter[i],
                shorter[i + 1],
            ) by {
                assert(resolution_step(trace[i], trace[i + 1]));
            }
        }
        lemma_supply_depletion(shorter);
        assert(resolution_step(trace[trace.len() - 2], trace[trace.len() - 2 + 1]));
    }
}

} // verus!
