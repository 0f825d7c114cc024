use vstd::prelude::*;

verus! {

/// The four ways a source coordinate can be carried onto a target.
#[derive(Clone, Copy, Debug, PartialEq, Eq, Structural)]
pub enum AlignmentStrategy {
    /// One scaled transformation vector from source toward target.
    Direct,
    /// Bounded fixed-point iteration toward the target.
    Iterative,
    /// A single cost-free transformation that lands on the target.
    ZeroComputation,
    /// Per-axis extreme scaling for locally impossible alignments.
    Ridiculous,
}

/// The decision table of strategy selection, in its order of evaluation.
pub open spec fn strategy_for(
    within_convergence: bool,
    beyond_impossibility: bool,
    within_temporal_window: bool,
) -> AlignmentStrategy {
    if within_convergence {
        AlignmentStrategy::Direct
    } else if beyond_impossibility {
        AlignmentStrategy::Ridiculous
    } else if within_temporal_window {
        AlignmentStrategy::ZeroComputation
    } else {
        AlignmentStrategy::Iterative
    }
}

/// Classifies a (source, target) pair from the outcome of its three threshold tests:
/// distance within the convergence threshold, impossibility beyond the maximum
/// impossibility factor, and distance within the temporal navigation window.
pub fn select_strategy(
    within_convergence: bool,
    beyond_impossibility: bool,
    within_temporal_window: bool,
) -> (r: AlignmentStrategy)
    ensures
        r == strategy_for(within_convergence, beyond_impossibility, within_temporal_window),
{
    if within_convergence {
        AlignmentStrategy::Direct
    } else if beyond_impossibility {
        AlignmentStrategy::Ridiculous
    } else if within_temporal_window {
        AlignmentStrategy::ZeroComputation
    } else {
        AlignmentStrategy::Iterative
    }
}

/// A pair whose distance is already within the convergence threshold is aligned
/// directly, whatever the impossibility and temporal-window tests say.
pub proof fn lemma_converged_pair_is_direct(beyond_impossibility: bool, within_temporal_window: bool)
    ensures
        strategy_for(true, beyond_impossibility, within_temporal_window)
            == AlignmentStrategy::Direct,
{
}

} // verus!
