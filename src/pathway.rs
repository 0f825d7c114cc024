use vstd::prelude::*;

verus! {

/// A run of consecutive pathway steps, `start..end`, fused into one transformation.
#[derive(Clone, Copy, Debug, PartialEq, Eq, Structural)]
pub struct FusionGroup {
    /// Index of the first step of the run.
    pub start: usize,
    /// Index one past the last step of the run.
    pub end: usize,
    /// Whether the fused transformation preserves accessibility: every step of the
    /// run does.
    pub preserves_accessibility: bool,
}

/// Steps `i - 1` and `i` are fused: both preserve accessibility.
pub open spec fn fuses(preserving: Seq<bool>, i: int) -> bool {
    preserving[i - 1] && preserving[i]
}

/// Every step of `start..end` preserves accessibility.
pub open spec fn all_preserving(preserving: Seq<bool>, start: int, end: int) -> bool {
    forall|j: int| start <= j < end ==> #[trigger] preserving[j]
}

/// Every step of `start..end` after the first is fused to the step before it.
pub open spec fn run_fused(preserving: Seq<bool>, start: int, end: int) -> bool {
    forall|i: int| start < i < end ==> #[trigger] fuses(preserving, i)
}

/// The groups cut `0..n` into consecutive, non-empty runs, in order.
pub open spec fn is_partition(n: int, groups: Seq<FusionGroup>) -> bool {
    &&& (n == 0 <==> groups.len() == 0)
    &&& groups.len() > 0 ==> groups[0].start == 0 && groups.last().end == n
    &&& forall|k: int| 0 <= k < groups.len() ==> #[trigger] groups[k].start < groups[k].end
    &&& forall|k: int|
        0 <= k < groups.len() - 1 ==> #[trigger] groups[k].end == groups[k + 1].start
}

/// Each run is fused throughout, records whether all its steps preserve
/// accessibility, and (but for the first) begins where fusion breaks.
pub open spec fn runs_are_greedy(preserving: Seq<bool>, groups: Seq<FusionGroup>) -> bool {
    forall|k: int|
        0 <= k < groups.len() ==> {
            &&& run_fused(preserving, #[trigger] groups[k].start as int, groups[k].end as int)
            &&& groups[k].preserves_accessibility == all_preserving(
                preserving,
                groups[k].start as int,
                groups[k].end as int,
            )
            &&& k > 0 ==> !fuses(preserving, groups[k].start as int)
        }
}

/// The greedy fusion of a pathway whose steps preserve accessibility as `preserving`
/// says: the runs cover every step once and in order, and consecutive steps share a
/// run exactly when both preserve accessibility.
pub open spec fn is_fusion_plan(preserving: Seq<bool>, groups: Seq<FusionGroup>) -> bool {
    &&& is_partition(preserving.len() as int, groups)
    &&& runs_are_greedy(preserving, groups)
}

/// Plans the optimization of a pathway: steps are fused greedily from the first,
/// each into the run before it when that run and the step both preserve
/// accessibility; any step that does not preserve it stands alone.
pub fn fusion_plan(preserving: &Vec<bool>) -> (groups: Vec<FusionGroup>)
    ensures
        is_fusion_plan(preserving@, groups@),
{
    let n = preserving.len();
    let mut groups: Vec<FusionGroup> = Vec::new();
    if n == 0 {
        return groups;
    }
    let mut start: usize = 0;
    let mut all: bool = preserving[0];
    let mut i: usize = 1;
    while i < n
        invariant
            n == preserving@.len(),
            1 <= i <= n,
            start < i,
            is_partition(start as int, groups@),
            runs_are_greedy(preserving@, groups@),
            start > 0 ==> !fuses(preserving@, start as int),
            run_fused(preserving@, start as int, i as int),
            all == all_preserving(preserving@, start as int, i as int),
        decreases n - i,
    {
        let ghost p = preserving@;
        if i - 1 > start {
            assert(fuses(p, i - 1));
            assert forall|j: int| start <= j < i implies #[trigger] p[j] by {
                if j > start {
                    assert(fuses(p, j));
                } else {
                    assert(fuses(p, start + 1));
                }
            }
        }
        assert(all && p[i as int] <==> fuses(p, i as int));
        if all && preserving[i] {
            assert(run_fused(p, start as int, i + 1));
        } else {
            let group = FusionGroup { start, end: i, preserves_accessibility: all };
            let ghost old_groups = groups@;
            groups.push(group);
            assert(groups@ == old_groups.push(group));
            assert(groups@[groups@.len() - 1] == group);
            start = i;
            all = preserving[i];
            assert(run_fused(p, start as int, i + 1));
        }
        i = i + 1;
    }
    let group = FusionGroup { start, end: n, preserves_accessibility: all };
    groups.push(group);
    assert(groups@[groups@.len() - 1] == group);
    groups
}

/// Runs of a partition come in the order of their steps: an earlier run ends no
/// later than a later one begins.
proof fn lemma_runs_ordered(n: int, groups: Seq<FusionGroup>, k1: int, k2: int)
    requires
        is_partition(n, groups),
        0 <= k1 < k2 < groups.len(),
    ensures
        groups[k1].end <= groups[k2].start,
    decreases k2 - k1,
{
    if k1 + 1 < k2 {
        lemma_runs_ordered(n, groups, k1 + 1, k2);
        assert(groups[k1 + 1].start < groups[k1 + 1].end);
    }
    assert(groups[k1].end == groups[k1 + 1].start);
}

/// Some run at or before run `k` holds step `i`, when run `k` ends after it.
proof fn lemma_locate_step(n: int, groups: Seq<FusionGroup>, i: int, k: int) -> (found: int)
    requires
        is_partition(n, groups),
        0 <= i,
        0 <= k < groups.len(),
        i < groups[k].end,
    ensures
        0 <= found <= k,
        groups[found].start <= i < groups[found].end,
    decreases k,
{
    if groups[k].start <= i {
        k
    } else {
        assert(groups[k - 1].end == groups[k].start);
        lemma_locate_step(n, groups, i, k - 1)
    }
}

/// Fusion keeps every step of a pathway: each step lies in exactly one run of the
/// plan, so the fused pathway applies the same steps, each once, in the same order.
pub proof fn lemma_fusion_keeps_every_step(preserving: Seq<bool>, groups: Seq<FusionGroup>, i: int)
    requires
        is_fusion_plan(preserving, groups),
        0 <= i < preserving.len(),
    ensures
        exists|k: int| 0 <= k < groups.len() && #[trigger] groups[k].start <= i < groups[k].end,
        forall|k1: int, k2: int|
            #![trigger groups[k1], groups[k2]]
            0 <= k1 < groups.len() && 0 <= k2 < groups.len() && groups[k1].start <= i
                < groups[k1].end && groups[k2].start <= i < groups[k2].end ==> k1 == k2,
{
    let n = preserving.len() as int;
    let found = lemma_locate_step(n, groups, i, groups.len() - 1);
    assert(0 <= found < groups.len() && groups[found].start <= i < groups[found].end);
    assert forall|k1: int, k2: int|
        #![trigger groups[k1], groups[k2]]
        0 <= k1 < groups.len() && 0 <= k2 < groups.len() && groups[k1].start <= i
            < groups[k1].end && groups[k2].start <= i < groups[k2].end implies k1 == k2 by {
        if k1 < k2 {
            lemma_runs_ordered(n, groups, k1, k2);
        } else if k2 < k1 {
            lemma_runs_ordered(n, groups, k2, k1);
        }
    }
}

} // verus!
