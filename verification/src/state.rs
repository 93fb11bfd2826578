//! The two-valued aggregate availability state and its derivation from the
//! per-path mount statuses.

use vstd::prelude::*;

verus! {

/// Summary of all monitored paths' statuses: `AllMounted` when every path is
/// mounted, `NotAllMounted` as soon as a single one is not.
#[derive(Clone, Copy, Debug, PartialEq, Eq, Structural)]
pub enum AggregateState {
    AllMounted,
    NotAllMounted,
}

/// Whether every per-path mount status in the sequence is true.
pub open spec fn all_true(statuses: Seq<bool>) -> bool {
    forall|i: int| 0 <= i < statuses.len() ==> statuses[i]
}

/// The aggregate state derived from a cycle's per-path mount statuses.
pub open spec fn aggregate_of(statuses: Seq<bool>) -> AggregateState {
    if all_true(statuses) {
        AggregateState::AllMounted
    } else {
        AggregateState::NotAllMounted
    }
}

/// Folds one cycle's per-path statuses into the aggregate state.
pub fn compute_aggregate(statuses: &Vec<bool>) -> (s: AggregateState)
    ensures
        s == aggregate_of(statuses@),
{
    let mut i: usize = 0;
    while i < statuses.len()
        invariant
            0 <= i <= statuses@.len(),
            forall|j: int| 0 <= j < i ==> statuses@[j],
        decreases statuses@.len() - i,
    {
        if !statuses[i] {
            return AggregateState::NotAllMounted;
        }
        i = i + 1;
    }
    AggregateState::AllMounted
}

/// The aggregate is `AllMounted` exactly when every per-path status is true;
/// a single false status forces `NotAllMounted`.
pub proof fn lemma_aggregate_all_iff(statuses: Seq<bool>)
    ensures
        aggregate_of(statuses) == AggregateState::AllMounted <==> (forall|i: int|
            0 <= i < statuses.len() ==> statuses[i]),
        (exists|i: int| 0 <= i < statuses.len() && !statuses[i]) ==> aggregate_of(statuses)
            == AggregateState::NotAllMounted,
{
}

} // verus!
