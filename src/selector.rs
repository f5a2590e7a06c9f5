//! Region selection from probe results.
//!
//! Each region of a provider is probed once; a probe either fails or yields a
//! round-trip time. The best region is the one with the smallest round-trip
//! time, the earliest one among equals.
use vstd::prelude::*;

verus! {

/// Index of the region used when no probe succeeded.
pub const DEFAULT_REGION: usize = 0;

/// Whether some probe in `rtts` succeeded.
pub open spec fn any_reachable(rtts: Seq<Option<u64>>) -> bool {
    exists|j: int| 0 <= j < rtts.len() && #[trigger] rtts[j].is_some()
}

/// Whether `i` is the index of the smallest round-trip time among the
/// successful probes, and the first index that has it.
pub open spec fn is_fastest(rtts: Seq<Option<u64>>, i: int) -> bool {
    &&& 0 <= i < rtts.len()
    &&& rtts[i].is_some()
    &&& forall|j: int|
        0 <= j < rtts.len() && #[trigger] rtts[j].is_some() ==> rtts[i].unwrap() <= rtts[j].unwrap()
    &&& forall|j: int| 0 <= j < i && #[trigger] rtts[j].is_some() ==> rtts[i].unwrap() < rtts[j].unwrap()
}

/// Picks the region with the smallest measured round-trip time, `rtts[i]`
/// being the outcome of probing region `i` (`None` when the probe failed).
/// Returns `None` when every probe failed.
pub fn select_best(rtts: &Vec<Option<u64>>) -> (r: Option<usize>)
    ensures
        r.is_none() <==> !any_reachable(rtts@),
        r matches Some(i) ==> is_fastest(rtts@, i as int),
{
    let mut best: Option<usize> = None;
    let mut i: usize = 0;
    while i < rtts.len()
        invariant
            i <= rtts.len(),
            best.is_none() ==> forall|j: int| 0 <= j < i ==> !(#[trigger] rtts@[j].is_some()),
            best.is_some() ==> best.unwrap() < i && rtts@[best.unwrap() as int].is_some(),
            best.is_some() ==> forall|j: int|
                0 <= j < i && #[trigger] rtts@[j].is_some() ==> rtts@[best.unwrap() as int].unwrap()
                    <= rtts@[j].unwrap(),
            best.is_some() ==> forall|j: int|
                0 <= j < best.unwrap() && #[trigger] rtts@[j].is_some()
                    ==> rtts@[best.unwrap() as int].unwrap() < rtts@[j].unwrap(),
        decreases rtts.len() - i,
    {
        let cur = rtts[i];
        if let Some(t) = cur {
            let better = match best {
                None => true,
                Some(b) => t < rtts[b].unwrap(),
            };
            if better {
                proof {
                    assert forall|j: int| 0 <= j < i && #[trigger] rtts@[j].is_some() implies t
                        < rtts@[j].unwrap() by {}
                }
                best = Some(i);
            }
        }
        i = i + 1;
    }
    best
}

/// The region to use given the selection's outcome: the selected one, or the
/// default region when every probe failed.
pub fn region_or_default(best: Option<usize>) -> (r: usize)
    ensures
        r == match best {
            Some(i) => i,
            None => DEFAULT_REGION,
        },
{
    match best {
        Some(i) => i,
        None => DEFAULT_REGION,
    }
}

} // verus!
