//! NetBSD CPU affinity logic.
//!
//! The caller reads the affinity set of the current thread
//! (`pthread_getaffinity_np`) and asks `_cpuset_isset` about each CPU that
//! `num_cpus` counts; the answers are handed here, one per CPU in order.
//! `_cpuset_isset` answers a positive value for a CPU in the set, 0 for one
//! outside it and -1 for an index past the set; only the CPUs in the set are
//! ones the current thread is allowed to run on.
use vstd::prelude::*;

use crate::CoreId;
use crate::platform::lists_exactly;

verus! {

/// The CPUs that a NetBSD core listing keeps: those that `_cpuset_isset`
/// reports in the affinity set.
pub open spec fn kept_cpus(statuses: Seq<i32>) -> Seq<bool> {
    Seq::new(statuses.len(), |i: int| statuses[i] > 0)
}

/// Returns the core ids for the current thread on NetBSD, given the answers
/// of `_cpuset_isset` for the CPUs `0, 1, ..., n - 1` (`None` when the
/// affinity set could not be read, and then `None`): the CPUs in the set,
/// those whose answer is positive, in increasing order.
pub fn get_core_ids(statuses: Option<Vec<i32>>) -> (res: Option<Vec<CoreId>>)
    ensures
        statuses is None ==> res is None,
        statuses matches Some(s) ==> (res matches Some(ids) && lists_exactly(ids@, kept_cpus(s@))),
{
    let statuses = match statuses {
        Some(s) => s,
        None => return None,
    };
    let ghost flags = kept_cpus(statuses@);
    let mut core_ids: Vec<CoreId> = Vec::new();
    let mut i: usize = 0;
    while i < statuses.len()
        invariant
            i <= statuses@.len(),
            flags == kept_cpus(statuses@),
            lists_exactly(core_ids@, flags.take(i as int)),
        decreases statuses@.len() - i,
    {
        if statuses[i] > 0 {
            let ghost before = core_ids@;
            core_ids.push(CoreId { id: i });
            proof {
                let taken = flags.take(i + 1);
                assert(core_ids@[before.len() as int].id == i);
                assert forall|j: int| 0 <= j < taken.len() && #[trigger] taken[j] implies exists|k: int|
                    0 <= k < core_ids@.len() && #[trigger] core_ids@[k].id == j by {
                    if j < i {
                        assert(flags.take(i as int)[j]);
                        let k = choose|k: int| 0 <= k < before.len() && #[trigger] before[k].id == j;
                        assert(core_ids@[k] == before[k]);
                    } else {
                        assert(core_ids@[before.len() as int].id == j);
                    }
                }
            }
        }
        i = i + 1;
    }
    assert(flags.take(flags.len() as int) =~= flags);
    Some(core_ids)
}

} // verus!
