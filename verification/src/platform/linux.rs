//! Linux and Android CPU affinity logic.
//!
//! The affinity mask of the current thread is read and written by the caller
//! (`sched_getaffinity`, `sched_setaffinity`); here it is a sequence of flags,
//! one per CPU of the mask, `true` where the CPU is in the mask.
use vstd::prelude::*;

use crate::CoreId;
use crate::platform::lists_exactly;

verus! {

/// The number of CPUs a mask holds, from the C library's `CPU_SETSIZE`;
/// 0 when that value is negative.
pub fn cpu_set_size(setsize: i32) -> (size: usize)
    ensures
        setsize >= 0 ==> size == setsize,
        setsize < 0 ==> size == 0,
{
    if setsize < 0 {
        0
    } else {
        setsize as usize
    }
}

/// The cores in the affinity mask, in increasing order.
pub fn core_ids_in_mask(mask: &Vec<bool>) -> (core_ids: Vec<CoreId>)
    ensures
        lists_exactly(core_ids@, mask@),
{
    let mut core_ids: Vec<CoreId> = Vec::new();
    let mut i: usize = 0;
    while i < mask.len()
        invariant
            i <= mask@.len(),
            lists_exactly(core_ids@, mask@.take(i as int)),
        decreases mask@.len() - i,
    {
        if mask[i] {
            let ghost before = core_ids@;
            core_ids.push(CoreId { id: i });
            proof {
                let flags = mask@.take(i + 1);
                assert(core_ids@[before.len() as int].id == i);
                assert forall|j: int| 0 <= j < flags.len() && #[trigger] flags[j] implies exists|k: int|
                    0 <= k < core_ids@.len() && #[trigger] core_ids@[k].id == j by {
                    if j < i {
                        let k = choose|k: int| 0 <= k < before.len() && #[trigger] before[k].id == j;
                        assert(core_ids@[k] == before[k]);
                    } else {
                        assert(core_ids@[before.len() as int].id == j);
                    }
                }
            }
        }
        i = i + 1;
    }
    assert(mask@.take(mask@.len() as int) =~= mask@);
    core_ids
}

/// Returns the core ids available to the current thread, given its affinity
/// mask (`None` when the mask could not be read, and then `None`).
pub fn get_core_ids(mask: Option<Vec<bool>>) -> (res: Option<Vec<CoreId>>)
    ensures
        mask is None ==> res is None,
        mask matches Some(m) ==> (res matches Some(ids) && lists_exactly(ids@, m@)),
{
    match mask {
        Some(m) => Some(core_ids_in_mask(&m)),
        None => None,
    }
}

/// The mask that holds only `core_id`, for a mask of `set_size` CPUs.
pub open spec fn is_single_core_mask(mask: Seq<bool>, core_id: CoreId, set_size: int) -> bool {
    &&& mask.len() == set_size
    &&& forall|i: int| 0 <= i < set_size ==> #[trigger] mask[i] == (i == core_id.id)
}

/// The affinity mask that pins a thread to `core_id` alone: the CPU of that
/// index set, every other CPU clear. The core must lie within the mask.
pub fn single_core_mask(core_id: CoreId, set_size: usize) -> (mask: Vec<bool>)
    requires
        core_id.id < set_size,
    ensures
        is_single_core_mask(mask@, core_id, set_size as int),
{
    let mut mask: Vec<bool> = Vec::new();
    let mut i: usize = 0;
    while i < set_size
        invariant
            i <= set_size,
            mask@.len() == i,
            forall|j: int| 0 <= j < i ==> #[trigger] mask@[j] == (j == core_id.id),
        decreases set_size - i,
    {
        mask.push(i == core_id.id);
        i = i + 1;
    }
    mask
}

/// The affinity mask that pins a thread to `core_id`, or `None` when the core
/// lies past a mask of `set_size` CPUs and so cannot be pinned to.
pub fn affinity_mask_for(core_id: CoreId, set_size: usize) -> (mask: Option<Vec<bool>>)
    ensures
        core_id.id >= set_size ==> mask is None,
        core_id.id < set_size ==> (mask matches Some(m) && is_single_core_mask(m@, core_id, set_size as int)),
{
    if core_id.id < set_size {
        Some(single_core_mask(core_id, set_size))
    } else {
        None
    }
}

/// Reading back the mask that pins a thread to a core lists that core and no
/// other.
pub proof fn single_core_mask_lists_only_its_core(mask: Seq<bool>, core_id: CoreId, ids: Seq<CoreId>)
    requires
        is_single_core_mask(mask, core_id, mask.len() as int),
        core_id.id < mask.len(),
        lists_exactly(ids, mask),
    ensures
        ids == seq![core_id],
{
    assert(mask[core_id.id as int]);
    let k = choose|k: int| 0 <= k < ids.len() && #[trigger] ids[k].id == core_id.id;
    assert forall|j: int| 0 <= j < ids.len() implies #[trigger] ids[j].id == core_id.id by {
        assert(mask[ids[j].id as int]);
    }
    if ids.len() > 1 {
        assert(ids[0].id < ids[1].id);
    }
    assert(ids =~= seq![core_id]);
}

} // verus!
