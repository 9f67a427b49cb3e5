//! macOS CPU affinity logic.
//!
//! macOS does not pin threads to cores; it takes an affinity tag as a hint
//! (`thread_policy_set` with `THREAD_AFFINITY_POLICY`), a call the caller
//! makes with the tag computed here.
use vstd::prelude::*;

use crate::CoreId;
use crate::platform::{core_ids_up_to, first_cores, num_cpus_get};

verus! {

/// Returns core ids available on macOS: `0, 1, ..., n - 1`, where `n` is the
/// number of CPUs that `num_cpus` reports (at least 1).
pub fn get_core_ids() -> (res: Option<Vec<CoreId>>)
    ensures
        res matches Some(ids) && ids@.len() >= 1 && first_cores(ids@, ids@.len() as int),
{
    Some(core_ids_up_to(num_cpus_get()))
}

/// The affinity tag that stands for `core_id`: its index, truncated to the
/// 32 bits of an `integer_t`.
pub fn affinity_tag(core_id: CoreId) -> (tag: i32)
    ensures
        tag == core_id.id as i32,
{
    core_id.id as i32
}

} // verus!
