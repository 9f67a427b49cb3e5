//! The per-platform logic, and what the platforms share.
use vstd::prelude::*;

use crate::CoreId;

pub mod linux;
pub mod macos;
pub mod netbsd;
pub mod stub;
pub mod windows;

verus! {

/// `ids` lists, in increasing order and each once, exactly the indices `i`
/// of `flags` where `flags[i]` holds.
pub open spec fn lists_exactly(ids: Seq<CoreId>, flags: Seq<bool>) -> bool {
    &&& forall|k: int| 0 <= k < ids.len() ==> #[trigger] ids[k].id < flags.len() && flags[ids[k].id as int]
    &&& forall|j: int, k: int| 0 <= j < k < ids.len() ==> #[trigger] ids[j].id < #[trigger] ids[k].id
    &&& forall|i: int| 0 <= i < flags.len() && #[trigger] flags[i] ==> exists|k: int| 0 <= k < ids.len() && #[trigger] ids[k].id == i
}

/// `ids` are the cores `0, 1, ..., n - 1`, in this order.
pub open spec fn first_cores(ids: Seq<CoreId>, n: int) -> bool {
    &&& ids.len() == n
    &&& forall|i: int| 0 <= i < n ==> #[trigger] ids[i].id == i
}

/// Wraps `num_cpus::get`, the number of logical CPUs available to the
/// current process (on Linux it looks at the affinity mask and at cgroup
/// quotas). The result depends on the machine, so nothing ties it to the
/// arguments; what is claimed is what the crate's documentation promises:
/// it is at least 1.
#[verifier::external_body]
pub(crate) fn num_cpus_get() -> (n: usize)
    ensures
        n >= 1,
{
    num_cpus::get()
}

/// The cores `0, 1, ..., n - 1`, in this order.
pub fn core_ids_up_to(n: usize) -> (ids: Vec<CoreId>)
    ensures
        first_cores(ids@, n as int),
{
    let mut ids: Vec<CoreId> = Vec::new();
    let mut i: usize = 0;
    while i < n
        invariant
            i <= n,
            first_cores(ids@, i as int),
        decreases n - i,
    {
        ids.push(CoreId { id: i });
        i = i + 1;
    }
    ids
}

} // verus!
