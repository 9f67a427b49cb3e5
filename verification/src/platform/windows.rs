//! Windows CPU affinity logic.
//!
//! Windows numbers logical processors within processor groups. A core id of
//! this crate is a global index: the processors of group 0 first, then those
//! of group 1, and so on. The operating system calls themselves
//! (`GetActiveProcessorGroupCount`, `GetActiveProcessorCount`,
//! `SetThreadGroupAffinity`, `SetThreadAffinityMask`) are made by the caller,
//! which hands their answers to the functions here and performs what they
//! decide.
use vstd::prelude::*;

use crate::CoreId;
use crate::platform::{core_ids_up_to, first_cores, num_cpus_get};

verus! {

/// The total number of processors of the groups in `group_counts`.
pub open spec fn total_count(group_counts: Seq<(u16, usize)>) -> nat
    decreases group_counts.len(),
{
    if group_counts.len() == 0 {
        0
    } else {
        group_counts[0].1 as nat + total_count(group_counts.drop_first())
    }
}

/// The group and the index within that group of the processor with global
/// index `global_core_id`, where the groups are numbered in the order of
/// `group_counts`; `None` when the index is past the last group.
pub open spec fn resolve(global_core_id: int, group_counts: Seq<(u16, usize)>) -> Option<(u16, usize)>
    decreases group_counts.len(),
{
    if group_counts.len() == 0 {
        None
    } else if global_core_id < group_counts[0].1 {
        Some((group_counts[0].0, global_core_id as usize))
    } else {
        resolve(global_core_id - group_counts[0].1, group_counts.drop_first())
    }
}

/// The number of processors of the groups before group number `k` in `group_counts`.
pub open spec fn processors_before(group_counts: Seq<(u16, usize)>, k: int) -> nat {
    total_count(group_counts.take(k))
}

proof fn processors_before_step(group_counts: Seq<(u16, usize)>, k: int)
    requires
        0 < k <= group_counts.len(),
    ensures
        processors_before(group_counts, k) == group_counts[0].1 + processors_before(group_counts.drop_first(), k - 1),
{
    assert(group_counts.take(k).drop_first() =~= group_counts.drop_first().take(k - 1));
}

/// A global core index resolves to a group exactly when it is below the total
/// number of processors of all groups.
pub proof fn resolve_defined_below_total(global_core_id: int, group_counts: Seq<(u16, usize)>)
    requires
        0 <= global_core_id,
    ensures
        resolve(global_core_id, group_counts) is Some <==> global_core_id < total_count(group_counts),
    decreases group_counts.len(),
{
    if group_counts.len() > 0 && global_core_id >= group_counts[0].1 {
        resolve_defined_below_total(global_core_id - group_counts[0].1, group_counts.drop_first());
    }
}

/// When a global core index resolves to `(group, local)`, then `group` is
/// the number of one of the groups, `local` is below that group's processor
/// count, and the global index is `local` plus the processors of the groups
/// before that one.
pub proof fn resolve_finds_its_group(global_core_id: int, group_counts: Seq<(u16, usize)>)
    requires
        0 <= global_core_id,
        resolve(global_core_id, group_counts) is Some,
    ensures
        ({
            let (group, local) = resolve(global_core_id, group_counts)->0;
            exists|k: int|
                0 <= k < group_counts.len() && #[trigger] group_counts[k].0 == group && local < group_counts[k].1
                    && global_core_id == processors_before(group_counts, k) + local
        }),
    decreases group_counts.len(),
{
    let (group, local) = resolve(global_core_id, group_counts)->0;
    if global_core_id < group_counts[0].1 {
        assert(group_counts.take(0) =~= Seq::<(u16, usize)>::empty());
        assert(group_counts[0].0 == group);
    } else {
        let rest = group_counts.drop_first();
        resolve_finds_its_group(global_core_id - group_counts[0].1, rest);
        let k = choose|k: int|
            0 <= k < rest.len() && #[trigger] rest[k].0 == group && local < rest[k].1
                && global_core_id - group_counts[0].1 == processors_before(rest, k) + local;
        processors_before_step(group_counts, k + 1);
        assert(group_counts[k + 1] == rest[k]);
    }
}

/// The processor with index `local` in group number `k` has the global index
/// `local` plus the processors of the groups before it, and that global
/// index resolves back to the group and to `local`.
pub proof fn resolve_inverts_global_index(group_counts: Seq<(u16, usize)>, k: int, local: usize)
    requires
        0 <= k < group_counts.len(),
        local < group_counts[k].1,
    ensures
        resolve(processors_before(group_counts, k) + local, group_counts) == Some((group_counts[k].0, local)),
    decreases k,
{
    if k == 0 {
        assert(group_counts.take(0) =~= Seq::<(u16, usize)>::empty());
    } else {
        processors_before_step(group_counts, k);
        resolve_inverts_global_index(group_counts.drop_first(), k - 1, local);
    }
}

/// Maps a global core index onto its processor group and the index within
/// that group, walking the groups in order.
pub fn resolve_group_and_local_index(global_core_id: usize, group_counts: &[(u16, usize)]) -> (res: Option<(u16, usize)>)
    ensures
        res == resolve(global_core_id as int, group_counts@),
{
    let mut remaining: usize = global_core_id;
    let mut i: usize = 0;
    assert(group_counts@.skip(0) =~= group_counts@);
    while i < group_counts.len()
        invariant
            i <= group_counts@.len(),
            resolve(global_core_id as int, group_counts@) == resolve(remaining as int, group_counts@.skip(i as int)),
        decreases group_counts@.len() - i,
    {
        let (group, count) = group_counts[i];
        proof {
            let rest = group_counts@.skip(i as int);
            assert(rest[0] == (group, count));
            assert(rest.drop_first() =~= group_counts@.skip(i + 1));
        }
        if remaining < count {
            return Some((group, remaining));
        }
        remaining = remaining - count;
        i = i + 1;
    }
    None
}

/// The processor groups `0, 1, ..., group_count - 1`, or `None` when the
/// system reports no active processor group.
pub fn group_list(group_count: u16) -> (res: Option<Vec<u16>>)
    ensures
        group_count == 0 ==> res is None,
        group_count > 0 ==> (res matches Some(groups) && groups@.len() == group_count
            && forall|i: int| 0 <= i < group_count ==> #[trigger] groups@[i] == i),
{
    if group_count == 0 {
        return None;
    }
    let mut groups: Vec<u16> = Vec::new();
    let mut g: u16 = 0;
    while g < group_count
        invariant
            g <= group_count,
            groups@.len() == g,
            forall|i: int| 0 <= i < g ==> #[trigger] groups@[i] == i,
        decreases group_count - g,
    {
        groups.push(g);
        g = g + 1;
    }
    Some(groups)
}

/// The sum of the active processor counts of the groups.
pub open spec fn sum_counts(counts: Seq<u32>) -> nat
    decreases counts.len(),
{
    if counts.len() == 0 {
        0
    } else {
        sum_counts(counts.drop_last()) + counts.last() as nat
    }
}

proof fn sum_counts_prefix_bounded(counts: Seq<u32>, i: int)
    requires
        0 <= i <= counts.len(),
    ensures
        sum_counts(counts.take(i)) <= sum_counts(counts),
    decreases counts.len(),
{
    if i < counts.len() {
        assert(counts.drop_last().take(i) =~= counts.take(i));
        sum_counts_prefix_bounded(counts.drop_last(), i);
    } else {
        assert(counts.take(i) =~= counts);
    }
}

/// The total number of active processors over all groups.
pub fn total_active_count(counts: &Vec<u32>) -> (total: u32)
    requires
        sum_counts(counts@) <= u32::MAX,
    ensures
        total == sum_counts(counts@),
{
    let mut total: u32 = 0;
    let mut i: usize = 0;
    assert(counts@.take(0) =~= Seq::<u32>::empty());
    while i < counts.len()
        invariant
            i <= counts@.len(),
            sum_counts(counts@) <= u32::MAX,
            total == sum_counts(counts@.take(i as int)),
        decreases counts@.len() - i,
    {
        proof {
            assert(counts@.take(i + 1).drop_last() =~= counts@.take(i as int));
            sum_counts_prefix_bounded(counts@, i + 1);
        }
        total = total + counts[i];
        i = i + 1;
    }
    assert(counts@.take(counts@.len() as int) =~= counts@);
    total
}

/// The number of CPUs as a `u32`, saturating at `u32::MAX`.
pub fn cpu_count_to_u32(n: usize) -> (count: u32)
    ensures
        n <= u32::MAX ==> count == n,
        n > u32::MAX ==> count == u32::MAX,
{
    if n <= 4294967295usize {
        n as u32
    } else {
        u32::MAX
    }
}

/// The number of cores that Windows reports: the sum of the active
/// processor counts of the groups when there are groups and the sum is not 0,
/// otherwise the number of CPUs `cpus` saturated to `u32`.
pub open spec fn core_count_spec(group_counts: Option<Seq<u32>>, cpus: nat) -> nat {
    match group_counts {
        Some(counts) if sum_counts(counts) > 0 => sum_counts(counts),
        _ => if cpus <= u32::MAX { cpus } else { u32::MAX as nat },
    }
}

/// The active processor counts of the groups, as a sequence.
pub open spec fn counts_view(group_counts: Option<Vec<u32>>) -> Option<Seq<u32>> {
    match group_counts {
        Some(counts) => Some(counts@),
        None => None,
    }
}

/// The number of cores, given the active processor count of each group
/// (`None` when the system reports no group) and the number of CPUs that
/// `num_cpus` reports, which is used when the groups give no processor.
pub fn core_count(group_counts: &Option<Vec<u32>>, cpus: usize) -> (count: u32)
    requires
        group_counts matches Some(counts) ==> sum_counts(counts@) <= u32::MAX,
    ensures
        count == core_count_spec(counts_view(*group_counts), cpus as nat),
{
    match group_counts {
        Some(counts) => {
            let total = total_active_count(counts);
            if total > 0 {
                total
            } else {
                cpu_count_to_u32(cpus)
            }
        },
        None => cpu_count_to_u32(cpus),
    }
}

/// Returns core ids visible to the current process on Windows, given the
/// active processor count of each processor group (`None` when the system
/// reports no group). The ids are `0, 1, ..., n - 1`, where `n` is the sum of
/// the counts; when there are no groups or the sum is 0, `n` is the number
/// of CPUs that `num_cpus` reports (at least 1), saturated to `u32`.
pub fn get_core_ids(group_counts: Option<Vec<u32>>) -> (res: Option<Vec<CoreId>>)
    requires
        group_counts matches Some(counts) ==> sum_counts(counts@) <= u32::MAX,
    ensures
        res matches Some(ids) && first_cores(ids@, ids@.len() as int) && ids@.len() >= 1,
        res matches Some(ids) && exists|cpus: nat|
            cpus >= 1 && ids@.len() == #[trigger] core_count_spec(counts_view(group_counts), cpus),
        res matches Some(ids) && (group_counts matches Some(counts) ==> (sum_counts(counts@) > 0
            ==> ids@.len() == sum_counts(counts@))),
{
    let cpus = num_cpus_get();
    let count = core_count(&group_counts, cpus);
    let core_ids = core_ids_up_to(count as usize);
    proof {
        assert(core_ids@.len() == core_count_spec(counts_view(group_counts), cpus as nat));
    }
    Some(core_ids)
}

/// What pinning the current thread to a core asks of Windows.
#[derive(Debug, Clone, Copy, PartialEq, Eq, Structural)]
pub enum AffinityRequest {
    /// `SetThreadGroupAffinity` with this group and this processor mask.
    GroupAffinity { group: u16, mask: usize },
    /// `SetThreadAffinityMask` with this processor mask, where processor
    /// groups are unavailable.
    ThreadAffinityMask { mask: usize },
    /// Nothing can be asked: the pinning fails.
    Unsupported,
}

/// The request that pins the current thread to `core_id`: within its processor
/// group when the groups are known and the core lies in one of them; else,
/// where the core index fits in a mask, a plain thread affinity mask; else none.
pub open spec fn affinity_request_spec(core_id: CoreId, group_counts: Option<Seq<(u16, usize)>>) -> AffinityRequest {
    match group_counts {
        Some(counts) if resolve(core_id.id as int, counts) is Some => {
            let (group, local) = resolve(core_id.id as int, counts)->0;
            AffinityRequest::GroupAffinity { group, mask: 1usize << local }
        },
        _ => if core_id.id < usize::BITS {
            AffinityRequest::ThreadAffinityMask { mask: 1usize << core_id.id }
        } else {
            AffinityRequest::Unsupported
        },
    }
}

/// The groups and their processor counts, as a sequence.
pub open spec fn groups_view(group_counts: Option<Vec<(u16, usize)>>) -> Option<Seq<(u16, usize)>> {
    match group_counts {
        Some(counts) => Some(counts@),
        None => None,
    }
}

/// The within-group index that a core resolves to fits in a processor mask.
pub open spec fn local_index_fits(core_id: CoreId, group_counts: Option<Seq<(u16, usize)>>) -> bool {
    match group_counts {
        Some(counts) => match resolve(core_id.id as int, counts) {
            Some((_, local)) => local < usize::BITS,
            None => true,
        },
        None => true,
    }
}

/// Decides how to pin the current thread to `core_id`, given the processor
/// groups with their active processor counts (`None` when the system reports
/// no group).
pub fn affinity_request(core_id: CoreId, group_counts: Option<Vec<(u16, usize)>>) -> (req: AffinityRequest)
    requires
        local_index_fits(core_id, groups_view(group_counts)),
    ensures
        req == affinity_request_spec(core_id, groups_view(group_counts)),
        groups_view(group_counts) matches Some(counts) ==> forall|k: int|
            0 <= k < counts.len() && #[trigger] processors_before(counts, k) <= core_id.id
                < processors_before(counts, k) + counts[k].1
                ==> req == (AffinityRequest::GroupAffinity {
                    group: counts[k].0,
                    mask: 1usize << ((core_id.id - processors_before(counts, k)) as usize),
                }),
        (group_counts is None || (groups_view(group_counts) matches Some(counts) && core_id.id >= total_count(counts)))
            ==> req == (if core_id.id < usize::BITS {
                AffinityRequest::ThreadAffinityMask { mask: 1usize << core_id.id }
            } else {
                AffinityRequest::Unsupported
            }),
{
    proof {
        if let Some(counts) = groups_view(group_counts) {
            assert forall|k: int|
                0 <= k < counts.len() && #[trigger] processors_before(counts, k) <= core_id.id
                    < processors_before(counts, k) + counts[k].1
                implies affinity_request_spec(core_id, groups_view(group_counts))
                    == (AffinityRequest::GroupAffinity {
                        group: counts[k].0,
                        mask: 1usize << ((core_id.id - processors_before(counts, k)) as usize),
                    }) by {
                pinned_within_group(core_id, counts, k, (core_id.id - processors_before(counts, k)) as usize);
            }
            if core_id.id >= total_count(counts) {
                resolve_defined_below_total(core_id.id as int, counts);
            }
        }
    }
    if let Some(counts) = group_counts {
        if let Some((group, local_index)) = resolve_group_and_local_index(core_id.id, counts.as_slice()) {
            return AffinityRequest::GroupAffinity { group, mask: 1usize << local_index };
        }
    }
    if core_id.id < usize::BITS as usize {
        let mask = 1usize << core_id.id;
        return AffinityRequest::ThreadAffinityMask { mask };
    }
    AffinityRequest::Unsupported
}

proof fn total_count_last(group_counts: Seq<(u16, usize)>)
    requires
        group_counts.len() > 0,
    ensures
        total_count(group_counts) == total_count(group_counts.drop_last()) + group_counts.last().1,
    decreases group_counts.len(),
{
    if group_counts.len() > 1 {
        let rest = group_counts.drop_first();
        total_count_last(rest);
        assert(rest.drop_last() =~= group_counts.drop_last().drop_first());
    } else {
        assert(group_counts.drop_last() =~= Seq::<(u16, usize)>::empty());
        assert(group_counts.drop_first() =~= Seq::<(u16, usize)>::empty());
    }
}

proof fn sum_counts_is_total_count(counts: Seq<u32>, group_counts: Seq<(u16, usize)>)
    requires
        counts.len() == group_counts.len(),
        forall|i: int| 0 <= i < counts.len() ==> #[trigger] group_counts[i].1 == counts[i],
    ensures
        sum_counts(counts) == total_count(group_counts),
    decreases counts.len(),
{
    if counts.len() > 0 {
        total_count_last(group_counts);
        let n = counts.len() - 1;
        assert forall|i: int| 0 <= i < n implies #[trigger] group_counts.drop_last()[i].1 == counts.drop_last()[i] by {
            assert(group_counts[i].1 == counts[i]);
        }
        sum_counts_is_total_count(counts.drop_last(), group_counts.drop_last());
        assert(group_counts[n].1 == counts[n]);
    }
}

/// Every core that `get_core_ids` reports from the active processor counts of
/// the groups is pinned within its own processor group by `affinity_request`,
/// when it is handed the same groups with the same counts.
pub proof fn listed_cores_pin_within_their_group(counts: Seq<u32>, group_counts: Seq<(u16, usize)>, core_id: CoreId)
    requires
        counts.len() == group_counts.len(),
        forall|i: int| 0 <= i < counts.len() ==> #[trigger] group_counts[i].1 == counts[i],
        core_id.id < sum_counts(counts),
    ensures
        affinity_request_spec(core_id, Some(group_counts)) is GroupAffinity,
        resolve(core_id.id as int, group_counts) is Some,
{
    sum_counts_is_total_count(counts, group_counts);
    resolve_defined_below_total(core_id.id as int, group_counts);
}

/// The processor with index `local` in group number `k` is pinned to within
/// that group: the request names the group, and its mask has exactly the bit
/// of `local`, the index within the group, set.
pub proof fn pinned_within_group(core_id: CoreId, group_counts: Seq<(u16, usize)>, k: int, local: usize)
    requires
        0 <= k < group_counts.len(),
        local < group_counts[k].1,
        core_id.id == processors_before(group_counts, k) + local,
    ensures
        affinity_request_spec(core_id, Some(group_counts))
            == (AffinityRequest::GroupAffinity { group: group_counts[k].0, mask: 1usize << local }),
{
    resolve_inverts_global_index(group_counts, k, local);
}

} // verus!
