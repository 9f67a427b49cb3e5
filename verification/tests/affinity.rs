use core_affinity::platform::linux;
use core_affinity::platform::macos;
use core_affinity::platform::netbsd;
use core_affinity::platform::stub;
use core_affinity::platform::windows;
use core_affinity::platform::windows::resolve_group_and_local_index;
use core_affinity::platform::windows::AffinityRequest;
use core_affinity::{core_ids_to_result, set_for_current_to_result, AffinityError, CoreId};

fn ids(list: &[usize]) -> Vec<CoreId> {
    list.iter().map(|&id| CoreId { id }).collect()
}

#[test]
fn test_core_ids_to_result_success() {
    let ids = vec![CoreId { id: 0 }];
    let res = core_ids_to_result(Some(ids.clone()));
    assert_eq!(res, Ok(ids));
}

#[test]
fn test_core_ids_to_result_error() {
    let res = core_ids_to_result(None);
    assert_eq!(res, Err(AffinityError::GetCoreIdsFailed));
}

#[test]
fn test_set_for_current_to_result_success() {
    let core_id = CoreId { id: 3 };
    let res = set_for_current_to_result(core_id, true);
    assert_eq!(res, Ok(()));
}

#[test]
fn test_set_for_current_to_result_error() {
    let core_id = CoreId { id: 7 };
    let res = set_for_current_to_result(core_id, false);
    assert_eq!(res, Err(AffinityError::SetForCurrentFailed { core_id: 7 }));
}

#[test]
fn test_resolve_group_and_local_index_single_group() {
    let groups = vec![(0u16, 8usize)];
    assert_eq!(resolve_group_and_local_index(0, &groups), Some((0, 0)));
    assert_eq!(resolve_group_and_local_index(7, &groups), Some((0, 7)));
    assert_eq!(resolve_group_and_local_index(8, &groups), None);
}

#[test]
fn test_resolve_group_and_local_index_multi_group() {
    let groups = vec![(0u16, 4usize), (1u16, 4usize), (2u16, 2usize)];
    assert_eq!(resolve_group_and_local_index(0, &groups), Some((0, 0)));
    assert_eq!(resolve_group_and_local_index(3, &groups), Some((0, 3)));
    assert_eq!(resolve_group_and_local_index(4, &groups), Some((1, 0)));
    assert_eq!(resolve_group_and_local_index(7, &groups), Some((1, 3)));
    assert_eq!(resolve_group_and_local_index(8, &groups), Some((2, 0)));
    assert_eq!(resolve_group_and_local_index(9, &groups), Some((2, 1)));
    assert_eq!(resolve_group_and_local_index(10, &groups), None);
}

#[test]
fn test_macos_get_core_ids() {
    match macos::get_core_ids() {
        Some(set) => {
            assert_eq!(set.len(), num_cpus::get());
        }
        None => {
            panic!("macos::get_core_ids() returned None");
        }
    }
}

#[test]
fn macos_core_ids_count_up_from_zero() {
    let set = macos::get_core_ids().unwrap();
    assert!(!set.is_empty());
    assert_eq!(set, ids(&(0..num_cpus::get()).collect::<Vec<_>>()));
}

#[test]
fn macos_affinity_tag_truncates_to_32_bits() {
    assert_eq!(macos::affinity_tag(CoreId { id: 5 }), 5);
    assert_eq!(macos::affinity_tag(CoreId { id: 0x1_0000_0003 }), 3);
    assert_eq!(macos::affinity_tag(CoreId { id: 0xffff_ffff }), -1);
}

#[test]
fn stub_reports_nothing_and_never_pins() {
    assert_eq!(stub::get_core_ids(), None);
    assert!(!stub::set_for_current(CoreId { id: 0 }));
    assert!(!stub::set_for_current(CoreId { id: 12 }));
}

#[test]
fn linux_core_ids_are_the_set_bits_in_order() {
    let mask = vec![false, true, true, false, false, true, false];
    assert_eq!(linux::get_core_ids(Some(mask)), Some(ids(&[1, 2, 5])));
    assert_eq!(linux::get_core_ids(Some(vec![false; 8])), Some(vec![]));
    assert_eq!(linux::get_core_ids(Some(vec![true; 3])), Some(ids(&[0, 1, 2])));
}

#[test]
fn linux_unreadable_mask_gives_none() {
    assert_eq!(linux::get_core_ids(None), None);
}

#[test]
fn linux_cpu_set_size_from_setsize() {
    assert_eq!(linux::cpu_set_size(1024), 1024);
    assert_eq!(linux::cpu_set_size(0), 0);
    assert_eq!(linux::cpu_set_size(-3), 0);
}

#[test]
fn linux_single_core_mask_holds_only_that_core() {
    let mask = linux::single_core_mask(CoreId { id: 3 }, 6);
    assert_eq!(mask, vec![false, false, false, true, false, false]);
    assert_eq!(linux::get_core_ids(Some(mask)), Some(ids(&[3])));
    let mask = linux::single_core_mask(CoreId { id: 1023 }, 1024);
    assert_eq!(linux::get_core_ids(Some(mask)), Some(ids(&[1023])));
}

#[test]
fn netbsd_keeps_only_cpus_in_the_set() {
    let statuses = vec![1, 0, -1, 1, -1];
    assert_eq!(netbsd::get_core_ids(Some(statuses)), Some(ids(&[0, 3])));
    assert_eq!(netbsd::get_core_ids(Some(vec![1, 0])), Some(ids(&[0])));
    assert_eq!(netbsd::get_core_ids(Some(vec![])), Some(vec![]));
    assert_eq!(netbsd::get_core_ids(None), None);
}

#[test]
fn windows_group_list_counts_up_from_zero() {
    assert_eq!(windows::group_list(0), None);
    assert_eq!(windows::group_list(3), Some(vec![0, 1, 2]));
}

#[test]
fn windows_total_active_count_sums_groups() {
    assert_eq!(windows::total_active_count(&vec![64, 64, 8]), 136);
    assert_eq!(windows::total_active_count(&vec![]), 0);
}

#[test]
fn windows_cpu_count_saturates() {
    assert_eq!(windows::cpu_count_to_u32(12), 12);
    assert_eq!(windows::cpu_count_to_u32(u32::MAX as usize), u32::MAX);
    if usize::BITS > 32 {
        assert_eq!(windows::cpu_count_to_u32(u32::MAX as usize + 5), u32::MAX);
    }
}

#[test]
fn windows_core_ids_from_group_counts() {
    assert_eq!(windows::get_core_ids(Some(vec![4, 4, 2])), Some(ids(&(0..10).collect::<Vec<_>>())));
}

#[test]
fn windows_core_ids_fall_back_to_num_cpus() {
    let expected = ids(&(0..num_cpus::get()).collect::<Vec<_>>());
    assert_eq!(windows::get_core_ids(None), Some(expected.clone()));
    assert_eq!(windows::get_core_ids(Some(vec![0, 0])), Some(expected.clone()));
    assert_eq!(windows::get_core_ids(Some(vec![])), Some(expected));
}

#[test]
fn windows_request_within_group() {
    let groups = vec![(0u16, 4usize), (1u16, 4usize), (2u16, 2usize)];
    assert_eq!(
        windows::affinity_request(CoreId { id: 6 }, Some(groups.clone())),
        AffinityRequest::GroupAffinity { group: 1, mask: 0b100 }
    );
    assert_eq!(
        windows::affinity_request(CoreId { id: 0 }, Some(groups.clone())),
        AffinityRequest::GroupAffinity { group: 0, mask: 1 }
    );
    assert_eq!(
        windows::affinity_request(CoreId { id: 12 }, Some(groups)),
        AffinityRequest::ThreadAffinityMask { mask: 1 << 12 }
    );
}

#[test]
fn windows_request_without_groups() {
    assert_eq!(
        windows::affinity_request(CoreId { id: 5 }, None),
        AffinityRequest::ThreadAffinityMask { mask: 0b100000 }
    );
    let bits = usize::BITS as usize;
    assert_eq!(
        windows::affinity_request(CoreId { id: bits - 1 }, None),
        AffinityRequest::ThreadAffinityMask { mask: 1 << (bits - 1) }
    );
    assert_eq!(windows::affinity_request(CoreId { id: bits }, None), AffinityRequest::Unsupported);
    assert_eq!(windows::affinity_request(CoreId { id: bits + 7 }, Some(vec![])), AffinityRequest::Unsupported);
}

#[test]
fn windows_listed_cores_resolve_within_their_group() {
    let counts = vec![3u32, 0, 5];
    let groups: Vec<(u16, usize)> = vec![(0, 3), (1, 0), (2, 5)];
    let listed = windows::get_core_ids(Some(counts)).unwrap();
    assert_eq!(listed.len(), 8);
    for core in listed {
        match windows::affinity_request(core, Some(groups.clone())) {
            AffinityRequest::GroupAffinity { group, mask } => {
                let (g, local) = resolve_group_and_local_index(core.id, &groups).unwrap();
                assert_eq!(group, g);
                assert_eq!(mask, 1 << local);
                assert_ne!(group, 1);
            }
            other => panic!("unexpected request {:?}", other),
        }
    }
}

#[test]
fn error_messages() {
    assert_eq!(AffinityError::GetCoreIdsFailed.message(), "failed to retrieve available core IDs");
    assert_eq!(
        AffinityError::SetForCurrentFailed { core_id: 7 }.message(),
        "failed to set affinity for core ID 7"
    );
    assert_eq!(
        AffinityError::SetForCurrentFailed { core_id: 0 }.message(),
        "failed to set affinity for core ID 0"
    );
    assert_eq!(
        AffinityError::SetForCurrentFailed { core_id: 1024 }.message(),
        "failed to set affinity for core ID 1024"
    );
    assert_eq!(
        AffinityError::SetForCurrentFailed { core_id: usize::MAX }.message(),
        format!("failed to set affinity for core ID {}", usize::MAX)
    );
}

#[test]
fn linux_no_mask_for_core_past_the_set() {
    assert_eq!(linux::affinity_mask_for(CoreId { id: 4 }, 4), None);
    assert_eq!(linux::affinity_mask_for(CoreId { id: 5000 }, 1024), None);
    assert_eq!(
        linux::affinity_mask_for(CoreId { id: 2 }, 4),
        Some(vec![false, false, true, false])
    );
}

#[test]
fn windows_core_count_from_groups_or_cpus() {
    assert_eq!(windows::core_count(&Some(vec![4, 4, 2]), 3), 10);
    assert_eq!(windows::core_count(&Some(vec![0, 0]), 6), 6);
    assert_eq!(windows::core_count(&Some(vec![]), 6), 6);
    assert_eq!(windows::core_count(&None, 12), 12);
    if usize::BITS > 32 {
        assert_eq!(windows::core_count(&None, u32::MAX as usize + 1), u32::MAX);
    }
}
