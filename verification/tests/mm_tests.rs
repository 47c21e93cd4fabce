use kernel_chirho::page_map::{map_page_start_chirho, map_page_step_chirho, MapPageActionChirho, MapPageEventChirho};
use kernel_chirho::cow_fault::{cow_fault_start_chirho, cow_fault_step_chirho, CowFaultEventChirho, CowFaultStepActionChirho};
use kernel_chirho::pagetable::{retire_entry_chirho, retire_root_check_chirho, PageTableRetireErrorChirho, RetireEntryChirho};
use kernel_chirho::pagetable::{clone_entry_chirho, clone_leaf_entry_chirho, clone_leaf_precheck_chirho, CloneEntryChirho, PageTableCloneErrorChirho};
use kernel_chirho::mmap::{prot_to_page_flags_chirho, PROT_EXEC_CHIRHO};
use kernel_chirho::address_space::nth_usable_frame_chirho;
use kernel_chirho::address_space::{
    managed_frame_ranges_chirho, AddressSpaceCountersChirho, AddressSpaceRetireStatsChirho, FrameRangeChirho,
    HandleReleaseChirho, MemoryRegionChirho,
};
use kernel_chirho::allocator::{
    alloc_error_report_chirho, alloc_route_chirho, in_large_pool_chirho, large_pool_reserve_chirho, AllocRouteChirho,
    AllocationClassChirho, LARGE_POOL_SIZE_CHIRHO, LARGE_POOL_START_CHIRHO,
};
use kernel_chirho::mmap::{
    align_up_page_chirho, classify_mapping_chirho, MappingKindChirho, MmChirho, MmapStepChirho, VmaChirho, MAP_ANONYMOUS_CHIRHO,
    MAP_FIXED_CHIRHO, MAP_PRIVATE_CHIRHO, PROT_NONE_CHIRHO, PROT_READ_CHIRHO, PROT_WRITE_CHIRHO,
};
use kernel_chirho::module::sys_finit_module_chirho;
use kernel_chirho::pagetable::{
    cow_fault_action_chirho, cow_resolved_entry_chirho, demand_page_finish_chirho, demand_page_leaf_chirho,
    map_descend_chirho, map_leaf_plan_chirho, map_page_precheck_chirho, map_rollback_levels_chirho, mark_cow_leaf_chirho,
    pt_entry_addr_chirho, pt_entry_is_huge_chirho, pt_entry_is_present_chirho, pt_index_chirho, unmap_outcome_chirho,
    unmap_precheck_chirho, user_path_fixup_chirho, virt_to_phys_step_chirho, CowFaultActionChirho, DemandPageMapErrorChirho,
    FrameAllocAttemptChirho, LeafReleaseChirho, MapDescendChirho, PageMapErrorChirho, PagingStateChirho,
    UserPageUnmapOutcomeChirho, VirtWalkStepChirho,
};

#[test]
fn test_align_up_and_classify() {
    assert_eq!(align_up_page_chirho(0), 0);
    assert_eq!(align_up_page_chirho(1), 4096);
    assert_eq!(align_up_page_chirho(4096), 4096);
    assert_eq!(align_up_page_chirho(4097), 8192);
    assert_eq!(classify_mapping_chirho(MAP_ANONYMOUS_CHIRHO, 3, true), MappingKindChirho::AnonymousChirho);
    assert_eq!(classify_mapping_chirho(0, -1, true), MappingKindChirho::AnonymousChirho);
    assert_eq!(classify_mapping_chirho(0, 3, true), MappingKindChirho::FramebufferChirho);
    assert_eq!(classify_mapping_chirho(0, 3, false), MappingKindChirho::FileBackedChirho);
}

#[test]
fn test_mmap_anonymous_then_commit_and_munmap() {
    let mut mm = MmChirho::new_chirho();
    assert_eq!(mm.mmap_chirho(0, 0, PROT_READ_CHIRHO, MAP_PRIVATE_CHIRHO, MappingKindChirho::AnonymousChirho, false).unwrap_err(), -22);
    assert_eq!(
        mm.mmap_chirho(0x1001, 10, PROT_READ_CHIRHO, MAP_FIXED_CHIRHO, MappingKindChirho::AnonymousChirho, false).unwrap_err(),
        -22
    );
    let flags = MAP_PRIVATE_CHIRHO | MAP_ANONYMOUS_CHIRHO;
    let step = mm
        .mmap_chirho(0, 5000, PROT_READ_CHIRHO | PROT_WRITE_CHIRHO, flags, MappingKindChirho::AnonymousChirho, false)
        .unwrap();
    let (addr, len) = match step {
        MmapStepChirho::MapChirho { addr_chirho, len_chirho, page_prot_chirho, kind_chirho, unmap_first_chirho } => {
            assert_eq!(page_prot_chirho, PROT_READ_CHIRHO | PROT_WRITE_CHIRHO);
            assert_eq!(kind_chirho, MappingKindChirho::AnonymousChirho);
            assert!(!unmap_first_chirho);
            (addr_chirho, len_chirho)
        },
        MmapStepChirho::DoneChirho(a) => panic!("unexpected done {:#x}", a),
    };
    assert_eq!(len, 8192);
    assert_eq!(addr, 0x7F00_0000_0000 - 8192 - 65536);
    assert_eq!(addr % 4096, 0);
    mm.mmap_commit_chirho(addr, len, PROT_READ_CHIRHO | PROT_WRITE_CHIRHO, flags);
    assert!(mm.is_in_vma_chirho(addr));
    assert!(mm.is_in_vma_chirho(addr + 8191));
    assert!(!mm.is_in_vma_chirho(addr + 8192));
    assert!(!mm.is_region_free_chirho(addr, 4096));
    assert!(mm.is_region_mapped_chirho(addr, 8192));

    assert_eq!(mm.munmap_chirho(addr + 1, 4096), Err(-22));
    assert_eq!(mm.munmap_chirho(addr, 0), Err(-22));
    assert_eq!(mm.munmap_chirho(addr, 4096), Ok(()));
    assert!(!mm.is_in_vma_chirho(addr));
    assert!(mm.is_in_vma_chirho(addr + 4096));
}

#[test]
fn test_mprotect_splits_and_prot_none_mapping() {
    let mut mm = MmChirho::new_chirho();
    mm.insert_vma_chirho(VmaChirho { start_chirho: 0x10000, end_chirho: 0x14000, prot_chirho: PROT_READ_CHIRHO, flags_chirho: 0 });
    assert_eq!(mm.mprotect_chirho(0x11000, 4096, PROT_NONE_CHIRHO), Ok(()));
    assert!(mm.is_prot_none_chirho(0x11000));
    assert!(!mm.is_prot_none_chirho(0x10000));
    assert!(!mm.is_prot_none_chirho(0x12000));
    assert!(mm.is_in_vma_chirho(0x13FFF));
    let v = VmaChirho { start_chirho: 0x1000, end_chirho: 0x3000, prot_chirho: 0, flags_chirho: 0 };
    assert_eq!(v.size_chirho(), 0x2000);
    assert!(v.overlaps_chirho(0x2000, 0x2000));
    assert!(!v.overlaps_chirho(0x3000, 0x1000));
    assert!(v.contains_range_chirho(0x1000, 0x2000));
    let step = mm
        .mmap_chirho(0x40000, 4096, PROT_NONE_CHIRHO, MAP_FIXED_CHIRHO | MAP_ANONYMOUS_CHIRHO, MappingKindChirho::AnonymousChirho, false)
        .unwrap();
    match step {
        MmapStepChirho::DoneChirho(a) => assert_eq!(a, 0x40000),
        MmapStepChirho::MapChirho { .. } => panic!("PROT_NONE maps no pages"),
    }
    assert!(mm.is_prot_none_chirho(0x40000));
}

#[test]
fn test_allocation_classes_and_routes() {
    assert_eq!(AllocationClassChirho::classify_chirho(100), AllocationClassChirho::NormalChirho);
    assert_eq!(AllocationClassChirho::classify_chirho(65536), AllocationClassChirho::LargeChirho);
    assert_eq!(AllocationClassChirho::classify_chirho(1048576), AllocationClassChirho::HugeChirho);
    assert_eq!(AllocationClassChirho::classify_chirho(134217728), AllocationClassChirho::HugeChirho);
    assert_eq!(AllocationClassChirho::classify_chirho(134217729), AllocationClassChirho::OversizedChirho);
    let mut count: u64 = 0;
    assert_eq!(alloc_route_chirho(64, &mut count), AllocRouteChirho::HeapChirho);
    assert_eq!(count, 0);
    assert_eq!(alloc_route_chirho(70000, &mut count), AllocRouteChirho::HeapChirho);
    assert_eq!(alloc_route_chirho(4 << 20, &mut count), AllocRouteChirho::LargePoolChirho);
    assert_eq!(count, 2);
    assert_eq!(alloc_route_chirho(200 << 20, &mut count), AllocRouteChirho::RejectChirho);
    assert_eq!(count, 2);
}

#[test]
fn test_large_pool_bump() {
    let start = LARGE_POOL_START_CHIRHO;
    assert_eq!(large_pool_reserve_chirho(start, 5000), Some((start, start + 8192, 2)));
    assert_eq!(large_pool_reserve_chirho(start + LARGE_POOL_SIZE_CHIRHO - 4096, 5000), None);
    assert!(in_large_pool_chirho(start));
    assert!(!in_large_pool_chirho(start + LARGE_POOL_SIZE_CHIRHO));
}

#[test]
fn test_oom_report_text() {
    let stack = [0x10000100abc_u64, 5, 0x10000300000];
    let report = alloc_error_report_chirho(&stack, 4096, Some(7));
    let text = String::from_utf8(report).unwrap();
    assert_eq!(
        text,
        "\r\n[ALLOC] Stack scan: 100abc \r\n[ALLOC] OOM caller=0x0000000000000000\r\n[ALLOC] OOM: 4096 bytes\r\n\r\n[ALLOC] Killing PID 7\r\n"
    );
    let bare = String::from_utf8(alloc_error_report_chirho(&[], 0, None)).unwrap();
    assert!(bare.ends_with("[ALLOC] OOM: 0 bytes\r\n"));
}

#[test]
fn test_entry_bits() {
    let e: u64 = 0x8000_0000_1234_5067;
    assert_eq!(pt_entry_addr_chirho(e), 0x1234_5000);
    assert!(pt_entry_is_present_chirho(e));
    assert!(!pt_entry_is_huge_chirho(e));
    assert!(pt_entry_is_huge_chirho(0x83));
    assert_eq!(pt_entry_addr_chirho(pt_entry_addr_chirho(e)), pt_entry_addr_chirho(e));
    let v: u64 = 0x0000_7F12_3456_7890;
    assert_eq!(pt_index_chirho(v, 0), ((v >> 39) & 0x1FF) as usize);
    assert_eq!(pt_index_chirho(v, 3), ((v >> 12) & 0x1FF) as usize);
}

#[test]
fn test_walk_steps() {
    let v: u64 = 0x4020_3456;
    assert_eq!(virt_to_phys_step_chirho(0, v, 0), VirtWalkStepChirho::NotMappedChirho);
    assert_eq!(virt_to_phys_step_chirho(0, v, 0x5003), VirtWalkStepChirho::DescendChirho(0x5000));
    assert_eq!(virt_to_phys_step_chirho(1, v, 0x4000_0083), VirtWalkStepChirho::MappedChirho(0x4000_0000 + (v & 0x3FFF_FFFF)));
    assert_eq!(virt_to_phys_step_chirho(2, v, 0x20_0083), VirtWalkStepChirho::MappedChirho(0x20_0000 + (v & 0x1F_FFFF)));
    assert_eq!(virt_to_phys_step_chirho(3, v, 0x9000_0003), VirtWalkStepChirho::MappedChirho(0x9000_0456));
}

#[test]
fn test_cow_mark_and_resolve() {
    let leaf: u64 = 0x1234_5000 | 0x7;
    let marked = mark_cow_leaf_chirho(leaf, Some(2)).unwrap();
    assert_eq!(marked, 0x1234_5000 | 0x5 | 0x200);
    assert_eq!(mark_cow_leaf_chirho(leaf, None), None);
    assert_eq!(mark_cow_leaf_chirho(leaf, Some(0)), None);
    assert_eq!(mark_cow_leaf_chirho(0x1234_5005, Some(1)), None);
    assert_eq!(cow_fault_action_chirho(leaf, Some(1)), CowFaultActionChirho::NotCowChirho);
    assert_eq!(cow_fault_action_chirho(marked, Some(1)), CowFaultActionChirho::ReuseChirho(leaf));
    assert_eq!(cow_fault_action_chirho(marked, Some(3)), CowFaultActionChirho::CopyChirho);
    assert_eq!(cow_fault_action_chirho(marked, Some(0)), CowFaultActionChirho::NotCowChirho);
    assert_eq!(cow_fault_action_chirho(marked, None), CowFaultActionChirho::NotCowChirho);
    assert_eq!(cow_resolved_entry_chirho(marked, 0x9999_9000), 0x9999_9000 | 0x7);
}

#[test]
fn test_map_page_decisions() {
    assert_eq!(map_page_precheck_chirho(0x1001, 0x2000, 0x7), Err(PageMapErrorChirho::UnalignedVirtualAddressChirho));
    assert_eq!(map_page_precheck_chirho(0x1000, 0x2001, 0x7), Err(PageMapErrorChirho::UnalignedPhysicalAddressChirho));
    assert_eq!(map_page_precheck_chirho(0xFFFF_8000_0000_0000, 0x2000, 0x7), Err(PageMapErrorChirho::UserAddressOutOfRangeChirho));
    assert_eq!(map_page_precheck_chirho(0xFFFF_8000_0000_0000, 0x2000, 0x3), Ok(0x3));
    assert_eq!(map_page_precheck_chirho(0x1000, 0x2000, 0x7), Ok(0x7));
    assert_eq!(map_descend_chirho(0, 0), MapDescendChirho::AllocateChirho);
    assert_eq!(map_descend_chirho(1, 0x83), MapDescendChirho::FailChirho(PageMapErrorChirho::HugeIntermediateChirho));
    assert_eq!(map_descend_chirho(0, 0x5002), MapDescendChirho::FailChirho(PageMapErrorChirho::NonPresentIntermediateChirho));
    assert_eq!(map_descend_chirho(2, 0x6007), MapDescendChirho::DescendChirho(0x6000));
    assert_eq!(map_leaf_plan_chirho(0x8005, 0x8000, 0x3), Err(PageMapErrorChirho::OwnershipClassChangeChirho));
    let plan = map_leaf_plan_chirho(0x8005, 0x9000, 0x7).unwrap();
    assert!(plan.old_owned_chirho && plan.new_owned_chirho);
    assert_eq!(plan.new_entry_chirho, 0x9007);
    assert_eq!(user_path_fixup_chirho(0x5003), Some(0x5007));
    assert_eq!(user_path_fixup_chirho(0x5007), None);
    assert_eq!(map_rollback_levels_chirho([true, false, true]), vec![2, 0]);
    assert!(map_rollback_levels_chirho([false, false, false]).is_empty());
}

#[test]
fn test_demand_page_and_unmap_outcomes() {
    assert_eq!(demand_page_leaf_chirho(FrameAllocAttemptChirho::BusyChirho), Err(DemandPageMapErrorChirho::AllocatorBusyChirho));
    assert_eq!(demand_page_leaf_chirho(FrameAllocAttemptChirho::FrameChirho(0x7000)), Ok(0x7000));
    assert_eq!(demand_page_finish_chirho(0x7000, false), Err(DemandPageMapErrorChirho::PageTableFrameExhaustedChirho));
    assert_eq!(demand_page_finish_chirho(0x7000, true), Ok(0x7000));
    assert_eq!(unmap_precheck_chirho(None), Some(UserPageUnmapOutcomeChirho::NotMappedChirho));
    assert_eq!(unmap_precheck_chirho(Some(0x5003)), Some(UserPageUnmapOutcomeChirho::NotUserMappingChirho));
    assert_eq!(unmap_precheck_chirho(Some(0x5007)), None);
    assert_eq!(unmap_outcome_chirho(LeafReleaseChirho::LastReferenceChirho), UserPageUnmapOutcomeChirho::FrameFreedChirho);
    assert_eq!(
        unmap_outcome_chirho(LeafReleaseChirho::StillReferencedChirho { references_chirho: 2 }),
        UserPageUnmapOutcomeChirho::StillReferencedChirho { references_chirho: 2 }
    );
}

#[test]
fn test_paging_state_set_then_get() {
    let mut p = PagingStateChirho::new_chirho();
    assert_eq!(p.phys_mem_offset_chirho(), 0);
    p.set_phys_mem_offset_chirho(0x1_0000_0000);
    p.set_module_arena_pml4_entry_chirho(0xABC0_0003);
    p.set_module_arena_pdpt_phys_chirho(0x5000);
    p.save_boot_pml4_chirho(0x1000);
    assert_eq!(p.phys_mem_offset_chirho(), 0x1_0000_0000);
    assert_eq!(p.module_arena_pml4_entry_chirho(), 0xABC0_0003);
    assert_eq!(p.module_arena_pdpt_phys_chirho(), 0x5000);
    assert_eq!(p.get_boot_pml4_chirho(), 0x1000);
}

#[test]
fn test_managed_frame_ranges() {
    let regions = [
        MemoryRegionChirho { start_chirho: 0x1001, end_chirho: 0x9000, usable_chirho: true },
        MemoryRegionChirho { start_chirho: 0x10000, end_chirho: 0x20000, usable_chirho: false },
        MemoryRegionChirho { start_chirho: 0x30000, end_chirho: 0x30FFF, usable_chirho: true },
        MemoryRegionChirho { start_chirho: u64::MAX - 10, end_chirho: u64::MAX, usable_chirho: true },
    ];
    assert_eq!(
        managed_frame_ranges_chirho(&regions),
        vec![FrameRangeChirho { start_frame_chirho: 2, end_frame_exclusive_chirho: 9 }]
    );
}

#[test]
fn test_counters_and_retire_stats() {
    let mut c = AddressSpaceCountersChirho::new_chirho();
    c.record_handle_drop_chirho(HandleReleaseChirho::LastOwnerChirho);
    c.record_handle_drop_chirho(HandleReleaseChirho::OwnersRemainChirho);
    c.record_handle_drop_chirho(HandleReleaseChirho::RefcountFailureChirho);
    c.record_handle_drop_chirho(HandleReleaseChirho::LastOwnerChirho);
    assert_eq!(c.unretired_last_handle_drops_chirho(), 2);
    assert_eq!(c.handle_refcount_failures_chirho(), 1);
    let mut s = AddressSpaceRetireStatsChirho::default();
    s.record_leaf_chirho(true, true);
    s.record_leaf_chirho(false, false);
    s.record_leaf_chirho(false, true);
    s.record_table_freed_chirho();
    assert_eq!(s.leaf_mappings_released_chirho, 3);
    assert_eq!(s.leaf_frames_freed_chirho, 1);
    assert_eq!(s.unmanaged_leaf_mappings_cleared_chirho, 1);
    assert_eq!(s.table_frames_freed_chirho, 1);
}

#[test]
fn test_finit_module_buffer() {
    assert_eq!(sys_finit_module_chirho(vec![1, 2, 3], 0), Err(-38));
    assert_eq!(sys_finit_module_chirho(vec![1, 2, 3], -5), Err(-38));
    assert_eq!(sys_finit_module_chirho(vec![1, 2, 3, 4], 2), Ok(vec![1, 2]));
    assert_eq!(sys_finit_module_chirho(vec![1, 2], 9), Ok(vec![1, 2]));
}

#[test]
fn test_prot_to_page_flags() {
    assert_eq!(prot_to_page_flags_chirho(PROT_NONE_CHIRHO), 0x8000_0000_0000_0004);
    assert_eq!(prot_to_page_flags_chirho(PROT_READ_CHIRHO), 0x8000_0000_0000_0005);
    assert_eq!(prot_to_page_flags_chirho(PROT_READ_CHIRHO | PROT_WRITE_CHIRHO), 0x8000_0000_0000_0007);
    assert_eq!(prot_to_page_flags_chirho(PROT_READ_CHIRHO | PROT_EXEC_CHIRHO), 0x5);
    assert_eq!(prot_to_page_flags_chirho(PROT_READ_CHIRHO | PROT_WRITE_CHIRHO | PROT_EXEC_CHIRHO), 0x7);
}

#[test]
fn test_nth_usable_frame() {
    let regions = [
        MemoryRegionChirho { start_chirho: 0x1001, end_chirho: 0x4000, usable_chirho: true },
        MemoryRegionChirho { start_chirho: 0x10000, end_chirho: 0x20000, usable_chirho: false },
        MemoryRegionChirho { start_chirho: 0x30000, end_chirho: 0x31001, usable_chirho: true },
    ];
    assert_eq!(nth_usable_frame_chirho(&regions, 0), Some(0x2000));
    assert_eq!(nth_usable_frame_chirho(&regions, 1), Some(0x3000));
    assert_eq!(nth_usable_frame_chirho(&regions, 2), Some(0x30000));
    assert_eq!(nth_usable_frame_chirho(&regions, 3), Some(0x31000));
    assert_eq!(nth_usable_frame_chirho(&regions, 4), None);
}

#[test]
fn test_clone_decisions() {
    assert_eq!(clone_entry_chirho(4, 0), CloneEntryChirho::SkipChirho);
    assert_eq!(clone_entry_chirho(4, 0x5003), CloneEntryChirho::CopyChirho(0x5003));
    assert_eq!(
        clone_entry_chirho(2, 0x20_0087),
        CloneEntryChirho::FailChirho(PageTableCloneErrorChirho::HugeUserMappingChirho { physical_address_chirho: 0x20_0000 })
    );
    assert_eq!(clone_entry_chirho(1, 0x9007), CloneEntryChirho::LeafChirho);
    assert_eq!(clone_entry_chirho(3, 0x6007), CloneEntryChirho::DescendChirho { child_chirho: 0x6000, flags_chirho: 0x7 });
    assert_eq!(clone_leaf_precheck_chirho(0x9007, Some(0)), Err(PageTableCloneErrorChirho::UnregisteredLeafChirho { physical_address_chirho: 0x9000 }));
    assert_eq!(clone_leaf_precheck_chirho(0x9007, Some(1)), Ok(()));
    assert_eq!(clone_leaf_precheck_chirho(0x9003, Some(0)), Ok(()));
    assert_eq!(clone_leaf_entry_chirho(0x9007, true), 0x9205);
    assert_eq!(clone_leaf_entry_chirho(0x9007, false), 0x9007);
    assert_eq!(clone_leaf_entry_chirho(0x9005, true), 0x9005);
    assert_eq!(clone_leaf_entry_chirho(0x9003, true), 0x9003);
}

#[test]
fn test_retire_decisions() {
    assert_eq!(retire_root_check_chirho(0x1000, 0x1000, 0x2000, true), Err(PageTableRetireErrorChirho::BootRootChirho));
    assert_eq!(retire_root_check_chirho(0x2000, 0x1000, 0x2000, true), Err(PageTableRetireErrorChirho::ActiveRootChirho));
    assert_eq!(
        retire_root_check_chirho(0x3000, 0x1000, 0x2000, false),
        Err(PageTableRetireErrorChirho::UnmanagedTableFrameChirho { physical_address_chirho: 0x3000 })
    );
    assert_eq!(retire_root_check_chirho(0x3000, 0x1000, 0x2000, true), Ok(()));
    assert_eq!(retire_entry_chirho(3, 0x5003), RetireEntryChirho::SkipChirho);
    assert_eq!(retire_entry_chirho(2, 0x20_0087), RetireEntryChirho::FailChirho(PageTableRetireErrorChirho::HugeUserMappingChirho { physical_address_chirho: 0x20_0000 }));
    assert_eq!(retire_entry_chirho(1, 0x9087), RetireEntryChirho::LeafChirho(0x9000));
    assert_eq!(retire_entry_chirho(3, 0x6007), RetireEntryChirho::TableChirho(0x6000));
}

#[test]
fn test_mprotect_unmapped_range_is_enomem() {
    let mut mm = MmChirho::new_chirho();
    mm.insert_vma_chirho(VmaChirho { start_chirho: 0x10000, end_chirho: 0x12000, prot_chirho: PROT_READ_CHIRHO, flags_chirho: 0 });
    assert_eq!(mm.mprotect_chirho(0x11000, 8192, PROT_NONE_CHIRHO), Err(-12));
    assert_eq!(mm.mprotect_chirho(0x20000, 1, PROT_NONE_CHIRHO), Err(-12));
    assert!(!mm.is_prot_none_chirho(0x11000));
    assert_eq!(mm.mprotect_chirho(0x11001, 4096, PROT_NONE_CHIRHO), Err(-22));
    assert_eq!(mm.mprotect_chirho(0x10000, 8192, PROT_NONE_CHIRHO), Ok(()));
    assert!(mm.is_prot_none_chirho(0x11000));
}

#[test]
fn test_allocate_mmap_addr_skips_taken_ranges() {
    let mut mm = MmChirho::new_chirho();
    let first = 0x7F00_0000_0000u64 - 4096 - 65536;
    mm.insert_vma_chirho(VmaChirho { start_chirho: first, end_chirho: first + 4096, prot_chirho: PROT_READ_CHIRHO, flags_chirho: 0 });
    let a = mm.allocate_mmap_addr_chirho(4096).unwrap();
    assert_eq!(a, first - 4096);
    assert_eq!(mm.next_mmap_addr_chirho, a);
    assert!(mm.is_region_free_chirho(a, 4096));
}

#[test]
fn test_allocate_mmap_addr_gives_up_after_the_last_move() {
    let first = 0x7F00_0000_0000u64 - 4096 - 65536;
    // Sixty-four taken pages below the first candidate: the last move lands
    // on a free page.
    let mut mm = MmChirho::new_chirho();
    let mut k: u64 = 0;
    while k < 64 {
        mm.insert_vma_chirho(VmaChirho { start_chirho: first - k * 4096, end_chirho: first - k * 4096 + 4096, prot_chirho: PROT_READ_CHIRHO, flags_chirho: 0 });
        k += 1;
    }
    assert_eq!(mm.allocate_mmap_addr_chirho(4096), Ok(first - 64 * 4096));
    // One more taken page: no move is left, so there is no address.
    let mut mm = MmChirho::new_chirho();
    let mut k: u64 = 0;
    while k < 65 {
        mm.insert_vma_chirho(VmaChirho { start_chirho: first - k * 4096, end_chirho: first - k * 4096 + 4096, prot_chirho: PROT_READ_CHIRHO, flags_chirho: 0 });
        k += 1;
    }
    assert_eq!(mm.allocate_mmap_addr_chirho(4096), Err(-12));
    assert_eq!(mm.next_mmap_addr_chirho, 0x7F00_0000_0000);
}

#[test]
fn test_mapped_page_translates_through_the_walk() {
    // Table memory: the word at each physical address.
    let mut mem: std::collections::HashMap<u64, u64> = std::collections::HashMap::new();
    let tables = [0x1000u64, 0x2000, 0x3000, 0x4000];
    let virt: u64 = 0x0000_7F12_3456_7ABC;
    let flags: u64 = 0x7;
    let paddr: u64 = 0x0009_9000;
    for level in 0..3 {
        let slot = tables[level] + 8 * pt_index_chirho(virt, level) as u64;
        let entry = *mem.get(&slot).unwrap_or(&0);
        match map_descend_chirho(level, entry) {
            MapDescendChirho::AllocateChirho => {
                mem.insert(slot, kernel_chirho::pagetable::make_entry_chirho(tables[level + 1], 0x7));
            },
            other => panic!("unexpected {:?}", other),
        }
    }
    let leaf_slot = tables[3] + 8 * pt_index_chirho(virt, 3) as u64;
    let plan = map_leaf_plan_chirho(*mem.get(&leaf_slot).unwrap_or(&0), paddr, flags).unwrap();
    mem.insert(leaf_slot, plan.new_entry_chirho);
    // Translate.
    let mut table = tables[0];
    let mut result = None;
    for level in 0..4 {
        let slot = table + 8 * pt_index_chirho(virt, level) as u64;
        match virt_to_phys_step_chirho(level, virt, *mem.get(&slot).unwrap_or(&0)) {
            VirtWalkStepChirho::DescendChirho(next) => table = next,
            VirtWalkStepChirho::MappedChirho(p) => {
                result = Some(p);
                break;
            },
            VirtWalkStepChirho::NotMappedChirho => break,
        }
    }
    assert_eq!(result, Some(paddr + 0xABC));
    // An address whose walk leaves the path early is still unmapped.
    let other: u64 = 0x0000_0000_0040_0000;
    let slot0 = tables[0] + 8 * pt_index_chirho(other, 0) as u64;
    assert_eq!(virt_to_phys_step_chirho(0, other, *mem.get(&slot0).unwrap_or(&0)), VirtWalkStepChirho::NotMappedChirho);
}

#[test]
fn test_reprotected_entry_keeps_cow_read_only() {
    let prot_rw = prot_to_page_flags_chirho(PROT_READ_CHIRHO | PROT_WRITE_CHIRHO);
    assert_eq!(prot_rw, 0x8000_0000_0000_0007);
    // A copy-on-write leaf keeps its COW bit and stays read-only.
    assert_eq!(kernel_chirho::pagetable::reprotected_entry_chirho(0x5000 | 0x205, prot_rw), 0x8000_0000_0000_5205);
    // Another leaf takes the new flags on the same frame.
    assert_eq!(kernel_chirho::pagetable::reprotected_entry_chirho(0x5000 | 0x7, 0x5), 0x5005);
}

#[test]
fn test_map_page_machine_user_leaf_and_rollback() {
    let vaddr: u64 = 0x0000_0040_0000_1000;
    // A user leaf: tables made, frame retained before the leaf is written,
    // the path made user-accessible.
    let mut mem: std::collections::HashMap<(u64, u64), u64> = std::collections::HashMap::new();
    let mut next_frame: u64 = 0x10_0000;
    let mut log: Vec<MapPageActionChirho> = Vec::new();
    let mut state = map_page_start_chirho(0x1000, vaddr, 0x9000, 0x7);
    let mut event = MapPageEventChirho::StartChirho;
    let result = loop {
        let (next, action) = map_page_step_chirho(state, event);
        state = next;
        log.push(action);
        event = match action {
            MapPageActionChirho::ReadEntryChirho { table_chirho, index_chirho } =>
                MapPageEventChirho::EntryChirho(*mem.get(&(table_chirho, index_chirho)).unwrap_or(&0)),
            MapPageActionChirho::AllocateTableChirho => {
                next_frame += 0x1000;
                MapPageEventChirho::FrameChirho(Some(next_frame))
            },
            MapPageActionChirho::WriteEntryChirho { table_chirho, index_chirho, value_chirho }
            | MapPageActionChirho::PublishLeafChirho { table_chirho, index_chirho, value_chirho }
            | MapPageActionChirho::RestoreLeafChirho { table_chirho, index_chirho, value_chirho } => {
                mem.insert((table_chirho, index_chirho), value_chirho);
                MapPageEventChirho::AckChirho
            },
            MapPageActionChirho::RetainChirho(_) => MapPageEventChirho::RetainedChirho(Ok(true)),
            MapPageActionChirho::ReleaseChirho(_) => MapPageEventChirho::ReleasedChirho(Ok(LeafReleaseChirho::UnmanagedChirho)),
            MapPageActionChirho::ZeroFrameChirho(_) | MapPageActionChirho::FreeFrameChirho(_) => MapPageEventChirho::AckChirho,
            MapPageActionChirho::DoneChirho(r) => break r,
            MapPageActionChirho::WaitChirho => panic!("unanswered"),
        };
    };
    assert_eq!(result, Ok(()));
    let retain_at = log.iter().position(|a| *a == MapPageActionChirho::RetainChirho(0x9000)).unwrap();
    assert!(matches!(log[retain_at + 1], MapPageActionChirho::PublishLeafChirho { value_chirho: 0x9007, .. }));
    assert_eq!(mem.get(&(next_frame, pt_index_chirho(vaddr, 3) as u64)), Some(&0x9007));

    // Out of frames for the PT: the PDPT and PD made on this call are
    // cleared and freed, deepest first.
    let mut mem: std::collections::HashMap<(u64, u64), u64> = std::collections::HashMap::new();
    let mut frames = vec![0x30_0000u64, 0x20_0000u64];
    let mut freed: Vec<u64> = Vec::new();
    let mut state = map_page_start_chirho(0x1000, vaddr, 0x9000, 0x7);
    let mut event = MapPageEventChirho::StartChirho;
    let result = loop {
        let (next, action) = map_page_step_chirho(state, event);
        state = next;
        event = match action {
            MapPageActionChirho::ReadEntryChirho { table_chirho, index_chirho } =>
                MapPageEventChirho::EntryChirho(*mem.get(&(table_chirho, index_chirho)).unwrap_or(&0)),
            MapPageActionChirho::AllocateTableChirho => MapPageEventChirho::FrameChirho(frames.pop()),
            MapPageActionChirho::WriteEntryChirho { table_chirho, index_chirho, value_chirho } => {
                mem.insert((table_chirho, index_chirho), value_chirho);
                MapPageEventChirho::AckChirho
            },
            MapPageActionChirho::FreeFrameChirho(f) => {
                freed.push(f);
                MapPageEventChirho::AckChirho
            },
            MapPageActionChirho::DoneChirho(r) => break r,
            other => panic!("unexpected {:?}", other),
        };
    };
    assert_eq!(result, Err(PageMapErrorChirho::IntermediateFrameExhaustedChirho));
    assert_eq!(freed, vec![0x30_0000, 0x20_0000]);
    assert!(mem.values().all(|v| *v == 0));
}

#[test]
fn test_map_page_machine_restores_leaf_when_release_fails() {
    let vaddr: u64 = 0x0000_0040_0000_1000;
    let mut mem: std::collections::HashMap<(u64, u64), u64> = std::collections::HashMap::new();
    // Tables present; the leaf maps another user frame.
    mem.insert((0x1000, pt_index_chirho(vaddr, 0) as u64), 0x2000 | 0x7);
    mem.insert((0x2000, pt_index_chirho(vaddr, 1) as u64), 0x3000 | 0x7);
    mem.insert((0x3000, pt_index_chirho(vaddr, 2) as u64), 0x4000 | 0x7);
    mem.insert((0x4000, pt_index_chirho(vaddr, 3) as u64), 0x8000 | 0x7);
    let mut releases: Vec<u64> = Vec::new();
    let mut state = map_page_start_chirho(0x1000, vaddr, 0x9000, 0x7);
    let mut event = MapPageEventChirho::StartChirho;
    let result = loop {
        let (next, action) = map_page_step_chirho(state, event);
        state = next;
        event = match action {
            MapPageActionChirho::ReadEntryChirho { table_chirho, index_chirho } =>
                MapPageEventChirho::EntryChirho(*mem.get(&(table_chirho, index_chirho)).unwrap_or(&0)),
            MapPageActionChirho::PublishLeafChirho { table_chirho, index_chirho, value_chirho }
            | MapPageActionChirho::RestoreLeafChirho { table_chirho, index_chirho, value_chirho } => {
                mem.insert((table_chirho, index_chirho), value_chirho);
                MapPageEventChirho::AckChirho
            },
            MapPageActionChirho::RetainChirho(_) => MapPageEventChirho::RetainedChirho(Ok(true)),
            MapPageActionChirho::ReleaseChirho(f) => {
                releases.push(f);
                // The old frame's release is refused; the new one's is not.
                MapPageEventChirho::ReleasedChirho(if f == 0x8000 { Err(()) } else { Ok(LeafReleaseChirho::StillReferencedChirho { references_chirho: 1 }) })
            },
            MapPageActionChirho::DoneChirho(r) => break r,
            other => panic!("unexpected {:?}", other),
        };
    };
    assert_eq!(result, Err(PageMapErrorChirho::ReplacedLeafReleaseChirho));
    assert_eq!(releases, vec![0x8000, 0x9000]);
    assert_eq!(mem.get(&(0x4000, pt_index_chirho(vaddr, 3) as u64)), Some(&(0x8000 | 0x7)));
}

#[test]
fn test_cow_fault_machine_paths() {
    let cow_leaf: u64 = 0x5000 | 0x200 | 0x5;
    // Shared frame: copied, counted, published, old frame released.
    for refuse_release in [false, true] {
        let mut leaf = cow_leaf;
        let mut log: Vec<CowFaultStepActionChirho> = Vec::new();
        let mut state = cow_fault_start_chirho(leaf);
        let mut event = CowFaultEventChirho::StartChirho;
        let resolved = loop {
            let (next, action) = cow_fault_step_chirho(state, event);
            state = next;
            log.push(action);
            event = match action {
                CowFaultStepActionChirho::QueryCountChirho(_) => CowFaultEventChirho::CountChirho(Some(2)),
                CowFaultStepActionChirho::AllocateFrameChirho => CowFaultEventChirho::FrameChirho(Some(0x7000)),
                CowFaultStepActionChirho::PublishLeafChirho(v) | CowFaultStepActionChirho::RestoreLeafChirho(v) => {
                    leaf = v;
                    CowFaultEventChirho::AckChirho
                },
                CowFaultStepActionChirho::RetainChirho(_) => CowFaultEventChirho::RetainedChirho(Ok(true)),
                CowFaultStepActionChirho::ReleaseChirho(f) =>
                    CowFaultEventChirho::ReleasedChirho(if refuse_release && f == 0x5000 { Err(()) } else { Ok(LeafReleaseChirho::LastReferenceChirho) }),
                CowFaultStepActionChirho::DoneChirho(b) => break b,
                CowFaultStepActionChirho::WaitChirho => panic!("unanswered"),
                _ => CowFaultEventChirho::AckChirho,
            };
        };
        assert_eq!(resolved, !refuse_release);
        assert!(log.contains(&CowFaultStepActionChirho::CopyFrameChirho { from_chirho: 0x5000, to_chirho: 0x7000 }));
        if refuse_release {
            assert_eq!(leaf, cow_leaf);
            assert!(log.contains(&CowFaultStepActionChirho::ReleaseChirho(0x7000)));
            assert!(log.contains(&CowFaultStepActionChirho::FreeFrameChirho(0x7000)));
        } else {
            assert_eq!(leaf, 0x7000 | 0x7);
            assert!(log.contains(&CowFaultStepActionChirho::FreeFrameChirho(0x5000)));
        }
    }
    // One mapping left: made writable in place, nothing copied.
    let mut state = cow_fault_start_chirho(cow_leaf);
    let (s1, a1) = cow_fault_step_chirho(state, CowFaultEventChirho::StartChirho);
    assert_eq!(a1, CowFaultStepActionChirho::QueryCountChirho(0x5000));
    state = s1;
    let (_, a2) = cow_fault_step_chirho(state, CowFaultEventChirho::CountChirho(Some(1)));
    assert_eq!(a2, CowFaultStepActionChirho::PublishLeafChirho(0x5000 | 0x7));
    // Not copy-on-write: a genuine fault.
    let (_, a3) = cow_fault_step_chirho(cow_fault_start_chirho(0x5005), CowFaultEventChirho::StartChirho);
    assert_eq!(a3, CowFaultStepActionChirho::DoneChirho(false));
}
