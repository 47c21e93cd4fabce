//! x86_64 four-level page tables: the bits of a raw entry, the index an
//! address takes at each level, one step of a translation walk, the
//! copy-on-write marking of user leaves, and the decisions of demand paging
//! and unmapping. Reading and writing the tables themselves is the caller's
//! part; every function here works on raw entry values.

use vstd::prelude::*;

verus! {

/// Page size (4 KiB).
pub const PAGE_SIZE_CHIRHO: u64 = 4096;

/// Entries in one table at any level.
pub const ENTRIES_PER_TABLE_CHIRHO: usize = 512;

/// First PML4 slot of the kernel half; slots below it map user space.
pub const KERNEL_PML4_START_CHIRHO: usize = 256;

/// The bit an entry carries while its page is shared copy-on-write (bit 9,
/// one of those left to the operating system).
pub const COW_BIT_CHIRHO: u64 = 0x200;

/// The physical-address bits of an entry (bits 12 to 51).
pub const PT_ADDR_MASK_CHIRHO: u64 = 0x000F_FFFF_FFFF_F000;

/// Entry flag: present.
pub const PTE_PRESENT_CHIRHO: u64 = 0x1;
/// Entry flag: writable.
pub const PTE_WRITABLE_CHIRHO: u64 = 0x2;
/// Entry flag: reachable from user mode.
pub const PTE_USER_CHIRHO: u64 = 0x4;
/// Entry flag: maps a huge page (1 GiB in a PDPT, 2 MiB in a PD).
pub const PTE_HUGE_CHIRHO: u64 = 0x80;

/// The physical address an entry points at.
pub open spec fn entry_addr(e: u64) -> u64 {
    e & 0x000F_FFFF_FFFF_F000u64
}

/// Whether an entry has flag `f`.
pub open spec fn has_flag(e: u64, f: u64) -> bool {
    e & f != 0
}

/// Facts on the address bits of an entry: they are 4 KiB aligned, below
/// 2^52, no larger than the entry, and taking them twice changes nothing.
pub proof fn lemma_entry_addr(e: u64)
    ensures
        entry_addr(e) % 4096 == 0,
        entry_addr(e) <= 0x000F_FFFF_FFFF_F000u64,
        entry_addr(e) <= e,
        entry_addr(entry_addr(e)) == entry_addr(e),
{
    assert(
        (e & 0x000F_FFFF_FFFF_F000u64) % 4096 == 0
        && (e & 0x000F_FFFF_FFFF_F000u64) <= 0x000F_FFFF_FFFF_F000u64
        && (e & 0x000F_FFFF_FFFF_F000u64) <= e
        && ((e & 0x000F_FFFF_FFFF_F000u64) & 0x000F_FFFF_FFFF_F000u64) == (e & 0x000F_FFFF_FFFF_F000u64)
    ) by (bit_vector);
}

/// The physical address in a raw entry of any level: the flag bits masked
/// out, leaving a 4 KiB-aligned address.
pub fn pt_entry_addr_chirho(entry_chirho: u64) -> (r: u64)
    ensures
        r == entry_addr(entry_chirho),
        r % 4096 == 0,
        r <= entry_chirho,
{
    proof { lemma_entry_addr(entry_chirho); }
    entry_chirho & PT_ADDR_MASK_CHIRHO
}

/// Whether a raw entry is present (bit 0).
pub fn pt_entry_is_present_chirho(entry_chirho: u64) -> (r: bool)
    ensures
        r == has_flag(entry_chirho, PTE_PRESENT_CHIRHO),
{
    entry_chirho & PTE_PRESENT_CHIRHO != 0
}

/// Whether a raw entry maps a huge page (bit 7).
pub fn pt_entry_is_huge_chirho(entry_chirho: u64) -> (r: bool)
    ensures
        r == has_flag(entry_chirho, PTE_HUGE_CHIRHO),
{
    entry_chirho & PTE_HUGE_CHIRHO != 0
}

/// The index that `virt` takes in the table of `level` (0 for the PML4,
/// 3 for the last level): nine bits, from bit 39, 30, 21 or 12.
pub open spec fn pt_index(virt: u64, level: int) -> u64 {
    if level == 0 { (virt >> 39u64) & 0x1FF }
    else if level == 1 { (virt >> 30u64) & 0x1FF }
    else if level == 2 { (virt >> 21u64) & 0x1FF }
    else { (virt >> 12u64) & 0x1FF }
}

/// The table index of `virt` at `level`.
pub fn pt_index_chirho(virt_chirho: u64, level_chirho: usize) -> (r: usize)
    requires
        level_chirho < 4,
    ensures
        r == pt_index(virt_chirho, level_chirho as int),
        r < ENTRIES_PER_TABLE_CHIRHO,
{
    let shift_chirho: u64 = if level_chirho == 0 { 39 } else if level_chirho == 1 { 30 } else if level_chirho == 2 { 21 } else { 12 };
    let idx_chirho: u64 = (virt_chirho >> shift_chirho) & 0x1FF;
    assert(((virt_chirho >> shift_chirho) & 0x1FFu64) < 512) by (bit_vector);
    idx_chirho as usize
}

/// What a translation walk does with the entry it read at one level.
#[derive(PartialEq, Eq, Structural, Clone, Copy, Debug)]
pub enum VirtWalkStepChirho {
    /// The entry is not present: the address is not mapped.
    NotMappedChirho,
    /// The walk ends at this physical address.
    MappedChirho(u64),
    /// The walk goes on at the table with this physical address.
    DescendChirho(u64),
}

/// One step of the walk for `virt` at `level`, given the raw entry there:
/// a huge entry ends it at level 1 (1 GiB page) or 2 (2 MiB page), the
/// last level ends it with the page offset added, any other level descends.
pub open spec fn walk_step(level: int, virt: u64, e: u64) -> VirtWalkStepChirho {
    if !has_flag(e, 1) {
        VirtWalkStepChirho::NotMappedChirho
    } else if has_flag(e, 0x80) && level == 1 {
        VirtWalkStepChirho::MappedChirho((entry_addr(e) + (virt & 0x3FFF_FFFFu64)) as u64)
    } else if has_flag(e, 0x80) && level == 2 {
        VirtWalkStepChirho::MappedChirho((entry_addr(e) + (virt & 0x1F_FFFFu64)) as u64)
    } else if level == 3 {
        VirtWalkStepChirho::MappedChirho((entry_addr(e) + (virt & 0xFFFu64)) as u64)
    } else {
        VirtWalkStepChirho::DescendChirho(entry_addr(e))
    }
}

/// One step of translating `virt`, at `level`, on the raw entry read there.
pub fn virt_to_phys_step_chirho(level_chirho: usize, virt_chirho: u64, raw_entry_chirho: u64) -> (r: VirtWalkStepChirho)
    requires
        level_chirho < 4,
    ensures
        r == walk_step(level_chirho as int, virt_chirho, raw_entry_chirho),
{
    if !pt_entry_is_present_chirho(raw_entry_chirho) {
        return VirtWalkStepChirho::NotMappedChirho;
    }
    let entry_phys_chirho = pt_entry_addr_chirho(raw_entry_chirho);
    assert(virt_chirho & 0x3FFF_FFFFu64 <= 0x3FFF_FFFFu64 && virt_chirho & 0x1F_FFFFu64 <= 0x1F_FFFFu64
        && virt_chirho & 0xFFFu64 <= 0xFFFu64) by (bit_vector);
    proof { lemma_entry_addr(raw_entry_chirho); }
    if pt_entry_is_huge_chirho(raw_entry_chirho) {
        if level_chirho == 1 {
            return VirtWalkStepChirho::MappedChirho(entry_phys_chirho + (virt_chirho & 0x3FFF_FFFF));
        } else if level_chirho == 2 {
            return VirtWalkStepChirho::MappedChirho(entry_phys_chirho + (virt_chirho & 0x1F_FFFF));
        }
    }
    if level_chirho == 3 {
        return VirtWalkStepChirho::MappedChirho(entry_phys_chirho + (virt_chirho & 0xFFF));
    }
    VirtWalkStepChirho::DescendChirho(entry_phys_chirho)
}

/// The entry a writable user leaf takes when it is shared copy-on-write:
/// WRITABLE cleared, the COW bit set, address and other flags kept.
pub open spec fn cow_marked(e: u64) -> u64 {
    (e & !0x2u64) | 0x200u64
}

/// The entry a copy-on-write leaf takes once its fault is resolved:
/// WRITABLE set and the COW bit cleared, at physical address `frame`.
pub open spec fn cow_resolved(e: u64, frame: u64) -> u64 {
    entry_addr(frame) | (((e & !0x000F_FFFF_FFFF_F000u64) | 0x2u64) & !0x200u64)
}

/// The leaf entry `e` takes when its page gets the page flags `flags`
/// (`mprotect`): same frame, the new flags, except that a copy-on-write
/// page keeps its COW bit and stays read-only until its fault.
pub open spec fn reprotected(e: u64, flags: u64) -> u64 {
    entry_addr(e) | (if has_flag(e, 0x200) { (flags | 0x200u64) & !0x2u64 } else { flags })
}

/// The entry of a mapped page after its protection changes to `flags`.
pub fn reprotected_entry_chirho(entry_chirho: u64, flags_chirho: u64) -> (r: u64)
    ensures
        r == reprotected(entry_chirho, flags_chirho),
{
    let effective_chirho = if entry_chirho & COW_BIT_CHIRHO != 0 {
        (flags_chirho | COW_BIT_CHIRHO) & !PTE_WRITABLE_CHIRHO
    } else {
        flags_chirho
    };
    (entry_chirho & PT_ADDR_MASK_CHIRHO) | effective_chirho
}

/// Changing the protection of a copy-on-write page to page flags outside
/// the address bits keeps it copy-on-write and read-only, on the same frame.
pub proof fn lemma_reprotect_keeps_cow(e: u64, flags: u64)
    requires
        has_flag(e, 0x200),
        flags & 0x000F_FFFF_FFFF_F000u64 == 0,
    ensures
        has_flag(reprotected(e, flags), 0x200),
        !has_flag(reprotected(e, flags), 0x2),
        entry_addr(reprotected(e, flags)) == entry_addr(e),
{
    assert(
        (e & 0x200u64 != 0 && flags & 0x000F_FFFF_FFFF_F000u64 == 0) ==> {
            let r = (e & 0x000F_FFFF_FFFF_F000u64) | ((flags | 0x200u64) & !0x2u64);
            &&& r & 0x200u64 != 0
            &&& r & 0x2u64 == 0
            &&& r & 0x000F_FFFF_FFFF_F000u64 == e & 0x000F_FFFF_FFFF_F000u64
        }
    ) by (bit_vector);
}

/// Whether a leaf entry is marked when its address space is shared:
/// in use, user-accessible, writable, and its frame is one the ownership
/// table manages with at least one mapping (`count`).
pub open spec fn cow_candidate(e: u64, count: Option<u32>) -> bool {
    &&& e != 0
    &&& has_flag(e, 0x4)
    &&& has_flag(e, 0x2)
    &&& count matches Some(n) && n > 0
}

/// The copy-on-write marking of one leaf: the new entry when it is a
/// candidate, `None` when it stays as it is.
pub fn mark_cow_leaf_chirho(entry_chirho: u64, mapping_count_chirho: Option<u32>) -> (r: Option<u64>)
    ensures
        r == (if cow_candidate(entry_chirho, mapping_count_chirho) { Some(cow_marked(entry_chirho)) } else { None }),
{
    if entry_chirho == 0 || entry_chirho & PTE_USER_CHIRHO == 0 || entry_chirho & PTE_WRITABLE_CHIRHO == 0 {
        return None;
    }
    match mapping_count_chirho {
        Some(n_chirho) => {
            if n_chirho == 0 {
                None
            } else {
                Some((entry_chirho & !PTE_WRITABLE_CHIRHO) | COW_BIT_CHIRHO)
            }
        },
        None => None,
    }
}

/// Whether a table entry on the way to user leaves is walked when marking:
/// in use, user-accessible, and (below the PML4) not a huge page.
pub fn cow_descend_chirho(entry_chirho: u64, level_chirho: usize) -> (r: bool)
    ensures
        r == (entry_chirho != 0 && has_flag(entry_chirho, PTE_USER_CHIRHO)
            && (level_chirho == 0 || !has_flag(entry_chirho, PTE_HUGE_CHIRHO))),
{
    entry_chirho != 0 && entry_chirho & PTE_USER_CHIRHO != 0
        && (level_chirho == 0 || entry_chirho & PTE_HUGE_CHIRHO == 0)
}

/// What a page fault on a present leaf does.
#[derive(PartialEq, Eq, Structural, Clone, Copy, Debug)]
pub enum CowFaultActionChirho {
    /// Not a copy-on-write page, or its frame is unmanaged or unowned: a
    /// genuine fault.
    NotCowChirho,
    /// The frame has one mapping left: make this entry writable in place.
    ReuseChirho(u64),
    /// The frame is shared: copy it to a fresh frame and remap.
    CopyChirho,
}

/// The decision on a fault at a leaf `entry` whose frame has `count`
/// mappings (`None` when the ownership table does not manage it).
pub open spec fn cow_fault_action(e: u64, count: Option<u32>) -> CowFaultActionChirho {
    if !has_flag(e, 0x200) {
        CowFaultActionChirho::NotCowChirho
    } else {
        match count {
            Some(n) => if n == 1 { CowFaultActionChirho::ReuseChirho(cow_resolved(e, entry_addr(e))) }
                else if n > 1 { CowFaultActionChirho::CopyChirho } else { CowFaultActionChirho::NotCowChirho },
            None => CowFaultActionChirho::NotCowChirho,
        }
    }
}

/// The entry for a resolved copy-on-write fault: `frame` with the old
/// entry's flags, WRITABLE set and the COW bit cleared.
pub fn cow_resolved_entry_chirho(entry_chirho: u64, frame_chirho: u64) -> (r: u64)
    ensures
        r == cow_resolved(entry_chirho, frame_chirho),
{
    (frame_chirho & PT_ADDR_MASK_CHIRHO) | (((entry_chirho & !PT_ADDR_MASK_CHIRHO) | PTE_WRITABLE_CHIRHO) & !COW_BIT_CHIRHO)
}

/// Decide a page fault on a leaf entry.
pub fn cow_fault_action_chirho(entry_chirho: u64, mapping_count_chirho: Option<u32>) -> (r: CowFaultActionChirho)
    ensures
        r == cow_fault_action(entry_chirho, mapping_count_chirho),
{
    if entry_chirho & COW_BIT_CHIRHO == 0 {
        return CowFaultActionChirho::NotCowChirho;
    }
    match mapping_count_chirho {
        Some(n_chirho) => {
            if n_chirho == 1 {
                CowFaultActionChirho::ReuseChirho(cow_resolved_entry_chirho(entry_chirho, entry_chirho & PT_ADDR_MASK_CHIRHO))
            } else if n_chirho > 1 {
                CowFaultActionChirho::CopyChirho
            } else {
                CowFaultActionChirho::NotCowChirho
            }
        },
        None => CowFaultActionChirho::NotCowChirho,
    }
}

/// Marking a writable leaf copy-on-write and then resolving its fault in
/// place gives back the entry it had, and the marked entry keeps its frame
/// and its other flags.
pub proof fn lemma_cow_mark_then_resolve(e: u64)
    requires
        has_flag(e, 0x2),
        !has_flag(e, 0x200),
    ensures
        cow_resolved(cow_marked(e), entry_addr(cow_marked(e))) == e,
        entry_addr(cow_marked(e)) == entry_addr(e),
        !has_flag(cow_marked(e), 0x2),
        has_flag(cow_marked(e), 0x200),
{
    assert(
        (e & 0x2u64 != 0 && e & 0x200u64 == 0) ==> (
            (((((e & !0x2u64) | 0x200u64) & 0x000F_FFFF_FFFF_F000u64) & 0x000F_FFFF_FFFF_F000u64)
                | (((((e & !0x2u64) | 0x200u64) & !0x000F_FFFF_FFFF_F000u64) | 0x2u64) & !0x200u64)) == e
            && (((e & !0x2u64) | 0x200u64) & 0x000F_FFFF_FFFF_F000u64) == (e & 0x000F_FFFF_FFFF_F000u64)
            && ((e & !0x2u64) | 0x200u64) & 0x2u64 == 0
            && ((e & !0x2u64) | 0x200u64) & 0x200u64 != 0)
    ) by (bit_vector);
}

/// The physical addresses the paging code keeps from boot on: the offset
/// of the window through which all physical memory is mapped, the boot
/// PML4, and the module arena's PDPT and PML4 entry.
pub struct PagingStateChirho {
    pub phys_mem_offset_chirho: u64,
    pub boot_pml4_phys_chirho: u64,
    pub module_arena_pdpt_phys_chirho: u64,
    pub module_arena_pml4_entry_chirho: u64,
}

impl PagingStateChirho {
    /// All four unset (zero).
    pub fn new_chirho() -> (r: Self)
        ensures
            r.phys_mem_offset_chirho == 0,
            r.boot_pml4_phys_chirho == 0,
            r.module_arena_pdpt_phys_chirho == 0,
            r.module_arena_pml4_entry_chirho == 0,
    {
        PagingStateChirho { phys_mem_offset_chirho: 0, boot_pml4_phys_chirho: 0, module_arena_pdpt_phys_chirho: 0,
            module_arena_pml4_entry_chirho: 0 }
    }

    /// Store the physical memory offset the bootloader reported.
    pub fn set_phys_mem_offset_chirho(&mut self, offset_chirho: u64)
        ensures
            *final(self) == (PagingStateChirho { phys_mem_offset_chirho: offset_chirho, ..*old(self) }),
    {
        self.phys_mem_offset_chirho = offset_chirho;
    }

    /// The physical memory offset.
    pub fn phys_mem_offset_chirho(&self) -> (r: u64)
        ensures
            r == self.phys_mem_offset_chirho,
    {
        self.phys_mem_offset_chirho
    }

    /// Remember the boot PML4 (the frame CR3 held at boot).
    pub fn save_boot_pml4_chirho(&mut self, cr3_frame_phys_chirho: u64)
        ensures
            *final(self) == (PagingStateChirho { boot_pml4_phys_chirho: cr3_frame_phys_chirho, ..*old(self) }),
    {
        self.boot_pml4_phys_chirho = cr3_frame_phys_chirho;
    }

    /// The boot PML4's physical address.
    pub fn get_boot_pml4_chirho(&self) -> (r: u64)
        ensures
            r == self.boot_pml4_phys_chirho,
    {
        self.boot_pml4_phys_chirho
    }

    /// Record the PDPT allocated for the module arena.
    pub fn set_module_arena_pdpt_phys_chirho(&mut self, phys_chirho: u64)
        ensures
            *final(self) == (PagingStateChirho { module_arena_pdpt_phys_chirho: phys_chirho, ..*old(self) }),
    {
        self.module_arena_pdpt_phys_chirho = phys_chirho;
    }

    /// The module arena's PDPT.
    pub fn module_arena_pdpt_phys_chirho(&self) -> (r: u64)
        ensures
            r == self.module_arena_pdpt_phys_chirho,
    {
        self.module_arena_pdpt_phys_chirho
    }

    /// Store the PML4[511] entry (address and flags) for the module arena.
    pub fn set_module_arena_pml4_entry_chirho(&mut self, entry_chirho: u64)
        ensures
            *final(self) == (PagingStateChirho { module_arena_pml4_entry_chirho: entry_chirho, ..*old(self) }),
    {
        self.module_arena_pml4_entry_chirho = entry_chirho;
    }

    /// The stored PML4[511] entry.
    pub fn module_arena_pml4_entry_chirho(&self) -> (r: u64)
        ensures
            r == self.module_arena_pml4_entry_chirho,
    {
        self.module_arena_pml4_entry_chirho
    }
}

/// Failures of allocating and mapping one zero-filled demand page.
#[derive(PartialEq, Eq, Structural, Clone, Copy, Debug)]
pub enum DemandPageMapErrorChirho {
    AllocatorBusyChirho,
    AllocatorNotInitializedChirho,
    LeafFrameExhaustedChirho,
    PageTableFrameExhaustedChirho,
}

/// What a try at the frame allocator gave.
#[derive(PartialEq, Eq, Structural, Clone, Copy, Debug)]
pub enum FrameAllocAttemptChirho {
    /// Its lock was held.
    BusyChirho,
    /// It has not been set up.
    UninitializedChirho,
    /// It had no free frame.
    ExhaustedChirho,
    /// A frame at this physical address.
    FrameChirho(u64),
}

/// The leaf frame for a demand page, or why there is none.
pub fn demand_page_leaf_chirho(attempt_chirho: FrameAllocAttemptChirho) -> (r: Result<u64, DemandPageMapErrorChirho>)
    ensures
        r == (match attempt_chirho {
            FrameAllocAttemptChirho::BusyChirho => Err(DemandPageMapErrorChirho::AllocatorBusyChirho),
            FrameAllocAttemptChirho::UninitializedChirho => Err(DemandPageMapErrorChirho::AllocatorNotInitializedChirho),
            FrameAllocAttemptChirho::ExhaustedChirho => Err(DemandPageMapErrorChirho::LeafFrameExhaustedChirho),
            FrameAllocAttemptChirho::FrameChirho(p) => Ok(p),
        }),
{
    match attempt_chirho {
        FrameAllocAttemptChirho::BusyChirho => Err(DemandPageMapErrorChirho::AllocatorBusyChirho),
        FrameAllocAttemptChirho::UninitializedChirho => Err(DemandPageMapErrorChirho::AllocatorNotInitializedChirho),
        FrameAllocAttemptChirho::ExhaustedChirho => Err(DemandPageMapErrorChirho::LeafFrameExhaustedChirho),
        FrameAllocAttemptChirho::FrameChirho(p_chirho) => Ok(p_chirho),
    }
}

/// The result of a demand page once the leaf `leaf` was mapped (or not):
/// the leaf, or `PageTableFrameExhausted` (the caller then frees the leaf).
pub fn demand_page_finish_chirho(leaf_chirho: u64, mapped_chirho: bool) -> (r: Result<u64, DemandPageMapErrorChirho>)
    ensures
        r == (if mapped_chirho { Ok(leaf_chirho) } else { Err(DemandPageMapErrorChirho::PageTableFrameExhaustedChirho) }),
{
    if mapped_chirho { Ok(leaf_chirho) } else { Err(DemandPageMapErrorChirho::PageTableFrameExhaustedChirho) }
}

/// What unmapping a user page did.
#[derive(PartialEq, Eq, Structural, Clone, Copy, Debug)]
pub enum UserPageUnmapOutcomeChirho {
    NotMappedChirho,
    NotUserMappingChirho,
    UnmanagedMappingChirho,
    StillReferencedChirho { references_chirho: u32 },
    FrameFreedChirho,
}

/// What releasing the mapping of a leaf frame told.
#[derive(PartialEq, Eq, Structural, Clone, Copy, Debug)]
pub enum LeafReleaseChirho {
    /// The frame is not one the ownership table manages.
    UnmanagedChirho,
    /// Other mappings of the frame remain.
    StillReferencedChirho { references_chirho: u32 },
    /// That was the last mapping: the frame is to be freed.
    LastReferenceChirho,
}

/// Before anything is cleared: `NotMapped` when the walk found no entry,
/// `NotUserMapping` for an entry without USER_ACCESSIBLE, else `None`
/// (the entry is cleared and its frame released).
pub fn unmap_precheck_chirho(entry_chirho: Option<u64>) -> (r: Option<UserPageUnmapOutcomeChirho>)
    ensures
        r == (match entry_chirho {
            None => Some(UserPageUnmapOutcomeChirho::NotMappedChirho),
            Some(e) => if !has_flag(e, PTE_USER_CHIRHO) { Some(UserPageUnmapOutcomeChirho::NotUserMappingChirho) } else { None },
        }),
{
    match entry_chirho {
        None => Some(UserPageUnmapOutcomeChirho::NotMappedChirho),
        Some(e_chirho) => if e_chirho & PTE_USER_CHIRHO == 0 { Some(UserPageUnmapOutcomeChirho::NotUserMappingChirho) } else { None },
    }
}

/// The outcome of an unmap once the frame's mapping was released.
pub fn unmap_outcome_chirho(release_chirho: LeafReleaseChirho) -> (r: UserPageUnmapOutcomeChirho)
    ensures
        r == (match release_chirho {
            LeafReleaseChirho::UnmanagedChirho => UserPageUnmapOutcomeChirho::UnmanagedMappingChirho,
            LeafReleaseChirho::StillReferencedChirho { references_chirho } =>
                UserPageUnmapOutcomeChirho::StillReferencedChirho { references_chirho },
            LeafReleaseChirho::LastReferenceChirho => UserPageUnmapOutcomeChirho::FrameFreedChirho,
        }),
{
    match release_chirho {
        LeafReleaseChirho::UnmanagedChirho => UserPageUnmapOutcomeChirho::UnmanagedMappingChirho,
        LeafReleaseChirho::StillReferencedChirho { references_chirho } =>
            UserPageUnmapOutcomeChirho::StillReferencedChirho { references_chirho },
        LeafReleaseChirho::LastReferenceChirho => UserPageUnmapOutcomeChirho::FrameFreedChirho,
    }
}

/// Why mapping one page into a page table failed. On every failure the
/// leaf frame is still the caller's and the tables made for it are gone.
#[derive(PartialEq, Eq, Structural, Clone, Copy, Debug)]
pub enum PageMapErrorChirho {
    UnalignedVirtualAddressChirho,
    UnalignedPhysicalAddressChirho,
    UserAddressOutOfRangeChirho,
    NonPresentIntermediateChirho,
    HugeIntermediateChirho,
    IntermediateFrameExhaustedChirho,
    /// The ownership table refused to count the new mapping.
    LeafRetainChirho,
    /// The ownership table refused to release the mapping being replaced.
    ReplacedLeafReleaseChirho,
    /// Undoing the new mapping's count failed too.
    RollbackLeafReleaseChirho,
    /// A user mapping of a frame would become a kernel one.
    OwnershipClassChangeChirho,
}

/// The flags of the tables created on the way to a leaf with `flags`:
/// present and writable, and user-accessible when the leaf is.
pub open spec fn intermediate_flags(flags: u64) -> u64 {
    if has_flag(flags, 0x4) { 0x7u64 } else { 0x3u64 }
}

/// The checks made before any table is touched, and the flags for new
/// tables: a 4 KiB-aligned virtual and physical address, and a user
/// mapping only in the lower half.
pub open spec fn map_precheck(vaddr: u64, paddr: u64, flags: u64) -> Result<u64, PageMapErrorChirho> {
    if vaddr % 4096 != 0 {
        Err(PageMapErrorChirho::UnalignedVirtualAddressChirho)
    } else if paddr % 4096 != 0 {
        Err(PageMapErrorChirho::UnalignedPhysicalAddressChirho)
    } else if has_flag(flags, 0x4) && pt_index(vaddr, 0) >= 256 {
        Err(PageMapErrorChirho::UserAddressOutOfRangeChirho)
    } else {
        Ok(intermediate_flags(flags))
    }
}

/// Check a mapping request; on success, the flags for new tables.
pub fn map_page_precheck_chirho(vaddr_chirho: u64, paddr_chirho: u64, flags_chirho: u64) -> (r: Result<u64, PageMapErrorChirho>)
    ensures
        r == map_precheck(vaddr_chirho, paddr_chirho, flags_chirho),
{
    assert(vaddr_chirho & 0xFFFu64 == vaddr_chirho % 4096 && paddr_chirho & 0xFFFu64 == paddr_chirho % 4096) by (bit_vector);
    if vaddr_chirho & (PAGE_SIZE_CHIRHO - 1) != 0 {
        return Err(PageMapErrorChirho::UnalignedVirtualAddressChirho);
    }
    if paddr_chirho & (PAGE_SIZE_CHIRHO - 1) != 0 {
        return Err(PageMapErrorChirho::UnalignedPhysicalAddressChirho);
    }
    let user_chirho = flags_chirho & PTE_USER_CHIRHO != 0;
    if user_chirho && pt_index_chirho(vaddr_chirho, 0) >= KERNEL_PML4_START_CHIRHO {
        return Err(PageMapErrorChirho::UserAddressOutOfRangeChirho);
    }
    Ok(if user_chirho { 0x7 } else { 0x3 })
}

/// What the map does at an intermediate level with the entry it found.
#[derive(PartialEq, Eq, Structural, Clone, Copy, Debug)]
pub enum MapDescendChirho {
    /// The entry is unused: allocate and zero a table, point the entry at it.
    AllocateChirho,
    /// Go on at the table this entry points at.
    DescendChirho(u64),
    /// Stop with this error, undoing the tables made so far.
    FailChirho(PageMapErrorChirho),
}

/// The decision at intermediate `level` (0 = PML4, 1 = PDPT, 2 = PD) on
/// entry `e`: allocate for an unused entry; below the PML4 a huge page is
/// refused; an entry that is not present is refused; else descend.
pub open spec fn map_descend(level: int, e: u64) -> MapDescendChirho {
    if e == 0 {
        MapDescendChirho::AllocateChirho
    } else if level > 0 && has_flag(e, 0x80) {
        MapDescendChirho::FailChirho(PageMapErrorChirho::HugeIntermediateChirho)
    } else if !has_flag(e, 0x1) {
        MapDescendChirho::FailChirho(PageMapErrorChirho::NonPresentIntermediateChirho)
    } else {
        MapDescendChirho::DescendChirho(entry_addr(e))
    }
}

/// Decide one intermediate level of a mapping.
pub fn map_descend_chirho(level_chirho: usize, entry_chirho: u64) -> (r: MapDescendChirho)
    requires
        level_chirho < 3,
    ensures
        r == map_descend(level_chirho as int, entry_chirho),
{
    if entry_chirho == 0 {
        MapDescendChirho::AllocateChirho
    } else if level_chirho > 0 && pt_entry_is_huge_chirho(entry_chirho) {
        MapDescendChirho::FailChirho(PageMapErrorChirho::HugeIntermediateChirho)
    } else if !pt_entry_is_present_chirho(entry_chirho) {
        MapDescendChirho::FailChirho(PageMapErrorChirho::NonPresentIntermediateChirho)
    } else {
        MapDescendChirho::DescendChirho(pt_entry_addr_chirho(entry_chirho))
    }
}

/// The entry pointing at frame `frame` (4 KiB aligned) with `flags`.
pub open spec fn make_entry(frame: u64, flags: u64) -> u64 {
    frame | flags
}

/// The entry pointing at a frame with the given flags.
pub fn make_entry_chirho(frame_chirho: u64, flags_chirho: u64) -> (r: u64)
    ensures
        r == make_entry(frame_chirho, flags_chirho),
{
    frame_chirho | flags_chirho
}

/// What the map does at the leaf.
#[derive(PartialEq, Eq, Structural, Clone, Copy, Debug)]
pub struct LeafPlanChirho {
    /// The old entry was a user mapping, whose frame count is released.
    pub old_owned_chirho: bool,
    /// The new entry is a user mapping, whose frame count is taken.
    pub new_owned_chirho: bool,
    /// The entry written at the leaf.
    pub new_entry_chirho: u64,
}

/// The leaf step for old entry `old`, frame `paddr` and `flags`: refused
/// when a user mapping of the same frame would turn into a kernel one;
/// else the plan of what is counted, released and written.
pub open spec fn leaf_plan(old: u64, paddr: u64, flags: u64) -> Result<LeafPlanChirho, PageMapErrorChirho> {
    let old_owned = old != 0 && has_flag(old, 0x4);
    let new_owned = has_flag(flags, 0x4);
    if old_owned && !new_owned && entry_addr(old) == paddr {
        Err(PageMapErrorChirho::OwnershipClassChangeChirho)
    } else {
        Ok(LeafPlanChirho { old_owned_chirho: old_owned, new_owned_chirho: new_owned, new_entry_chirho: make_entry(paddr, flags) })
    }
}

/// Plan the leaf step of a mapping.
pub fn map_leaf_plan_chirho(old_entry_chirho: u64, paddr_chirho: u64, flags_chirho: u64) -> (r: Result<LeafPlanChirho, PageMapErrorChirho>)
    ensures
        r == leaf_plan(old_entry_chirho, paddr_chirho, flags_chirho),
{
    let old_owned_chirho = old_entry_chirho != 0 && old_entry_chirho & PTE_USER_CHIRHO != 0;
    let new_owned_chirho = flags_chirho & PTE_USER_CHIRHO != 0;
    if old_owned_chirho && !new_owned_chirho && pt_entry_addr_chirho(old_entry_chirho) == paddr_chirho {
        return Err(PageMapErrorChirho::OwnershipClassChangeChirho);
    }
    Ok(LeafPlanChirho { old_owned_chirho, new_owned_chirho, new_entry_chirho: make_entry_chirho(paddr_chirho, flags_chirho) })
}

/// Once a user leaf is in place, each table entry on its path gains
/// USER_ACCESSIBLE if it lacks it: the new entry, or `None` to leave it.
pub fn user_path_fixup_chirho(entry_chirho: u64) -> (r: Option<u64>)
    ensures
        r == (if has_flag(entry_chirho, PTE_USER_CHIRHO) { None } else { Some(entry_chirho | PTE_USER_CHIRHO) }),
{
    if entry_chirho & PTE_USER_CHIRHO != 0 { None } else { Some(entry_chirho | PTE_USER_CHIRHO) }
}

/// The levels whose new tables a failed mapping frees, deepest first:
/// each level that allocated one (0 = the PDPT under the PML4, 1 = the PD,
/// 2 = the PT).
pub fn map_rollback_levels_chirho(allocated_chirho: [bool; 3]) -> (r: Vec<usize>)
    ensures
        forall|i: int| 0 <= i < r@.len() ==> #[trigger] r@[i] < 3 && allocated_chirho[r@[i] as int],
        forall|l: int| 0 <= l < 3 && allocated_chirho[l] ==> r@.contains(l as usize),
        forall|i: int, j: int| 0 <= i < j < r@.len() ==> r@[i] > r@[j],
{
    let mut out_chirho: Vec<usize> = Vec::new();
    if allocated_chirho[2] { out_chirho.push(2); }
    if allocated_chirho[1] { out_chirho.push(1); }
    if allocated_chirho[0] { out_chirho.push(0); }
    proof {
        if allocated_chirho[0] { assert(out_chirho@[out_chirho@.len() - 1] == 0); }
        if allocated_chirho[1] {
            let k = if allocated_chirho[2] { 1int } else { 0 };
            assert(out_chirho@[k] == 1);
        }
        if allocated_chirho[2] { assert(out_chirho@[0] == 2); }
    }
    out_chirho
}

/// Why cloning a user address space failed.
#[derive(PartialEq, Eq, Structural, Clone, Copy, Debug)]
pub enum PageTableCloneErrorChirho {
    TableFrameExhaustedChirho,
    HugeUserMappingChirho { physical_address_chirho: u64 },
    UnregisteredLeafChirho { physical_address_chirho: u64 },
    /// The ownership table refused to count the shared leaf.
    LeafRetainChirho,
}

/// What cloning does with one entry of a table at `level` (4 = PML4,
/// 1 = the last level).
#[derive(PartialEq, Eq, Structural, Clone, Copy, Debug)]
pub enum CloneEntryChirho {
    /// An unused entry: nothing to copy.
    SkipChirho,
    /// A kernel entry above the last level: copied as it is.
    CopyChirho(u64),
    /// A huge user mapping: the clone fails.
    FailChirho(PageTableCloneErrorChirho),
    /// A leaf: shared with the clone (see `clone_leaf_entry_chirho`).
    LeafChirho,
    /// A user table: cloned recursively; the new entry points at the copy
    /// with these flags.
    DescendChirho { child_chirho: u64, flags_chirho: u64 },
}

/// The decision for entry `e` of a table at `level` being cloned.
pub open spec fn clone_entry(level: int, e: u64) -> CloneEntryChirho {
    if e == 0 {
        CloneEntryChirho::SkipChirho
    } else if level > 1 && !has_flag(e, 0x4) {
        CloneEntryChirho::CopyChirho(e)
    } else if level > 1 && has_flag(e, 0x80) {
        CloneEntryChirho::FailChirho(PageTableCloneErrorChirho::HugeUserMappingChirho { physical_address_chirho: entry_addr(e) })
    } else if level == 1 {
        CloneEntryChirho::LeafChirho
    } else {
        CloneEntryChirho::DescendChirho { child_chirho: entry_addr(e), flags_chirho: e & !0x000F_FFFF_FFFF_F000u64 }
    }
}

/// Decide how to clone one entry.
pub fn clone_entry_chirho(level_chirho: u8, entry_chirho: u64) -> (r: CloneEntryChirho)
    ensures
        r == clone_entry(level_chirho as int, entry_chirho),
{
    if entry_chirho == 0 {
        CloneEntryChirho::SkipChirho
    } else if level_chirho > 1 && entry_chirho & PTE_USER_CHIRHO == 0 {
        CloneEntryChirho::CopyChirho(entry_chirho)
    } else if level_chirho > 1 && entry_chirho & PTE_HUGE_CHIRHO != 0 {
        CloneEntryChirho::FailChirho(PageTableCloneErrorChirho::HugeUserMappingChirho {
            physical_address_chirho: pt_entry_addr_chirho(entry_chirho),
        })
    } else if level_chirho == 1 {
        CloneEntryChirho::LeafChirho
    } else {
        CloneEntryChirho::DescendChirho { child_chirho: pt_entry_addr_chirho(entry_chirho), flags_chirho: entry_chirho & !PT_ADDR_MASK_CHIRHO }
    }
}

/// A user leaf whose frame the ownership table holds with no mapping is
/// refused before it is shared.
pub fn clone_leaf_precheck_chirho(entry_chirho: u64, mapping_count_chirho: Option<u32>) -> (r: Result<(), PageTableCloneErrorChirho>)
    ensures
        r == (if has_flag(entry_chirho, PTE_USER_CHIRHO) && mapping_count_chirho == Some(0u32) {
            Err(PageTableCloneErrorChirho::UnregisteredLeafChirho { physical_address_chirho: entry_addr(entry_chirho) })
        } else {
            Ok(())
        }),
{
    if entry_chirho & PTE_USER_CHIRHO != 0 {
        if let Some(n_chirho) = mapping_count_chirho {
            if n_chirho == 0 {
                return Err(PageTableCloneErrorChirho::UnregisteredLeafChirho {
                    physical_address_chirho: pt_entry_addr_chirho(entry_chirho),
                });
            }
        }
    }
    Ok(())
}

/// The leaf entry both the source and the clone hold after sharing a
/// leaf whose frame is `managed` by the ownership table: a managed user
/// leaf that is writable or already copy-on-write becomes copy-on-write
/// (read-only, COW bit set); anything else is shared as it is.
pub open spec fn shared_leaf(e: u64, managed: bool) -> u64 {
    if has_flag(e, 0x4) && managed && (has_flag(e, 0x2) || has_flag(e, 0x200)) { cow_marked(e) } else { e }
}

/// The entry a shared leaf takes in both tables.
pub fn clone_leaf_entry_chirho(entry_chirho: u64, managed_chirho: bool) -> (r: u64)
    ensures
        r == shared_leaf(entry_chirho, managed_chirho),
{
    if entry_chirho & PTE_USER_CHIRHO != 0 && managed_chirho
        && (entry_chirho & PTE_WRITABLE_CHIRHO != 0 || entry_chirho & COW_BIT_CHIRHO != 0) {
        (entry_chirho & !PTE_WRITABLE_CHIRHO) | COW_BIT_CHIRHO
    } else {
        entry_chirho
    }
}

/// After a fork both processes map the same frame, and neither can write
/// a managed user leaf without a fault: the shared entry keeps the frame,
/// has WRITABLE clear and the COW bit set.
pub proof fn lemma_shared_leaf_read_only(e: u64, managed: bool)
    requires
        has_flag(e, 0x4),
        managed,
        has_flag(e, 0x2) || has_flag(e, 0x200),
    ensures
        entry_addr(shared_leaf(e, managed)) == entry_addr(e),
        !has_flag(shared_leaf(e, managed), 0x2),
        has_flag(shared_leaf(e, managed), 0x200),
{
    assert(((e & !0x2u64) | 0x200u64) & 0x000F_FFFF_FFFF_F000u64 == e & 0x000F_FFFF_FFFF_F000u64
        && ((e & !0x2u64) | 0x200u64) & 0x2u64 == 0
        && ((e & !0x2u64) | 0x200u64) & 0x200u64 != 0) by (bit_vector);
}

/// Why retiring a page-table tree was refused or failed.
#[derive(PartialEq, Eq, Structural, Clone, Copy, Debug)]
pub enum PageTableRetireErrorChirho {
    BootRootChirho,
    ActiveRootChirho,
    UnmanagedTableFrameChirho { physical_address_chirho: u64 },
    HugeUserMappingChirho { physical_address_chirho: u64 },
    /// The ownership table refused to release a leaf.
    LeafReleaseChirho,
    ScratchAllocationFailedChirho,
    TraversalChangedChirho,
}

/// The checks on the root before a tree is retired: never the boot PML4,
/// never the one CR3 holds, and only a frame the ownership table manages.
pub fn retire_root_check_chirho(root_chirho: u64, boot_root_chirho: u64, active_root_chirho: u64, root_managed_chirho: bool)
    -> (r: Result<(), PageTableRetireErrorChirho>)
    ensures
        r == (if root_chirho == boot_root_chirho {
            Err(PageTableRetireErrorChirho::BootRootChirho)
        } else if root_chirho == active_root_chirho {
            Err(PageTableRetireErrorChirho::ActiveRootChirho)
        } else if !root_managed_chirho {
            Err(PageTableRetireErrorChirho::UnmanagedTableFrameChirho { physical_address_chirho: root_chirho })
        } else {
            Ok(())
        }),
{
    if root_chirho == boot_root_chirho {
        Err(PageTableRetireErrorChirho::BootRootChirho)
    } else if root_chirho == active_root_chirho {
        Err(PageTableRetireErrorChirho::ActiveRootChirho)
    } else if !root_managed_chirho {
        Err(PageTableRetireErrorChirho::UnmanagedTableFrameChirho { physical_address_chirho: root_chirho })
    } else {
        Ok(())
    }
}

/// What retiring does with one entry of a table at `level` (3 = PDPT,
/// 1 = the last level) under a user PML4 slot.
#[derive(PartialEq, Eq, Structural, Clone, Copy, Debug)]
pub enum RetireEntryChirho {
    /// Unused or a kernel entry: left alone.
    SkipChirho,
    /// A user leaf: its mapping is released.
    LeafChirho(u64),
    /// A user table: retired recursively, then freed.
    TableChirho(u64),
    /// A huge user mapping: the retirement is refused.
    FailChirho(PageTableRetireErrorChirho),
}

/// The decision for entry `e` of a table at `level` being retired.
pub open spec fn retire_entry(level: int, e: u64) -> RetireEntryChirho {
    if e == 0 || !has_flag(e, 0x4) {
        RetireEntryChirho::SkipChirho
    } else if level > 1 && has_flag(e, 0x80) {
        RetireEntryChirho::FailChirho(PageTableRetireErrorChirho::HugeUserMappingChirho { physical_address_chirho: entry_addr(e) })
    } else if level == 1 {
        RetireEntryChirho::LeafChirho(entry_addr(e))
    } else {
        RetireEntryChirho::TableChirho(entry_addr(e))
    }
}

/// Decide how to retire one entry.
pub fn retire_entry_chirho(level_chirho: u8, entry_chirho: u64) -> (r: RetireEntryChirho)
    ensures
        r == retire_entry(level_chirho as int, entry_chirho),
{
    if entry_chirho == 0 || entry_chirho & PTE_USER_CHIRHO == 0 {
        RetireEntryChirho::SkipChirho
    } else if level_chirho > 1 && entry_chirho & PTE_HUGE_CHIRHO != 0 {
        RetireEntryChirho::FailChirho(PageTableRetireErrorChirho::HugeUserMappingChirho {
            physical_address_chirho: pt_entry_addr_chirho(entry_chirho),
        })
    } else if level_chirho == 1 {
        RetireEntryChirho::LeafChirho(pt_entry_addr_chirho(entry_chirho))
    } else {
        RetireEntryChirho::TableChirho(pt_entry_addr_chirho(entry_chirho))
    }
}

} // verus!
