//! Bookkeeping around user address spaces: which physical frames the
//! frame-ownership table manages, the statistics of its setup and of
//! retiring a page-table tree, and the counters of handle drops.

use vstd::prelude::*;

verus! {

/// One region of the bootloader's memory map, reduced to what the
/// ownership setup reads: its bounds and whether it is usable RAM.
#[derive(PartialEq, Eq, Structural, Clone, Copy, Debug)]
pub struct MemoryRegionChirho {
    pub start_chirho: u64,
    pub end_chirho: u64,
    pub usable_chirho: bool,
}

/// A range of whole frames, by frame number, end exclusive.
#[derive(PartialEq, Eq, Structural, Clone, Copy, Debug)]
pub struct FrameRangeChirho {
    pub start_frame_chirho: u64,
    pub end_frame_exclusive_chirho: u64,
}

/// The first whole frame at or after byte `start` (rounding up, with the
/// addition saturating at `u64::MAX`).
pub open spec fn first_frame(start: u64) -> u64 {
    (if start + 4095 > u64::MAX { u64::MAX as int } else { start + 4095 }) as u64 / 4096
}

/// The frame range a region contributes: its whole frames, when it is
/// usable and has at least one.
pub open spec fn region_range(r: MemoryRegionChirho) -> Option<FrameRangeChirho> {
    if r.usable_chirho && first_frame(r.start_chirho) < r.end_chirho / 4096 {
        Some(FrameRangeChirho { start_frame_chirho: first_frame(r.start_chirho), end_frame_exclusive_chirho: r.end_chirho / 4096 })
    } else {
        None
    }
}

/// The managed frame ranges of a memory map, in its order.
pub open spec fn managed_ranges(regions: Seq<MemoryRegionChirho>) -> Seq<FrameRangeChirho>
    decreases regions.len(),
{
    if regions.len() == 0 {
        Seq::empty()
    } else {
        let prev = managed_ranges(regions.drop_last());
        match region_range(regions.last()) {
            Some(r) => prev.push(r),
            None => prev,
        }
    }
}

/// The frames the ownership table manages: for each usable region in
/// order, its whole frames, skipping regions with none.
pub fn managed_frame_ranges_chirho(regions_chirho: &[MemoryRegionChirho]) -> (r: Vec<FrameRangeChirho>)
    ensures
        r@ == managed_ranges(regions_chirho@),
{
    let mut out_chirho: Vec<FrameRangeChirho> = Vec::new();
    let mut i_chirho: usize = 0;
    while i_chirho < regions_chirho.len()
        invariant
            i_chirho <= regions_chirho@.len(),
            out_chirho@ == managed_ranges(regions_chirho@.subrange(0, i_chirho as int)),
        decreases regions_chirho@.len() - i_chirho,
    {
        let region_chirho = regions_chirho[i_chirho];
        proof {
            let s = regions_chirho@.subrange(0, i_chirho as int + 1);
            assert(s.drop_last() =~= regions_chirho@.subrange(0, i_chirho as int));
            assert(s.last() == region_chirho);
        }
        if region_chirho.usable_chirho {
            let start_frame_chirho: u64 = region_chirho.start_chirho.saturating_add(4095) / 4096;
            let end_frame_chirho: u64 = region_chirho.end_chirho / 4096;
            if start_frame_chirho < end_frame_chirho {
                out_chirho.push(FrameRangeChirho { start_frame_chirho, end_frame_exclusive_chirho: end_frame_chirho });
            }
        }
        i_chirho = i_chirho + 1;
    }
    assert(regions_chirho@.subrange(0, regions_chirho@.len() as int) =~= regions_chirho@);
    out_chirho
}

/// The measured shape of the frame-ownership table.
#[derive(PartialEq, Eq, Structural, Clone, Copy, Debug)]
pub struct AddressSpaceOwnershipInitStatsChirho {
    pub slot_count_chirho: usize,
    pub managed_frame_count_chirho: usize,
}

/// What retiring a page-table tree released.
#[derive(PartialEq, Eq, Structural, Clone, Copy, Debug)]
pub struct AddressSpaceRetireStatsChirho {
    pub leaf_mappings_released_chirho: u64,
    pub leaf_frames_freed_chirho: u64,
    pub unmanaged_leaf_mappings_cleared_chirho: u64,
    pub table_frames_freed_chirho: u64,
}

impl Default for AddressSpaceRetireStatsChirho {
    fn default() -> (r: Self)
        ensures
            r == (AddressSpaceRetireStatsChirho { leaf_mappings_released_chirho: 0, leaf_frames_freed_chirho: 0,
                unmanaged_leaf_mappings_cleared_chirho: 0, table_frames_freed_chirho: 0 }),
    {
        AddressSpaceRetireStatsChirho { leaf_mappings_released_chirho: 0, leaf_frames_freed_chirho: 0,
            unmanaged_leaf_mappings_cleared_chirho: 0, table_frames_freed_chirho: 0 }
    }
}

impl AddressSpaceRetireStatsChirho {
    /// Count one cleared leaf mapping: a freed frame when it was the
    /// frame's last mapping, an unmanaged mapping when the table does not
    /// manage its frame.
    pub fn record_leaf_chirho(&mut self, free_frame_chirho: bool, managed_chirho: bool)
        requires
            old(self).leaf_mappings_released_chirho < u64::MAX,
            old(self).leaf_frames_freed_chirho < u64::MAX,
            old(self).unmanaged_leaf_mappings_cleared_chirho < u64::MAX,
        ensures
            final(self).leaf_mappings_released_chirho == old(self).leaf_mappings_released_chirho + 1,
            final(self).leaf_frames_freed_chirho == old(self).leaf_frames_freed_chirho + (if free_frame_chirho { 1int } else { 0 }),
            final(self).unmanaged_leaf_mappings_cleared_chirho == old(self).unmanaged_leaf_mappings_cleared_chirho
                + (if !free_frame_chirho && !managed_chirho { 1int } else { 0 }),
            final(self).table_frames_freed_chirho == old(self).table_frames_freed_chirho,
    {
        self.leaf_mappings_released_chirho = self.leaf_mappings_released_chirho + 1;
        if free_frame_chirho {
            self.leaf_frames_freed_chirho = self.leaf_frames_freed_chirho + 1;
        } else if !managed_chirho {
            self.unmanaged_leaf_mappings_cleared_chirho = self.unmanaged_leaf_mappings_cleared_chirho + 1;
        }
    }

    /// Count one freed page-table frame.
    pub fn record_table_freed_chirho(&mut self)
        requires
            old(self).table_frames_freed_chirho < u64::MAX,
        ensures
            *final(self) == (AddressSpaceRetireStatsChirho { table_frames_freed_chirho: (old(self).table_frames_freed_chirho + 1) as u64,
                ..*old(self) }),
    {
        self.table_frames_freed_chirho = self.table_frames_freed_chirho + 1;
    }
}

/// What dropping an address-space handle did to its owner count.
#[derive(PartialEq, Eq, Structural, Clone, Copy, Debug)]
pub enum HandleReleaseChirho {
    /// It was the last owner, and the space was not retired.
    LastOwnerChirho,
    /// Other owners remain.
    OwnersRemainChirho,
    /// The owner count refused the release.
    RefcountFailureChirho,
}

/// One more, wrapping at `u64::MAX` as an atomic add does.
pub open spec fn inc_wrap(x: u64) -> u64 {
    if x == u64::MAX { 0 } else { (x + 1) as u64 }
}

/// The counters of handle drops that a health check reads.
pub struct AddressSpaceCountersChirho {
    pub unretired_last_handle_drops_chirho: u64,
    pub handle_refcount_failures_chirho: u64,
}

impl AddressSpaceCountersChirho {
    /// Both counters at zero.
    pub fn new_chirho() -> (r: Self)
        ensures
            r.unretired_last_handle_drops_chirho == 0,
            r.handle_refcount_failures_chirho == 0,
    {
        AddressSpaceCountersChirho { unretired_last_handle_drops_chirho: 0, handle_refcount_failures_chirho: 0 }
    }

    /// Count a dropped handle: a last owner dropped without retiring, or a
    /// refused release; a release with owners left counts nothing.
    pub fn record_handle_drop_chirho(&mut self, release_chirho: HandleReleaseChirho)
        ensures
            final(self).unretired_last_handle_drops_chirho == (if release_chirho == HandleReleaseChirho::LastOwnerChirho {
                inc_wrap(old(self).unretired_last_handle_drops_chirho) } else { old(self).unretired_last_handle_drops_chirho }),
            final(self).handle_refcount_failures_chirho == (if release_chirho == HandleReleaseChirho::RefcountFailureChirho {
                inc_wrap(old(self).handle_refcount_failures_chirho) } else { old(self).handle_refcount_failures_chirho }),
    {
        match release_chirho {
            HandleReleaseChirho::LastOwnerChirho => {
                self.unretired_last_handle_drops_chirho = if self.unretired_last_handle_drops_chirho == u64::MAX { 0 }
                    else { self.unretired_last_handle_drops_chirho + 1 };
            },
            HandleReleaseChirho::OwnersRemainChirho => {},
            HandleReleaseChirho::RefcountFailureChirho => {
                self.handle_refcount_failures_chirho = if self.handle_refcount_failures_chirho == u64::MAX { 0 }
                    else { self.handle_refcount_failures_chirho + 1 };
            },
        }
    }

    /// How many last handles were dropped without retiring their space.
    pub fn unretired_last_handle_drops_chirho(&self) -> (r: u64)
        ensures
            r == self.unretired_last_handle_drops_chirho,
    {
        self.unretired_last_handle_drops_chirho
    }

    /// How many handle releases the owner count refused.
    pub fn handle_refcount_failures_chirho(&self) -> (r: u64)
        ensures
            r == self.handle_refcount_failures_chirho,
    {
        self.handle_refcount_failures_chirho
    }
}

/// The number of whole frames the boot frame allocator hands out from a
/// region: from its start rounded up to a page, stepping a page at a time
/// while below its end; none for a region that is not usable.
pub open spec fn region_frame_count(r: MemoryRegionChirho) -> int {
    let s = crate::mmap::align_up_spec(r.start_chirho);
    if r.usable_chirho && s < r.end_chirho { (r.end_chirho - s + 4095) / 4096 } else { 0 }
}

/// The `n`-th frame (counting from 0) that the boot frame allocator hands
/// out from `regions`, in their order; `None` past the last.
pub open spec fn nth_usable_frame(regions: Seq<MemoryRegionChirho>, n: int) -> Option<u64>
    decreases regions.len(),
{
    if regions.len() == 0 || n < 0 {
        None
    } else if n < region_frame_count(regions[0]) {
        Some((crate::mmap::align_up_spec(regions[0].start_chirho) + n * 4096) as u64)
    } else {
        nth_usable_frame(regions.drop_first(), n - region_frame_count(regions[0]))
    }
}

/// Every usable region's start can be rounded up to a page.
pub open spec fn regions_roundable(regions: Seq<MemoryRegionChirho>) -> bool {
    forall|i: int| 0 <= i < regions.len() && (#[trigger] regions[i]).usable_chirho ==> regions[i].start_chirho <= u64::MAX - 4095
}

/// The frame the boot frame allocator hands out as its `n`-th, when its
/// free list is empty: the `n`-th 4 KiB frame of the usable regions.
pub fn nth_usable_frame_chirho(regions_chirho: &[MemoryRegionChirho], n_chirho: u64) -> (r: Option<u64>)
    requires
        regions_roundable(regions_chirho@),
    ensures
        r == nth_usable_frame(regions_chirho@, n_chirho as int),
{
    let mut i_chirho: usize = 0;
    let mut left_chirho: u64 = n_chirho;
    assert(regions_chirho@.skip(0) =~= regions_chirho@);
    while i_chirho < regions_chirho.len()
        invariant
            i_chirho <= regions_chirho@.len(),
            regions_roundable(regions_chirho@),
            nth_usable_frame(regions_chirho@, n_chirho as int)
                == nth_usable_frame(regions_chirho@.skip(i_chirho as int), left_chirho as int),
        decreases regions_chirho@.len() - i_chirho,
    {
        let r_chirho = regions_chirho[i_chirho];
        let ghost rest = regions_chirho@.skip(i_chirho as int);
        assert(rest[0] == r_chirho);
        assert(rest.drop_first() =~= regions_chirho@.skip(i_chirho as int + 1));
        if r_chirho.usable_chirho {
            let s_chirho = crate::mmap::align_up_page_chirho(r_chirho.start_chirho);
            if s_chirho < r_chirho.end_chirho {
                let count_chirho: u64 = (r_chirho.end_chirho - s_chirho) / 4096
                    + if (r_chirho.end_chirho - s_chirho) % 4096 != 0 { 1 } else { 0 };
                assert(count_chirho == region_frame_count(r_chirho));
                if left_chirho < count_chirho {
                    assert(left_chirho * 4096 < r_chirho.end_chirho - s_chirho) by (nonlinear_arith)
                        requires
                            left_chirho < count_chirho,
                            count_chirho == (r_chirho.end_chirho - s_chirho) / 4096
                                + if (r_chirho.end_chirho - s_chirho) % 4096 != 0 { 1int } else { 0 };
                    return Some(s_chirho + left_chirho * 4096);
                }
                left_chirho = left_chirho - count_chirho;
            } else {
                assert(region_frame_count(r_chirho) == 0);
            }
        } else {
            assert(region_frame_count(r_chirho) == 0);
        }
        i_chirho = i_chirho + 1;
    }
    assert(regions_chirho@.skip(i_chirho as int).len() == 0);
    None
}

} // verus!
