//! Mapping one page into a four-level page table, as a state machine: the
//! caller reads and writes table memory, allocates and frees frames and
//! asks the frame-ownership table, one action at a time, and hands back
//! what came of each; every decision is made here. A user leaf is retained
//! before it is published and the leaf it replaces released only after,
//! so a frame remapped onto itself never drops to zero mappings; on every
//! failure the tables made on this call are cleared and freed, deepest
//! first, and a published leaf is put back.

use vstd::prelude::*;
use crate::pagetable::{
    entry_addr, has_flag, leaf_plan, make_entry, map_descend, map_precheck, pt_index, LeafPlanChirho, LeafReleaseChirho,
    MapDescendChirho, PageMapErrorChirho, map_descend_chirho, map_leaf_plan_chirho, map_page_precheck_chirho,
    make_entry_chirho, pt_entry_addr_chirho, pt_index_chirho, PTE_USER_CHIRHO,
};

verus! {

/// Where a mapping stands: what it waits for.
#[derive(Debug, Clone, Copy, PartialEq, Eq)]
pub enum MapPhaseChirho {
    /// Not started.
    BeginChirho,
    /// Waiting for the entry of the table at `level` (0 = PML4).
    DescendChirho { level_chirho: u64 },
    /// Waiting for a zeroed frame for the table below `level`.
    AllocChirho { level_chirho: u64 },
    /// Waiting for the entry linking the new table below `level` to be written.
    LinkChirho { level_chirho: u64 },
    /// Waiting for the old leaf entry.
    LeafChirho,
    /// Waiting for the ownership table to count the new leaf.
    RetainChirho,
    /// Waiting for the new leaf to be written.
    PublishedChirho,
    /// Waiting for the ownership table to release the replaced leaf.
    ReleaseOldChirho,
    /// Waiting for the replaced leaf's frame to be zeroed.
    ZeroOldChirho,
    /// Waiting for the replaced leaf's frame to be freed.
    FreeOldChirho,
    /// Waiting for the entry of the table at `level` on a user leaf's path.
    FixupReadChirho { level_chirho: u64 },
    /// Waiting for that entry to be written user-accessible.
    FixupWriteChirho { level_chirho: u64 },
    /// Waiting for the old leaf to be written back.
    RestoredChirho,
    /// Waiting for the ownership table to release the new leaf again.
    ReleaseNewChirho,
    /// Waiting for the entry linking the new table below `level` to be cleared.
    UndoClearChirho { level_chirho: u64 },
    /// Waiting for the new table below `level` to be freed.
    UndoFreeChirho { level_chirho: u64 },
    /// Over, with this result.
    FinishedChirho(Result<(), PageMapErrorChirho>),
}

/// A mapping of `paddr` at `vaddr` with `flags` under the PML4 at `pml4`.
#[derive(Debug, Clone, Copy)]
pub struct MapPageStateChirho {
    pub phase_chirho: MapPhaseChirho,
    pub vaddr_chirho: u64,
    pub paddr_chirho: u64,
    pub flags_chirho: u64,
    /// The flags of the tables made on the way.
    pub table_flags_chirho: u64,
    /// The tables on the path, from the PML4 down.
    pub pml4_chirho: u64,
    pub pdpt_chirho: u64,
    pub pd_chirho: u64,
    pub pt_chirho: u64,
    /// Which of the PDPT, PD and PT were made on this call.
    pub new_pdpt_chirho: bool,
    pub new_pd_chirho: bool,
    pub new_pt_chirho: bool,
    /// The leaf entry found, and the plan for it.
    pub old_entry_chirho: u64,
    pub old_owned_chirho: bool,
    pub new_owned_chirho: bool,
    pub new_entry_chirho: u64,
    /// The ownership table manages the new leaf's frame.
    pub new_managed_chirho: bool,
    /// Why the tables are being undone.
    pub error_chirho: PageMapErrorChirho,
}

/// What came of the last action.
#[derive(Debug, Clone, Copy, PartialEq, Eq)]
pub enum MapPageEventChirho {
    /// Go.
    StartChirho,
    /// The entry read.
    EntryChirho(u64),
    /// The zeroed frame allocated, or none.
    FrameChirho(Option<u64>),
    /// The ownership table counted the frame (`true` when it manages it),
    /// or refused.
    RetainedChirho(Result<bool, ()>),
    /// The ownership table released the frame, or refused.
    ReleasedChirho(Result<LeafReleaseChirho, ()>),
    /// The write, zeroing or freeing is done.
    AckChirho,
}

/// What the caller does next.
#[derive(Debug, Clone, Copy, PartialEq, Eq)]
pub enum MapPageActionChirho {
    /// Read entry `index` of the table at `table`.
    ReadEntryChirho { table_chirho: u64, index_chirho: u64 },
    /// Allocate a frame and zero it.
    AllocateTableChirho,
    /// Write `value` into entry `index` of the table at `table`.
    WriteEntryChirho { table_chirho: u64, index_chirho: u64, value_chirho: u64 },
    /// Write the new leaf entry.
    PublishLeafChirho { table_chirho: u64, index_chirho: u64, value_chirho: u64 },
    /// Write the old leaf entry back.
    RestoreLeafChirho { table_chirho: u64, index_chirho: u64, value_chirho: u64 },
    /// Count a mapping of this frame in the ownership table.
    RetainChirho(u64),
    /// Drop a mapping of this frame from the ownership table.
    ReleaseChirho(u64),
    /// Fill this frame with zeros.
    ZeroFrameChirho(u64),
    /// Free this frame.
    FreeFrameChirho(u64),
    /// The mapping is over.
    DoneChirho(Result<(), PageMapErrorChirho>),
    /// The event did not answer what was asked: nothing to do.
    WaitChirho,
}

/// The state a mapping starts in.
pub open spec fn map_page_start(pml4: u64, vaddr: u64, paddr: u64, flags: u64) -> MapPageStateChirho {
    MapPageStateChirho {
        phase_chirho: MapPhaseChirho::BeginChirho,
        vaddr_chirho: vaddr,
        paddr_chirho: paddr,
        flags_chirho: flags,
        table_flags_chirho: 0,
        pml4_chirho: pml4,
        pdpt_chirho: 0,
        pd_chirho: 0,
        pt_chirho: 0,
        new_pdpt_chirho: false,
        new_pd_chirho: false,
        new_pt_chirho: false,
        old_entry_chirho: 0,
        old_owned_chirho: false,
        new_owned_chirho: false,
        new_entry_chirho: 0,
        new_managed_chirho: false,
        error_chirho: PageMapErrorChirho::UnalignedVirtualAddressChirho,
    }
}

/// Start mapping `paddr` at `vaddr` with `flags` under the PML4 at `pml4`.
pub fn map_page_start_chirho(pml4_chirho: u64, vaddr_chirho: u64, paddr_chirho: u64, flags_chirho: u64) -> (r: MapPageStateChirho)
    ensures
        r == map_page_start(pml4_chirho, vaddr_chirho, paddr_chirho, flags_chirho),
{
    MapPageStateChirho {
        phase_chirho: MapPhaseChirho::BeginChirho,
        vaddr_chirho,
        paddr_chirho,
        flags_chirho,
        table_flags_chirho: 0,
        pml4_chirho,
        pdpt_chirho: 0,
        pd_chirho: 0,
        pt_chirho: 0,
        new_pdpt_chirho: false,
        new_pd_chirho: false,
        new_pt_chirho: false,
        old_entry_chirho: 0,
        old_owned_chirho: false,
        new_owned_chirho: false,
        new_entry_chirho: 0,
        new_managed_chirho: false,
        error_chirho: PageMapErrorChirho::UnalignedVirtualAddressChirho,
    }
}

/// The table at `level` on the path (0 = PML4, 3 = PT).
pub open spec fn table_at(s: MapPageStateChirho, level: int) -> u64 {
    if level <= 0 { s.pml4_chirho } else if level == 1 { s.pdpt_chirho } else if level == 2 { s.pd_chirho } else { s.pt_chirho }
}

/// Whether the table below `level` was made on this call.
pub open spec fn new_below(s: MapPageStateChirho, level: int) -> bool {
    if level == 0 { s.new_pdpt_chirho } else if level == 1 { s.new_pd_chirho } else if level == 2 { s.new_pt_chirho } else { false }
}

/// `s` with `t` as the table below `level`.
pub open spec fn with_child(s: MapPageStateChirho, level: int, t: u64) -> MapPageStateChirho {
    if level == 0 {
        MapPageStateChirho { pdpt_chirho: t, ..s }
    } else if level == 1 {
        MapPageStateChirho { pd_chirho: t, ..s }
    } else {
        MapPageStateChirho { pt_chirho: t, ..s }
    }
}

/// `s` with the table below `level` marked as made on this call.
pub open spec fn with_new(s: MapPageStateChirho, level: int) -> MapPageStateChirho {
    if level == 0 {
        MapPageStateChirho { new_pdpt_chirho: true, ..s }
    } else if level == 1 {
        MapPageStateChirho { new_pd_chirho: true, ..s }
    } else {
        MapPageStateChirho { new_pt_chirho: true, ..s }
    }
}

/// The deepest level below `below` whose lower table was made on this
/// call, or -1.
pub open spec fn deepest_new(s: MapPageStateChirho, below: int) -> int {
    if below >= 3 && s.new_pt_chirho { 2 } else if below >= 2 && s.new_pd_chirho { 1 } else if below >= 1 && s.new_pdpt_chirho { 0 } else { -1 }
}

/// Undo the tables made, from the deepest one below `below`, then fail.
pub open spec fn undo_from(s: MapPageStateChirho, below: int, err: PageMapErrorChirho) -> (MapPageStateChirho, MapPageActionChirho) {
    let u = deepest_new(s, below);
    if u >= 0 {
        (MapPageStateChirho { phase_chirho: MapPhaseChirho::UndoClearChirho { level_chirho: u as u64 }, error_chirho: err, ..s },
            MapPageActionChirho::WriteEntryChirho { table_chirho: table_at(s, u), index_chirho: pt_index(s.vaddr_chirho, u), value_chirho: 0 })
    } else {
        (MapPageStateChirho { phase_chirho: MapPhaseChirho::FinishedChirho(Err(err)), error_chirho: err, ..s },
            MapPageActionChirho::DoneChirho(Err(err)))
    }
}

/// Go on below `level`, whose entry leads to the table `next`.
pub open spec fn descend_to(s: MapPageStateChirho, level: int, next: u64) -> (MapPageStateChirho, MapPageActionChirho) {
    let s1 = with_child(s, level, next);
    if level < 2 {
        (MapPageStateChirho { phase_chirho: MapPhaseChirho::DescendChirho { level_chirho: (level + 1) as u64 }, ..s1 },
            MapPageActionChirho::ReadEntryChirho { table_chirho: next, index_chirho: pt_index(s.vaddr_chirho, level + 1) })
    } else {
        (MapPageStateChirho { phase_chirho: MapPhaseChirho::LeafChirho, ..s1 },
            MapPageActionChirho::ReadEntryChirho { table_chirho: next, index_chirho: pt_index(s.vaddr_chirho, 3) })
    }
}

/// After the leaf: make the path user-accessible for a user leaf, else done.
pub open spec fn fixup_or_done(s: MapPageStateChirho) -> (MapPageStateChirho, MapPageActionChirho) {
    if s.new_owned_chirho {
        (MapPageStateChirho { phase_chirho: MapPhaseChirho::FixupReadChirho { level_chirho: 0 }, ..s },
            MapPageActionChirho::ReadEntryChirho { table_chirho: s.pml4_chirho, index_chirho: pt_index(s.vaddr_chirho, 0) })
    } else {
        (MapPageStateChirho { phase_chirho: MapPhaseChirho::FinishedChirho(Ok(())), ..s }, MapPageActionChirho::DoneChirho(Ok(())))
    }
}

/// The path entry after `level` is fixed up: the next one, or done.
pub open spec fn fixup_next(s: MapPageStateChirho, level: int) -> (MapPageStateChirho, MapPageActionChirho) {
    if level < 2 {
        (MapPageStateChirho { phase_chirho: MapPhaseChirho::FixupReadChirho { level_chirho: (level + 1) as u64 }, ..s },
            MapPageActionChirho::ReadEntryChirho { table_chirho: table_at(s, level + 1), index_chirho: pt_index(s.vaddr_chirho, level + 1) })
    } else {
        (MapPageStateChirho { phase_chirho: MapPhaseChirho::FinishedChirho(Ok(())), ..s }, MapPageActionChirho::DoneChirho(Ok(())))
    }
}

/// The leaf entry `old` was read: plan the leaf.
pub open spec fn on_leaf(s: MapPageStateChirho, old: u64) -> (MapPageStateChirho, MapPageActionChirho) {
    match leaf_plan(old, s.paddr_chirho, s.flags_chirho) {
        Err(err) => undo_from(MapPageStateChirho { old_entry_chirho: old, ..s }, 3, err),
        Ok(p) => {
            let s1 = MapPageStateChirho {
                old_entry_chirho: old,
                old_owned_chirho: p.old_owned_chirho,
                new_owned_chirho: p.new_owned_chirho,
                new_entry_chirho: p.new_entry_chirho,
                ..s
            };
            if p.new_owned_chirho {
                (MapPageStateChirho { phase_chirho: MapPhaseChirho::RetainChirho, ..s1 }, MapPageActionChirho::RetainChirho(s.paddr_chirho))
            } else {
                (MapPageStateChirho { phase_chirho: MapPhaseChirho::PublishedChirho, new_managed_chirho: false, ..s1 },
                    MapPageActionChirho::PublishLeafChirho { table_chirho: s.pt_chirho, index_chirho: pt_index(s.vaddr_chirho, 3),
                        value_chirho: p.new_entry_chirho })
            }
        },
    }
}

/// The step in phase Begin.
pub open spec fn step_begin(s: MapPageStateChirho, e: MapPageEventChirho) -> (MapPageStateChirho, MapPageActionChirho) {
    let wait = (s, MapPageActionChirho::WaitChirho);
    match e {
        MapPageEventChirho::StartChirho => match map_precheck(s.vaddr_chirho, s.paddr_chirho, s.flags_chirho) {
            Err(err) => (MapPageStateChirho { phase_chirho: MapPhaseChirho::FinishedChirho(Err(err)), ..s },
                MapPageActionChirho::DoneChirho(Err(err))),
            Ok(tf) => (MapPageStateChirho { phase_chirho: MapPhaseChirho::DescendChirho { level_chirho: 0 }, table_flags_chirho: tf, ..s },
                MapPageActionChirho::ReadEntryChirho { table_chirho: s.pml4_chirho, index_chirho: pt_index(s.vaddr_chirho, 0) }),
        },
        _ => wait,
    }
}

/// The step in phase Descend.
pub open spec fn step_descend(s: MapPageStateChirho, level_chirho: u64, e: MapPageEventChirho) -> (MapPageStateChirho, MapPageActionChirho) {
    let wait = (s, MapPageActionChirho::WaitChirho);
    match e {
        MapPageEventChirho::EntryChirho(x) => if level_chirho > 2 { wait } else {
            match map_descend(level_chirho as int, x) {
                MapDescendChirho::DescendChirho(next) => descend_to(s, level_chirho as int, next),
                MapDescendChirho::AllocateChirho => (MapPageStateChirho { phase_chirho: MapPhaseChirho::AllocChirho { level_chirho }, ..s },
                    MapPageActionChirho::AllocateTableChirho),
                MapDescendChirho::FailChirho(err) => undo_from(s, 3, err),
            }
        },
        _ => wait,
    }
}

/// The step in phase Alloc.
pub open spec fn step_alloc(s: MapPageStateChirho, level_chirho: u64, e: MapPageEventChirho) -> (MapPageStateChirho, MapPageActionChirho) {
    let wait = (s, MapPageActionChirho::WaitChirho);
    match e {
        MapPageEventChirho::FrameChirho(Some(f)) => if level_chirho > 2 { wait } else {
            (MapPageStateChirho { phase_chirho: MapPhaseChirho::LinkChirho { level_chirho },
                ..with_new(with_child(s, level_chirho as int, f), level_chirho as int) },
                MapPageActionChirho::WriteEntryChirho { table_chirho: table_at(s, level_chirho as int),
                    index_chirho: pt_index(s.vaddr_chirho, level_chirho as int), value_chirho: make_entry(f, s.table_flags_chirho) })
        },
        MapPageEventChirho::FrameChirho(None) => undo_from(s, 3, PageMapErrorChirho::IntermediateFrameExhaustedChirho),
        _ => wait,
    }
}

/// The step in phase Link.
pub open spec fn step_link(s: MapPageStateChirho, level_chirho: u64, e: MapPageEventChirho) -> (MapPageStateChirho, MapPageActionChirho) {
    let wait = (s, MapPageActionChirho::WaitChirho);
    match e {
        MapPageEventChirho::AckChirho => if level_chirho > 2 { wait } else {
            descend_to(s, level_chirho as int, table_at(s, level_chirho + 1))
        },
        _ => wait,
    }
}

/// The step in phase Leaf.
pub open spec fn step_leaf(s: MapPageStateChirho, e: MapPageEventChirho) -> (MapPageStateChirho, MapPageActionChirho) {
    let wait = (s, MapPageActionChirho::WaitChirho);
    match e {
        MapPageEventChirho::EntryChirho(x) => on_leaf(s, x),
        _ => wait,
    }
}

/// The step in phase Retain.
pub open spec fn step_retain(s: MapPageStateChirho, e: MapPageEventChirho) -> (MapPageStateChirho, MapPageActionChirho) {
    let wait = (s, MapPageActionChirho::WaitChirho);
    let leaf_index = pt_index(s.vaddr_chirho, 3);
    match e {
        MapPageEventChirho::RetainedChirho(Ok(m)) =>
            (MapPageStateChirho { phase_chirho: MapPhaseChirho::PublishedChirho, new_managed_chirho: m, ..s },
                MapPageActionChirho::PublishLeafChirho { table_chirho: s.pt_chirho, index_chirho: leaf_index,
                    value_chirho: s.new_entry_chirho }),
        MapPageEventChirho::RetainedChirho(Err(_)) => undo_from(s, 3, PageMapErrorChirho::LeafRetainChirho),
        _ => wait,
    }
}

/// The step in phase Published.
pub open spec fn step_published(s: MapPageStateChirho, e: MapPageEventChirho) -> (MapPageStateChirho, MapPageActionChirho) {
    let wait = (s, MapPageActionChirho::WaitChirho);
    match e {
        MapPageEventChirho::AckChirho => if s.old_owned_chirho {
            (MapPageStateChirho { phase_chirho: MapPhaseChirho::ReleaseOldChirho, ..s },
                MapPageActionChirho::ReleaseChirho(entry_addr(s.old_entry_chirho)))
        } else {
            fixup_or_done(s)
        },
        _ => wait,
    }
}

/// The step in phase ReleaseOld.
pub open spec fn step_release_old(s: MapPageStateChirho, e: MapPageEventChirho) -> (MapPageStateChirho, MapPageActionChirho) {
    let wait = (s, MapPageActionChirho::WaitChirho);
    let leaf_index = pt_index(s.vaddr_chirho, 3);
    match e {
        MapPageEventChirho::ReleasedChirho(Ok(rel)) => if rel == LeafReleaseChirho::LastReferenceChirho {
            (MapPageStateChirho { phase_chirho: MapPhaseChirho::ZeroOldChirho, ..s },
                MapPageActionChirho::ZeroFrameChirho(entry_addr(s.old_entry_chirho)))
        } else {
            fixup_or_done(s)
        },
        MapPageEventChirho::ReleasedChirho(Err(_)) => (MapPageStateChirho { phase_chirho: MapPhaseChirho::RestoredChirho, ..s },
            MapPageActionChirho::RestoreLeafChirho { table_chirho: s.pt_chirho, index_chirho: leaf_index, value_chirho: s.old_entry_chirho }),
        _ => wait,
    }
}

/// The step in phase ZeroOld.
pub open spec fn step_zero_old(s: MapPageStateChirho, e: MapPageEventChirho) -> (MapPageStateChirho, MapPageActionChirho) {
    let wait = (s, MapPageActionChirho::WaitChirho);
    match e {
        MapPageEventChirho::AckChirho => (MapPageStateChirho { phase_chirho: MapPhaseChirho::FreeOldChirho, ..s },
            MapPageActionChirho::FreeFrameChirho(entry_addr(s.old_entry_chirho))),
        _ => wait,
    }
}

/// The step in phase FreeOld.
pub open spec fn step_free_old(s: MapPageStateChirho, e: MapPageEventChirho) -> (MapPageStateChirho, MapPageActionChirho) {
    let wait = (s, MapPageActionChirho::WaitChirho);
    match e {
        MapPageEventChirho::AckChirho => fixup_or_done(s),
        _ => wait,
    }
}

/// The step in phase FixupRead.
pub open spec fn step_fixup_read(s: MapPageStateChirho, level_chirho: u64, e: MapPageEventChirho) -> (MapPageStateChirho, MapPageActionChirho) {
    let wait = (s, MapPageActionChirho::WaitChirho);
    match e {
        MapPageEventChirho::EntryChirho(x) => if level_chirho > 2 { wait } else if has_flag(x, PTE_USER_CHIRHO) {
            fixup_next(s, level_chirho as int)
        } else {
            (MapPageStateChirho { phase_chirho: MapPhaseChirho::FixupWriteChirho { level_chirho }, ..s },
                MapPageActionChirho::WriteEntryChirho { table_chirho: table_at(s, level_chirho as int),
                    index_chirho: pt_index(s.vaddr_chirho, level_chirho as int), value_chirho: x | PTE_USER_CHIRHO })
        },
        _ => wait,
    }
}

/// The step in phase FixupWrite.
pub open spec fn step_fixup_write(s: MapPageStateChirho, level_chirho: u64, e: MapPageEventChirho) -> (MapPageStateChirho, MapPageActionChirho) {
    let wait = (s, MapPageActionChirho::WaitChirho);
    match e {
        MapPageEventChirho::AckChirho => if level_chirho > 2 { wait } else { fixup_next(s, level_chirho as int) },
        _ => wait,
    }
}

/// The step in phase Restored.
pub open spec fn step_restored(s: MapPageStateChirho, e: MapPageEventChirho) -> (MapPageStateChirho, MapPageActionChirho) {
    let wait = (s, MapPageActionChirho::WaitChirho);
    match e {
        MapPageEventChirho::AckChirho => if s.new_managed_chirho {
            (MapPageStateChirho { phase_chirho: MapPhaseChirho::ReleaseNewChirho, ..s }, MapPageActionChirho::ReleaseChirho(s.paddr_chirho))
        } else {
            undo_from(s, 3, PageMapErrorChirho::ReplacedLeafReleaseChirho)
        },
        _ => wait,
    }
}

/// The step in phase ReleaseNew.
pub open spec fn step_release_new(s: MapPageStateChirho, e: MapPageEventChirho) -> (MapPageStateChirho, MapPageActionChirho) {
    let wait = (s, MapPageActionChirho::WaitChirho);
    match e {
        MapPageEventChirho::ReleasedChirho(Ok(_)) => undo_from(s, 3, PageMapErrorChirho::ReplacedLeafReleaseChirho),
        MapPageEventChirho::ReleasedChirho(Err(_)) =>
            (MapPageStateChirho { phase_chirho: MapPhaseChirho::FinishedChirho(Err(PageMapErrorChirho::RollbackLeafReleaseChirho)), ..s },
                MapPageActionChirho::DoneChirho(Err(PageMapErrorChirho::RollbackLeafReleaseChirho))),
        _ => wait,
    }
}

/// The step in phase UndoClear.
pub open spec fn step_undo_clear(s: MapPageStateChirho, level_chirho: u64, e: MapPageEventChirho) -> (MapPageStateChirho, MapPageActionChirho) {
    let wait = (s, MapPageActionChirho::WaitChirho);
    match e {
        MapPageEventChirho::AckChirho => if level_chirho > 2 { wait } else {
            (MapPageStateChirho { phase_chirho: MapPhaseChirho::UndoFreeChirho { level_chirho }, ..s },
                MapPageActionChirho::FreeFrameChirho(table_at(s, level_chirho + 1)))
        },
        _ => wait,
    }
}

/// The step in phase UndoFree.
pub open spec fn step_undo_free(s: MapPageStateChirho, level_chirho: u64, e: MapPageEventChirho) -> (MapPageStateChirho, MapPageActionChirho) {
    let wait = (s, MapPageActionChirho::WaitChirho);
    match e {
        MapPageEventChirho::AckChirho => if level_chirho > 2 { wait } else { undo_from(s, level_chirho as int, s.error_chirho) },
        _ => wait,
    }
}

/// One step of a mapping: the state after event `e` in state `s`, and what
/// the caller does next. An event that does not answer what was asked
/// changes nothing.
pub open spec fn map_page_step_spec(s: MapPageStateChirho, e: MapPageEventChirho) -> (MapPageStateChirho, MapPageActionChirho) {
    match s.phase_chirho {
        MapPhaseChirho::BeginChirho => step_begin(s, e),
        MapPhaseChirho::DescendChirho { level_chirho } => step_descend(s, level_chirho, e),
        MapPhaseChirho::AllocChirho { level_chirho } => step_alloc(s, level_chirho, e),
        MapPhaseChirho::LinkChirho { level_chirho } => step_link(s, level_chirho, e),
        MapPhaseChirho::LeafChirho => step_leaf(s, e),
        MapPhaseChirho::RetainChirho => step_retain(s, e),
        MapPhaseChirho::PublishedChirho => step_published(s, e),
        MapPhaseChirho::ReleaseOldChirho => step_release_old(s, e),
        MapPhaseChirho::ZeroOldChirho => step_zero_old(s, e),
        MapPhaseChirho::FreeOldChirho => step_free_old(s, e),
        MapPhaseChirho::FixupReadChirho { level_chirho } => step_fixup_read(s, level_chirho, e),
        MapPhaseChirho::FixupWriteChirho { level_chirho } => step_fixup_write(s, level_chirho, e),
        MapPhaseChirho::RestoredChirho => step_restored(s, e),
        MapPhaseChirho::ReleaseNewChirho => step_release_new(s, e),
        MapPhaseChirho::UndoClearChirho { level_chirho } => step_undo_clear(s, level_chirho, e),
        MapPhaseChirho::UndoFreeChirho { level_chirho } => step_undo_free(s, level_chirho, e),
        MapPhaseChirho::FinishedChirho(_) => (s, MapPageActionChirho::WaitChirho),
    }
}

/// Whether event `e` answers what a mapping in phase `p` waits for (a
/// phase the mapping reaches, with a level of at most 2).
pub open spec fn map_answers(p: MapPhaseChirho, e: MapPageEventChirho) -> bool {
    match p {
        MapPhaseChirho::BeginChirho => e is StartChirho,
        MapPhaseChirho::DescendChirho { level_chirho } => level_chirho <= 2 && e is EntryChirho,
        MapPhaseChirho::LeafChirho => e is EntryChirho,
        MapPhaseChirho::FixupReadChirho { level_chirho } => level_chirho <= 2 && e is EntryChirho,
        MapPhaseChirho::AllocChirho { level_chirho } => level_chirho <= 2 && e is FrameChirho,
        MapPhaseChirho::RetainChirho => e is RetainedChirho,
        MapPhaseChirho::ReleaseOldChirho => e is ReleasedChirho,
        MapPhaseChirho::ReleaseNewChirho => e is ReleasedChirho,
        MapPhaseChirho::FinishedChirho(_) => false,
        MapPhaseChirho::LinkChirho { level_chirho } => level_chirho <= 2 && e is AckChirho,
        MapPhaseChirho::FixupWriteChirho { level_chirho } => level_chirho <= 2 && e is AckChirho,
        MapPhaseChirho::UndoClearChirho { level_chirho } => level_chirho <= 2 && e is AckChirho,
        MapPhaseChirho::UndoFreeChirho { level_chirho } => level_chirho <= 2 && e is AckChirho,
        _ => e is AckChirho,
    }
}

/// The state of a mapping that started in `s0` after the events `es[0..i]`.
pub open spec fn map_state_at(s0: MapPageStateChirho, es: Seq<MapPageEventChirho>, i: nat) -> MapPageStateChirho
    decreases i,
{
    if i == 0 { s0 } else { map_page_step_spec(map_state_at(s0, es, (i - 1) as nat), es[i - 1]).0 }
}

/// The action asked for after event `es[i]`, which the event `es[i + 1]`
/// answers.
pub open spec fn map_action_at(s0: MapPageStateChirho, es: Seq<MapPageEventChirho>, i: nat) -> MapPageActionChirho {
    map_page_step_spec(map_state_at(s0, es, i), es[i as int]).1
}

/// Each of the first `n` events answers what was asked.
pub open spec fn map_answered(s0: MapPageStateChirho, es: Seq<MapPageEventChirho>, n: nat) -> bool {
    forall|k: nat| k < n ==> map_answers(#[trigger] map_state_at(s0, es, k).phase_chirho, es[k as int])
}

/// The frames handed back, among the first `n` events, for AllocateTable.
pub open spec fn map_frames_allocated(s0: MapPageStateChirho, es: Seq<MapPageEventChirho>, n: nat) -> Seq<u64>
    decreases n,
{
    if n < 2 {
        Seq::empty()
    } else {
        map_frames_allocated(s0, es, (n - 1) as nat) + match es[n - 1] {
            MapPageEventChirho::FrameChirho(Some(f)) =>
                if map_action_at(s0, es, (n - 2) as nat) is AllocateTableChirho { seq![f] } else { Seq::empty() },
            _ => Seq::empty(),
        }
    }
}

/// The frames freed by the first `n` actions.
pub open spec fn map_frames_freed(s0: MapPageStateChirho, es: Seq<MapPageEventChirho>, n: nat) -> Seq<u64>
    decreases n,
{
    if n == 0 {
        Seq::empty()
    } else {
        map_frames_freed(s0, es, (n - 1) as nat) + match map_action_at(s0, es, (n - 1) as nat) {
            MapPageActionChirho::FreeFrameChirho(f) => seq![f],
            _ => Seq::empty(),
        }
    }
}

/// The tables made on this call below levels above `u`, from the PDPT down.
pub open spec fn new_tables_above(s: MapPageStateChirho, u: int) -> Seq<u64> {
    (if u < 0 && s.new_pdpt_chirho { seq![s.pdpt_chirho] } else { Seq::empty() })
        + (if u < 1 && s.new_pd_chirho { seq![s.pd_chirho] } else { Seq::empty() })
        + (if u < 2 && s.new_pt_chirho { seq![s.pt_chirho] } else { Seq::empty() })
}

/// No table below `level` or deeper was made yet.
spec fn none_new_from(s: MapPageStateChirho, level: int) -> bool {
    (level <= 0 ==> !s.new_pdpt_chirho) && (level <= 1 ==> !s.new_pd_chirho) && (level <= 2 ==> !s.new_pt_chirho)
}

/// What holds of a mapping's state `s` after actions that freed `freed`
/// and events that allocated `allocated`.
spec fn map_inv(s: MapPageStateChirho, freed: Seq<u64>, allocated: Seq<u64>) -> bool {
    &&& allocated == new_tables_above(s, -1)
    &&& match s.phase_chirho {
        MapPhaseChirho::BeginChirho => none_new_from(s, 0) && freed.len() == 0,
        MapPhaseChirho::DescendChirho { level_chirho } => level_chirho <= 2 && none_new_from(s, level_chirho as int) && freed.len() == 0,
        MapPhaseChirho::AllocChirho { level_chirho } => level_chirho <= 2 && none_new_from(s, level_chirho as int) && freed.len() == 0,
        MapPhaseChirho::LinkChirho { level_chirho } => level_chirho <= 2 && new_below(s, level_chirho as int)
            && none_new_from(s, level_chirho + 1) && freed.len() == 0,
        MapPhaseChirho::LeafChirho => freed.len() == 0,
        MapPhaseChirho::RetainChirho => freed.len() == 0,
        MapPhaseChirho::PublishedChirho => freed.len() == 0,
        MapPhaseChirho::ReleaseOldChirho => freed.len() == 0,
        MapPhaseChirho::RestoredChirho => freed.len() == 0,
        MapPhaseChirho::ReleaseNewChirho => freed.len() == 0,
        MapPhaseChirho::UndoClearChirho { level_chirho } => level_chirho <= 2 && new_below(s, level_chirho as int)
            && freed == new_tables_above(s, level_chirho as int).reverse(),
        MapPhaseChirho::UndoFreeChirho { level_chirho } => level_chirho <= 2 && new_below(s, level_chirho as int)
            && freed == new_tables_above(s, level_chirho - 1).reverse(),
        MapPhaseChirho::FinishedChirho(Err(e)) => e != PageMapErrorChirho::RollbackLeafReleaseChirho
            ==> freed == new_tables_above(s, -1).reverse(),
        _ => true,
    }
}

/// The frame an action frees, if any.
pub open spec fn freed_by(a: MapPageActionChirho) -> Seq<u64> {
    match a {
        MapPageActionChirho::FreeFrameChirho(f) => seq![f],
        _ => Seq::empty(),
    }
}

/// The frame an event hands back for a table, if any.
spec fn got_table(s: MapPageStateChirho, e: MapPageEventChirho) -> Seq<u64> {
    match e {
        MapPageEventChirho::FrameChirho(Some(f)) => if s.phase_chirho is AllocChirho { seq![f] } else { Seq::empty() },
        _ => Seq::empty(),
    }
}

proof fn lemma_undo_inv(s: MapPageStateChirho, below: int, err: PageMapErrorChirho, freed: Seq<u64>)
    requires
        0 <= below <= 3,
        freed == new_tables_above(s, below - 1).reverse(),
    ensures
        map_inv(undo_from(s, below, err).0, freed, new_tables_above(s, -1)),
{
    let t = undo_from(s, below, err).0;
    assert(new_tables_above(t, -1) == new_tables_above(s, -1));
    let u = deepest_new(s, below);
    if u >= 0 {
        assert(new_tables_above(t, u) =~= new_tables_above(s, below - 1));
    } else {
        assert(new_tables_above(s, -1) =~= new_tables_above(s, below - 1));
    }
}

/// The invariant carried by one step whose state and action are `r`.
spec fn inv_after(s: MapPageStateChirho, e: MapPageEventChirho, r: (MapPageStateChirho, MapPageActionChirho),
    freed: Seq<u64>, allocated: Seq<u64>) -> bool {
    map_inv(r.0, freed + freed_by(r.1), allocated + got_table(s, e))
}

proof fn lemma_inv_descend(s: MapPageStateChirho, level: u64, e: MapPageEventChirho, freed: Seq<u64>, allocated: Seq<u64>)
    requires
        s.phase_chirho == (MapPhaseChirho::DescendChirho { level_chirho: level }),
        map_inv(s, freed, allocated),
        map_answers(s.phase_chirho, e),
    ensures
        inv_after(s, e, step_descend(s, level, e), freed, allocated),
{
    let r = step_descend(s, level, e);
    assert(freed + freed_by(r.1) =~= freed);
    assert(allocated + got_table(s, e) =~= allocated);
    if let MapPageEventChirho::EntryChirho(x) = e {
        match map_descend(level as int, x) {
            MapDescendChirho::FailChirho(err) => {
                assert(new_tables_above(s, 2) =~= Seq::<u64>::empty());
                lemma_undo_inv(s, 3, err, freed);
            },
            MapDescendChirho::DescendChirho(next) => {
                assert(new_tables_above(r.0, -1) =~= new_tables_above(s, -1));
            },
            _ => {},
        }
    }
}

proof fn lemma_inv_alloc(s: MapPageStateChirho, level: u64, e: MapPageEventChirho, freed: Seq<u64>, allocated: Seq<u64>)
    requires
        s.phase_chirho == (MapPhaseChirho::AllocChirho { level_chirho: level }),
        map_inv(s, freed, allocated),
        map_answers(s.phase_chirho, e),
    ensures
        inv_after(s, e, step_alloc(s, level, e), freed, allocated),
{
    let r = step_alloc(s, level, e);
    assert(freed + freed_by(r.1) =~= freed);
    match e {
        MapPageEventChirho::FrameChirho(Some(f)) => {
            assert(new_tables_above(r.0, -1) =~= allocated + seq![f]);
        },
        MapPageEventChirho::FrameChirho(None) => {
            assert(allocated + got_table(s, e) =~= allocated);
            assert(new_tables_above(s, 2) =~= Seq::<u64>::empty());
            lemma_undo_inv(s, 3, PageMapErrorChirho::IntermediateFrameExhaustedChirho, freed);
        },
        _ => {},
    }
}

proof fn lemma_inv_link(s: MapPageStateChirho, level: u64, e: MapPageEventChirho, freed: Seq<u64>, allocated: Seq<u64>)
    requires
        s.phase_chirho == (MapPhaseChirho::LinkChirho { level_chirho: level }),
        map_inv(s, freed, allocated),
        map_answers(s.phase_chirho, e),
    ensures
        inv_after(s, e, step_link(s, level, e), freed, allocated),
{
    let r = step_link(s, level, e);
    assert(freed + freed_by(r.1) =~= freed);
    assert(allocated + got_table(s, e) =~= allocated);
    assert(new_tables_above(r.0, -1) =~= new_tables_above(s, -1));
}

proof fn lemma_inv_leaf_side(s: MapPageStateChirho, e: MapPageEventChirho, freed: Seq<u64>, allocated: Seq<u64>)
    requires
        s.phase_chirho is LeafChirho || s.phase_chirho is RetainChirho || s.phase_chirho is PublishedChirho
            || s.phase_chirho is ReleaseOldChirho || s.phase_chirho is RestoredChirho || s.phase_chirho is ReleaseNewChirho,
        map_inv(s, freed, allocated),
        map_answers(s.phase_chirho, e),
    ensures
        inv_after(s, e, map_page_step_spec(s, e), freed, allocated),
{
    let r = map_page_step_spec(s, e);
    assert(allocated + got_table(s, e) =~= allocated);
    assert(new_tables_above(s, 2) =~= Seq::<u64>::empty());
    assert(freed + freed_by(r.1) =~= freed);
    match s.phase_chirho {
        MapPhaseChirho::LeafChirho => {
            if let MapPageEventChirho::EntryChirho(x) = e {
                let s1 = MapPageStateChirho { old_entry_chirho: x, ..s };
                assert(new_tables_above(s1, 2) =~= Seq::<u64>::empty());
                assert(new_tables_above(s1, -1) =~= new_tables_above(s, -1));
                lemma_undo_inv(s1, 3, PageMapErrorChirho::OwnershipClassChangeChirho, freed);
            }
        },
        MapPhaseChirho::RetainChirho => lemma_undo_inv(s, 3, PageMapErrorChirho::LeafRetainChirho, freed),
        MapPhaseChirho::RestoredChirho => lemma_undo_inv(s, 3, PageMapErrorChirho::ReplacedLeafReleaseChirho, freed),
        MapPhaseChirho::ReleaseNewChirho => lemma_undo_inv(s, 3, PageMapErrorChirho::ReplacedLeafReleaseChirho, freed),
        _ => {},
    }
}

proof fn lemma_inv_undo(s: MapPageStateChirho, e: MapPageEventChirho, freed: Seq<u64>, allocated: Seq<u64>)
    requires
        s.phase_chirho is UndoClearChirho || s.phase_chirho is UndoFreeChirho,
        map_inv(s, freed, allocated),
        map_answers(s.phase_chirho, e),
    ensures
        inv_after(s, e, map_page_step_spec(s, e), freed, allocated),
{
    let r = map_page_step_spec(s, e);
    assert(allocated + got_table(s, e) =~= allocated);
    match s.phase_chirho {
        MapPhaseChirho::UndoClearChirho { level_chirho } => {
            assert(freed + freed_by(r.1) =~= new_tables_above(s, level_chirho - 1).reverse());
        },
        MapPhaseChirho::UndoFreeChirho { level_chirho } => {
            assert(freed + freed_by(r.1) =~= freed);
            lemma_undo_inv(s, level_chirho as int, s.error_chirho, freed);
        },
        _ => {},
    }
}

proof fn lemma_map_step_inv(s: MapPageStateChirho, e: MapPageEventChirho, freed: Seq<u64>, allocated: Seq<u64>)
    requires
        map_inv(s, freed, allocated),
        map_answers(s.phase_chirho, e),
    ensures
        inv_after(s, e, map_page_step_spec(s, e), freed, allocated),
{
    let r = map_page_step_spec(s, e);
    match s.phase_chirho {
        MapPhaseChirho::BeginChirho => {
            assert(freed + freed_by(r.1) =~= freed);
            assert(allocated + got_table(s, e) =~= allocated);
            assert(new_tables_above(r.0, -1) =~= new_tables_above(s, -1));
        },
        MapPhaseChirho::DescendChirho { level_chirho } => lemma_inv_descend(s, level_chirho, e, freed, allocated),
        MapPhaseChirho::AllocChirho { level_chirho } => lemma_inv_alloc(s, level_chirho, e, freed, allocated),
        MapPhaseChirho::LinkChirho { level_chirho } => lemma_inv_link(s, level_chirho, e, freed, allocated),
        MapPhaseChirho::UndoClearChirho { .. } => lemma_inv_undo(s, e, freed, allocated),
        MapPhaseChirho::UndoFreeChirho { .. } => lemma_inv_undo(s, e, freed, allocated),
        MapPhaseChirho::LeafChirho => lemma_inv_leaf_side(s, e, freed, allocated),
        MapPhaseChirho::RetainChirho => lemma_inv_leaf_side(s, e, freed, allocated),
        MapPhaseChirho::PublishedChirho => lemma_inv_leaf_side(s, e, freed, allocated),
        MapPhaseChirho::ReleaseOldChirho => lemma_inv_leaf_side(s, e, freed, allocated),
        MapPhaseChirho::RestoredChirho => lemma_inv_leaf_side(s, e, freed, allocated),
        MapPhaseChirho::ReleaseNewChirho => lemma_inv_leaf_side(s, e, freed, allocated),
        _ => {
            assert(allocated + got_table(s, e) =~= allocated);
            assert(new_tables_above(r.0, -1) =~= new_tables_above(s, -1));
        },
    }
}

/// The phases a mapping is in once its new leaf is published and until
/// it has succeeded: none of them fails without first putting the old
/// leaf back.
spec fn published_phase(p: MapPhaseChirho) -> bool {
    ||| p is PublishedChirho
    ||| p is ReleaseOldChirho
    ||| p is ZeroOldChirho
    ||| p is FreeOldChirho
    ||| p is FixupReadChirho
    ||| p is FixupWriteChirho
    ||| p == MapPhaseChirho::FinishedChirho(Ok(()))
}

/// What one answered step says of the actions around it.
#[verifier::spinoff_prover]
proof fn lemma_map_step_fixed(s: MapPageStateChirho, e: MapPageEventChirho)
    requires
        map_answers(s.phase_chirho, e),
    ensures
        ({
            let (t, a) = map_page_step_spec(s, e);
            &&& t.vaddr_chirho == s.vaddr_chirho && t.paddr_chirho == s.paddr_chirho
            &&& t.flags_chirho == s.flags_chirho && t.pml4_chirho == s.pml4_chirho
        }),
{
    match s.phase_chirho {
        MapPhaseChirho::LeafChirho => {
            if let MapPageEventChirho::EntryChirho(x) = e {
                assert(map_page_step_spec(s, e) == on_leaf(s, x));
                match leaf_plan(x, s.paddr_chirho, s.flags_chirho) {
                    Ok(p) => {
                        assert(!(on_leaf(s, x).0.phase_chirho is AllocChirho));
                        assert(!(on_leaf(s, x).1 is AllocateTableChirho));
                    },
                    Err(err) => {
                        let s1 = MapPageStateChirho { old_entry_chirho: x, ..s };
                        let u = deepest_new(s1, 3);
                        if u >= 0 {
                            assert(undo_from(s1, 3, err).0.phase_chirho == (MapPhaseChirho::UndoClearChirho { level_chirho: u as u64 }));
                        } else {
                            assert(undo_from(s1, 3, err).0.phase_chirho == MapPhaseChirho::FinishedChirho(Err(err)));
                        }
                    },
                }
            }
        },
        MapPhaseChirho::DescendChirho { level_chirho } => {
            if let MapPageEventChirho::EntryChirho(x) = e {
                match map_descend(level_chirho as int, x) {
                    MapDescendChirho::DescendChirho(n) => {},
                    _ => {},
                }
            }
        },
        MapPhaseChirho::AllocChirho { .. } => {},
        MapPhaseChirho::LinkChirho { .. } => {},
        MapPhaseChirho::BeginChirho => {},
        MapPhaseChirho::RetainChirho => {},
        MapPhaseChirho::PublishedChirho => {},
        MapPhaseChirho::ReleaseOldChirho => {},
        MapPhaseChirho::ZeroOldChirho => {},
        MapPhaseChirho::FreeOldChirho => {},
        MapPhaseChirho::FixupReadChirho { .. } => {},
        MapPhaseChirho::FixupWriteChirho { .. } => {},
        MapPhaseChirho::RestoredChirho => {},
        MapPhaseChirho::ReleaseNewChirho => {},
        MapPhaseChirho::UndoClearChirho { .. } => {},
        MapPhaseChirho::UndoFreeChirho { .. } => {},
        MapPhaseChirho::FinishedChirho(_) => {},
    }
}


#[verifier::spinoff_prover]
proof fn lemma_map_step_order(s: MapPageStateChirho, e: MapPageEventChirho)
    requires
        map_answers(s.phase_chirho, e),
    ensures
        ({
            let (t, a) = map_page_step_spec(s, e);
            &&& t.phase_chirho is RetainChirho ==> a == MapPageActionChirho::RetainChirho(s.paddr_chirho)
            &&& a is PublishLeafChirho ==> (s.phase_chirho is RetainChirho && e matches MapPageEventChirho::RetainedChirho(Ok(_)))
                || (s.phase_chirho is LeafChirho && !has_flag(s.flags_chirho, 0x4))
            &&& t.phase_chirho is PublishedChirho <==> a is PublishLeafChirho
            &&& t.phase_chirho is RestoredChirho ==> a is RestoreLeafChirho
            &&& a matches MapPageActionChirho::ReleaseChirho(p) ==> e is AckChirho
                && ((s.phase_chirho is PublishedChirho && p == entry_addr(s.old_entry_chirho))
                    || (s.phase_chirho is RestoredChirho && p == s.paddr_chirho))
        }),
{
    match s.phase_chirho {
        MapPhaseChirho::LeafChirho => {
            if let MapPageEventChirho::EntryChirho(x) = e {
                assert(map_page_step_spec(s, e) == on_leaf(s, x));
                match leaf_plan(x, s.paddr_chirho, s.flags_chirho) {
                    Ok(p) => {
                        assert(!(on_leaf(s, x).0.phase_chirho is AllocChirho));
                        assert(!(on_leaf(s, x).1 is AllocateTableChirho));
                    },
                    Err(err) => {
                        let s1 = MapPageStateChirho { old_entry_chirho: x, ..s };
                        let u = deepest_new(s1, 3);
                        if u >= 0 {
                            assert(undo_from(s1, 3, err).0.phase_chirho == (MapPhaseChirho::UndoClearChirho { level_chirho: u as u64 }));
                        } else {
                            assert(undo_from(s1, 3, err).0.phase_chirho == MapPhaseChirho::FinishedChirho(Err(err)));
                        }
                    },
                }
            }
        },
        MapPhaseChirho::DescendChirho { level_chirho } => {
            if let MapPageEventChirho::EntryChirho(x) = e {
                match map_descend(level_chirho as int, x) {
                    MapDescendChirho::DescendChirho(n) => {},
                    _ => {},
                }
            }
        },
        MapPhaseChirho::AllocChirho { .. } => {},
        MapPhaseChirho::LinkChirho { .. } => {},
        MapPhaseChirho::BeginChirho => {},
        MapPhaseChirho::RetainChirho => {},
        MapPhaseChirho::PublishedChirho => {},
        MapPhaseChirho::ReleaseOldChirho => {},
        MapPhaseChirho::ZeroOldChirho => {},
        MapPhaseChirho::FreeOldChirho => {},
        MapPhaseChirho::FixupReadChirho { .. } => {},
        MapPhaseChirho::FixupWriteChirho { .. } => {},
        MapPhaseChirho::RestoredChirho => {},
        MapPhaseChirho::ReleaseNewChirho => {},
        MapPhaseChirho::UndoClearChirho { .. } => {},
        MapPhaseChirho::UndoFreeChirho { .. } => {},
        MapPhaseChirho::FinishedChirho(_) => {},
    }
}


#[verifier::spinoff_prover]
proof fn lemma_map_step_done(s: MapPageStateChirho, e: MapPageEventChirho)
    requires
        map_answers(s.phase_chirho, e),
    ensures
        ({
            let (t, a) = map_page_step_spec(s, e);
            &&& a matches MapPageActionChirho::DoneChirho(x) ==> t.phase_chirho == MapPhaseChirho::FinishedChirho(x)
            &&& published_phase(s.phase_chirho) ==> (published_phase(t.phase_chirho) && !(a matches MapPageActionChirho::DoneChirho(Err(_))))
                || a is RestoreLeafChirho
        }),
{
    match s.phase_chirho {
        MapPhaseChirho::LeafChirho => {
            if let MapPageEventChirho::EntryChirho(x) = e {
                assert(map_page_step_spec(s, e) == on_leaf(s, x));
                match leaf_plan(x, s.paddr_chirho, s.flags_chirho) {
                    Ok(p) => {
                        assert(!(on_leaf(s, x).0.phase_chirho is AllocChirho));
                        assert(!(on_leaf(s, x).1 is AllocateTableChirho));
                    },
                    Err(err) => {
                        let s1 = MapPageStateChirho { old_entry_chirho: x, ..s };
                        let u = deepest_new(s1, 3);
                        if u >= 0 {
                            assert(undo_from(s1, 3, err).0.phase_chirho == (MapPhaseChirho::UndoClearChirho { level_chirho: u as u64 }));
                        } else {
                            assert(undo_from(s1, 3, err).0.phase_chirho == MapPhaseChirho::FinishedChirho(Err(err)));
                        }
                    },
                }
            }
        },
        MapPhaseChirho::DescendChirho { level_chirho } => {
            if let MapPageEventChirho::EntryChirho(x) = e {
                match map_descend(level_chirho as int, x) {
                    MapDescendChirho::DescendChirho(n) => {},
                    _ => {},
                }
            }
        },
        MapPhaseChirho::AllocChirho { .. } => {},
        MapPhaseChirho::LinkChirho { .. } => {},
        MapPhaseChirho::BeginChirho => {},
        MapPhaseChirho::RetainChirho => {},
        MapPhaseChirho::PublishedChirho => {},
        MapPhaseChirho::ReleaseOldChirho => {},
        MapPhaseChirho::ZeroOldChirho => {},
        MapPhaseChirho::FreeOldChirho => {},
        MapPhaseChirho::FixupReadChirho { .. } => {},
        MapPhaseChirho::FixupWriteChirho { .. } => {},
        MapPhaseChirho::RestoredChirho => {},
        MapPhaseChirho::ReleaseNewChirho => {},
        MapPhaseChirho::UndoClearChirho { .. } => {},
        MapPhaseChirho::UndoFreeChirho { .. } => {},
        MapPhaseChirho::FinishedChirho(_) => {},
    }
}


#[verifier::spinoff_prover]
proof fn lemma_map_step_alloc(s: MapPageStateChirho, e: MapPageEventChirho)
    requires
        map_answers(s.phase_chirho, e),
    ensures
        ({
            let (t, a) = map_page_step_spec(s, e);
            &&& (t.phase_chirho is AllocChirho) == (a is AllocateTableChirho)
        }),
{
    match s.phase_chirho {
        MapPhaseChirho::LeafChirho => {
            if let MapPageEventChirho::EntryChirho(x) = e {
                assert(map_page_step_spec(s, e) == on_leaf(s, x));
                match leaf_plan(x, s.paddr_chirho, s.flags_chirho) {
                    Ok(p) => {
                        assert(!(on_leaf(s, x).0.phase_chirho is AllocChirho));
                        assert(!(on_leaf(s, x).1 is AllocateTableChirho));
                    },
                    Err(err) => {
                        let s1 = MapPageStateChirho { old_entry_chirho: x, ..s };
                        let u = deepest_new(s1, 3);
                        if u >= 0 {
                            assert(undo_from(s1, 3, err).0.phase_chirho == (MapPhaseChirho::UndoClearChirho { level_chirho: u as u64 }));
                        } else {
                            assert(undo_from(s1, 3, err).0.phase_chirho == MapPhaseChirho::FinishedChirho(Err(err)));
                        }
                    },
                }
            }
        },
        MapPhaseChirho::DescendChirho { level_chirho } => {
            if let MapPageEventChirho::EntryChirho(x) = e {
                match map_descend(level_chirho as int, x) {
                    MapDescendChirho::DescendChirho(n) => {},
                    _ => {},
                }
            }
        },
        MapPhaseChirho::AllocChirho { .. } => {},
        MapPhaseChirho::LinkChirho { .. } => {},
        MapPhaseChirho::BeginChirho => {},
        MapPhaseChirho::RetainChirho => {},
        MapPhaseChirho::PublishedChirho => {},
        MapPhaseChirho::ReleaseOldChirho => {},
        MapPhaseChirho::ZeroOldChirho => {},
        MapPhaseChirho::FreeOldChirho => {},
        MapPhaseChirho::FixupReadChirho { .. } => {},
        MapPhaseChirho::FixupWriteChirho { .. } => {},
        MapPhaseChirho::RestoredChirho => {},
        MapPhaseChirho::ReleaseNewChirho => {},
        MapPhaseChirho::UndoClearChirho { .. } => {},
        MapPhaseChirho::UndoFreeChirho { .. } => {},
        MapPhaseChirho::FinishedChirho(_) => {},
    }
}


proof fn lemma_map_step_facts(s: MapPageStateChirho, e: MapPageEventChirho)
    requires
        map_answers(s.phase_chirho, e),
    ensures
        ({
            let (t, a) = map_page_step_spec(s, e);
            &&& t.vaddr_chirho == s.vaddr_chirho && t.paddr_chirho == s.paddr_chirho
            &&& t.flags_chirho == s.flags_chirho && t.pml4_chirho == s.pml4_chirho
            &&& t.phase_chirho is RetainChirho ==> a == MapPageActionChirho::RetainChirho(s.paddr_chirho)
            &&& a is PublishLeafChirho ==> (s.phase_chirho is RetainChirho && e matches MapPageEventChirho::RetainedChirho(Ok(_)))
                || (s.phase_chirho is LeafChirho && !has_flag(s.flags_chirho, 0x4))
            &&& t.phase_chirho is PublishedChirho <==> a is PublishLeafChirho
            &&& t.phase_chirho is RestoredChirho ==> a is RestoreLeafChirho
            &&& a matches MapPageActionChirho::ReleaseChirho(p) ==> e is AckChirho
                && ((s.phase_chirho is PublishedChirho && p == entry_addr(s.old_entry_chirho))
                    || (s.phase_chirho is RestoredChirho && p == s.paddr_chirho))
            &&& a matches MapPageActionChirho::DoneChirho(x) ==> t.phase_chirho == MapPhaseChirho::FinishedChirho(x)
            &&& published_phase(s.phase_chirho) ==> (published_phase(t.phase_chirho) && !(a matches MapPageActionChirho::DoneChirho(Err(_))))
                || a is RestoreLeafChirho
            &&& (t.phase_chirho is AllocChirho) == (a is AllocateTableChirho)
        }),
{
    lemma_map_step_fixed(s, e);
    lemma_map_step_order(s, e);
    lemma_map_step_done(s, e);
    lemma_map_step_alloc(s, e);
}

proof fn lemma_map_state_fixed(s0: MapPageStateChirho, es: Seq<MapPageEventChirho>, i: nat)
    requires
        i <= es.len(),
        map_answered(s0, es, i),
    ensures
        map_state_at(s0, es, i).vaddr_chirho == s0.vaddr_chirho,
        map_state_at(s0, es, i).paddr_chirho == s0.paddr_chirho,
        map_state_at(s0, es, i).flags_chirho == s0.flags_chirho,
        map_state_at(s0, es, i).pml4_chirho == s0.pml4_chirho,
    decreases i,
{
    if i > 0 {
        let k = (i - 1) as nat;
        lemma_map_state_fixed(s0, es, k);
        assert(map_answers(map_state_at(s0, es, k).phase_chirho, es[k as int]));
        lemma_map_step_facts(map_state_at(s0, es, k), es[k as int]);
    }
}

proof fn lemma_map_run_inv(s0: MapPageStateChirho, es: Seq<MapPageEventChirho>, n: nat)
    requires
        s0 == map_page_start(s0.pml4_chirho, s0.vaddr_chirho, s0.paddr_chirho, s0.flags_chirho),
        n <= es.len(),
        map_answered(s0, es, n),
    ensures
        map_inv(map_state_at(s0, es, n), map_frames_freed(s0, es, n), map_frames_allocated(s0, es, n)),
    decreases n,
{
    if n == 0 {
        assert(new_tables_above(s0, -1) =~= Seq::<u64>::empty());
    } else {
        let k = (n - 1) as nat;
        lemma_map_run_inv(s0, es, k);
        let sk = map_state_at(s0, es, k);
        assert(map_answers(sk.phase_chirho, es[k as int]));
        lemma_map_step_inv(sk, es[k as int], map_frames_freed(s0, es, k), map_frames_allocated(s0, es, k));
        if k == 0 {
            assert(map_frames_allocated(s0, es, n) =~= map_frames_allocated(s0, es, k) + got_table(sk, es[k as int]));
        } else {
            let j = (k - 1) as nat;
            assert(map_answers(map_state_at(s0, es, j).phase_chirho, es[j as int]));
            lemma_map_step_facts(map_state_at(s0, es, j), es[j as int]);
            assert(map_frames_allocated(s0, es, n) =~= map_frames_allocated(s0, es, k) + got_table(sk, es[k as int]));
        }
    }
}

/// A new user leaf is published only once the ownership table has counted
/// it: in any run of answered events from a start state, an action that
/// publishes the leaf of a user mapping comes right after a `Retain` of the
/// frame that was answered `Ok`.
pub proof fn lemma_map_retain_before_publish(s0: MapPageStateChirho, es: Seq<MapPageEventChirho>, i: nat)
    requires
        s0 == map_page_start(s0.pml4_chirho, s0.vaddr_chirho, s0.paddr_chirho, s0.flags_chirho),
        i < es.len(),
        map_answered(s0, es, i + 1),
    ensures
        map_action_at(s0, es, i) is PublishLeafChirho && has_flag(s0.flags_chirho, PTE_USER_CHIRHO) ==> {
            &&& i >= 1
            &&& map_action_at(s0, es, (i - 1) as nat) == MapPageActionChirho::RetainChirho(s0.paddr_chirho)
            &&& es[i as int] matches MapPageEventChirho::RetainedChirho(Ok(_))
        },
{
    lemma_map_state_fixed(s0, es, i);
    assert(map_answers(map_state_at(s0, es, i).phase_chirho, es[i as int]));
    lemma_map_step_facts(map_state_at(s0, es, i), es[i as int]);
    if i >= 1 {
        let k = (i - 1) as nat;
        lemma_map_state_fixed(s0, es, k);
        assert(map_answers(map_state_at(s0, es, k).phase_chirho, es[k as int]));
        lemma_map_step_facts(map_state_at(s0, es, k), es[k as int]);
    }
}

/// A leaf's frame is released only right after a leaf write: the replaced
/// leaf's frame once the new leaf is published, the new frame once the old
/// leaf is put back.
pub proof fn lemma_map_release_after_leaf_write(s0: MapPageStateChirho, es: Seq<MapPageEventChirho>, i: nat)
    requires
        s0 == map_page_start(s0.pml4_chirho, s0.vaddr_chirho, s0.paddr_chirho, s0.flags_chirho),
        i < es.len(),
        map_answered(s0, es, i + 1),
    ensures
        map_action_at(s0, es, i) matches MapPageActionChirho::ReleaseChirho(p) ==> {
            &&& i >= 1
            &&& es[i as int] is AckChirho
            &&& (map_action_at(s0, es, (i - 1) as nat) is PublishLeafChirho
                    && p == entry_addr(map_state_at(s0, es, i).old_entry_chirho))
                || (map_action_at(s0, es, (i - 1) as nat) is RestoreLeafChirho && p == s0.paddr_chirho)
        },
{
    lemma_map_state_fixed(s0, es, i);
    assert(map_answers(map_state_at(s0, es, i).phase_chirho, es[i as int]));
    lemma_map_step_facts(map_state_at(s0, es, i), es[i as int]);
    if i >= 1 {
        let k = (i - 1) as nat;
        assert(map_answers(map_state_at(s0, es, k).phase_chirho, es[k as int]));
        lemma_map_step_facts(map_state_at(s0, es, k), es[k as int]);
    }
}

#[verifier::rlimit(50)]
#[verifier::spinoff_prover]
proof fn lemma_map_after_publish(s0: MapPageStateChirho, es: Seq<MapPageEventChirho>, j: nat, m: nat)
    requires
        j < m <= es.len(),
        map_answered(s0, es, m),
        map_action_at(s0, es, j) is PublishLeafChirho,
    ensures
        published_phase(map_state_at(s0, es, m).phase_chirho)
            || exists|k: nat| j < k < m && #[trigger] map_action_at(s0, es, k) is RestoreLeafChirho,
    decreases m - j,
{
    let k = (m - 1) as nat;
    let sk = map_state_at(s0, es, k);
    let r = map_page_step_spec(sk, es[k as int]);
    assert(map_state_at(s0, es, m) == r.0);
    assert(map_action_at(s0, es, k) == r.1);
    assert(map_answers(sk.phase_chirho, es[k as int]));
    lemma_map_step_order(sk, es[k as int]);
    lemma_map_step_done(sk, es[k as int]);
    if k > j {
        assert(map_answered(s0, es, k));
        lemma_map_after_publish(s0, es, j, k);
        if r.1 is RestoreLeafChirho {
            assert(j < k < m && map_action_at(s0, es, k) is RestoreLeafChirho);
        }
    }
}

/// A mapping that fails after publishing its new leaf has put the old leaf
/// back first.
pub proof fn lemma_map_error_restores_leaf(s0: MapPageStateChirho, es: Seq<MapPageEventChirho>, j: nat, i: nat)
    requires
        s0 == map_page_start(s0.pml4_chirho, s0.vaddr_chirho, s0.paddr_chirho, s0.flags_chirho),
        j < i < es.len(),
        map_answered(s0, es, i + 1),
        map_action_at(s0, es, j) is PublishLeafChirho,
        map_action_at(s0, es, i) matches MapPageActionChirho::DoneChirho(Err(_)),
    ensures
        exists|k: nat| j < k < i && #[trigger] map_action_at(s0, es, k) is RestoreLeafChirho,
{
    lemma_map_after_publish(s0, es, j, i);
    assert(map_answers(map_state_at(s0, es, i).phase_chirho, es[i as int]));
    lemma_map_step_done(map_state_at(s0, es, i), es[i as int]);
}

/// A mapping that fails (but for a refused rollback of the new leaf's
/// count) has freed exactly the tables it made, each once, deepest first:
/// the frames freed are those handed back for its tables, in reverse.
pub proof fn lemma_map_error_frees_new_tables(s0: MapPageStateChirho, es: Seq<MapPageEventChirho>, i: nat)
    requires
        s0 == map_page_start(s0.pml4_chirho, s0.vaddr_chirho, s0.paddr_chirho, s0.flags_chirho),
        i < es.len(),
        map_answered(s0, es, i + 1),
        map_action_at(s0, es, i) matches MapPageActionChirho::DoneChirho(Err(e))
            && e != PageMapErrorChirho::RollbackLeafReleaseChirho,
    ensures
        map_frames_freed(s0, es, i + 1) == map_frames_allocated(s0, es, i + 1).reverse(),
{
    lemma_map_run_inv(s0, es, i + 1);
    assert(map_answers(map_state_at(s0, es, i).phase_chirho, es[i as int]));
    lemma_map_step_facts(map_state_at(s0, es, i), es[i as int]);
}

fn table_at_chirho(s: &MapPageStateChirho, level: u64) -> (r: u64)
    ensures
        r == table_at(*s, level as int),
{
    if level == 0 { s.pml4_chirho } else if level == 1 { s.pdpt_chirho } else if level == 2 { s.pd_chirho } else { s.pt_chirho }
}

fn index_chirho(vaddr: u64, level: u64) -> (r: u64)
    requires
        level < 4,
    ensures
        r == pt_index(vaddr, level as int),
{
    pt_index_chirho(vaddr, level as usize) as u64
}

fn with_child_chirho(s: MapPageStateChirho, level: u64, t: u64) -> (r: MapPageStateChirho)
    ensures
        r == with_child(s, level as int, t),
{
    if level == 0 {
        MapPageStateChirho { pdpt_chirho: t, ..s }
    } else if level == 1 {
        MapPageStateChirho { pd_chirho: t, ..s }
    } else {
        MapPageStateChirho { pt_chirho: t, ..s }
    }
}

fn with_new_chirho(s: MapPageStateChirho, level: u64) -> (r: MapPageStateChirho)
    ensures
        r == with_new(s, level as int),
{
    if level == 0 {
        MapPageStateChirho { new_pdpt_chirho: true, ..s }
    } else if level == 1 {
        MapPageStateChirho { new_pd_chirho: true, ..s }
    } else {
        MapPageStateChirho { new_pt_chirho: true, ..s }
    }
}

fn undo_from_chirho(s: MapPageStateChirho, below: u64, err: PageMapErrorChirho) -> (r: (MapPageStateChirho, MapPageActionChirho))
    requires
        below <= 3,
    ensures
        r == undo_from(s, below as int, err),
{
    let u: u64 = if below >= 3 && s.new_pt_chirho {
        2
    } else if below >= 2 && s.new_pd_chirho {
        1
    } else if below >= 1 && s.new_pdpt_chirho {
        0
    } else {
        return (MapPageStateChirho { phase_chirho: MapPhaseChirho::FinishedChirho(Err(err)), error_chirho: err, ..s },
            MapPageActionChirho::DoneChirho(Err(err)));
    };
    (MapPageStateChirho { phase_chirho: MapPhaseChirho::UndoClearChirho { level_chirho: u }, error_chirho: err, ..s },
        MapPageActionChirho::WriteEntryChirho { table_chirho: table_at_chirho(&s, u), index_chirho: index_chirho(s.vaddr_chirho, u),
            value_chirho: 0 })
}

fn descend_to_chirho(s: MapPageStateChirho, level: u64, next: u64) -> (r: (MapPageStateChirho, MapPageActionChirho))
    requires
        level <= 2,
    ensures
        r == descend_to(s, level as int, next),
{
    let s1 = with_child_chirho(s, level, next);
    if level < 2 {
        (MapPageStateChirho { phase_chirho: MapPhaseChirho::DescendChirho { level_chirho: level + 1 }, ..s1 },
            MapPageActionChirho::ReadEntryChirho { table_chirho: next, index_chirho: index_chirho(s.vaddr_chirho, level + 1) })
    } else {
        (MapPageStateChirho { phase_chirho: MapPhaseChirho::LeafChirho, ..s1 },
            MapPageActionChirho::ReadEntryChirho { table_chirho: next, index_chirho: index_chirho(s.vaddr_chirho, 3) })
    }
}

fn fixup_or_done_chirho(s: MapPageStateChirho) -> (r: (MapPageStateChirho, MapPageActionChirho))
    ensures
        r == fixup_or_done(s),
{
    if s.new_owned_chirho {
        (MapPageStateChirho { phase_chirho: MapPhaseChirho::FixupReadChirho { level_chirho: 0 }, ..s },
            MapPageActionChirho::ReadEntryChirho { table_chirho: s.pml4_chirho, index_chirho: index_chirho(s.vaddr_chirho, 0) })
    } else {
        (MapPageStateChirho { phase_chirho: MapPhaseChirho::FinishedChirho(Ok(())), ..s }, MapPageActionChirho::DoneChirho(Ok(())))
    }
}

fn fixup_next_chirho(s: MapPageStateChirho, level: u64) -> (r: (MapPageStateChirho, MapPageActionChirho))
    requires
        level <= 2,
    ensures
        r == fixup_next(s, level as int),
{
    if level < 2 {
        (MapPageStateChirho { phase_chirho: MapPhaseChirho::FixupReadChirho { level_chirho: level + 1 }, ..s },
            MapPageActionChirho::ReadEntryChirho { table_chirho: table_at_chirho(&s, level + 1), index_chirho: index_chirho(s.vaddr_chirho, level + 1) })
    } else {
        (MapPageStateChirho { phase_chirho: MapPhaseChirho::FinishedChirho(Ok(())), ..s }, MapPageActionChirho::DoneChirho(Ok(())))
    }
}

fn on_leaf_chirho(s: MapPageStateChirho, old: u64) -> (r: (MapPageStateChirho, MapPageActionChirho))
    ensures
        r == on_leaf(s, old),
{
    match map_leaf_plan_chirho(old, s.paddr_chirho, s.flags_chirho) {
        Err(err) => undo_from_chirho(MapPageStateChirho { old_entry_chirho: old, ..s }, 3, err),
        Ok(p) => {
            let s1 = MapPageStateChirho {
                old_entry_chirho: old,
                old_owned_chirho: p.old_owned_chirho,
                new_owned_chirho: p.new_owned_chirho,
                new_entry_chirho: p.new_entry_chirho,
                ..s
            };
            if p.new_owned_chirho {
                (MapPageStateChirho { phase_chirho: MapPhaseChirho::RetainChirho, ..s1 }, MapPageActionChirho::RetainChirho(s.paddr_chirho))
            } else {
                (MapPageStateChirho { phase_chirho: MapPhaseChirho::PublishedChirho, new_managed_chirho: false, ..s1 },
                    MapPageActionChirho::PublishLeafChirho { table_chirho: s.pt_chirho, index_chirho: index_chirho(s.vaddr_chirho, 3),
                        value_chirho: p.new_entry_chirho })
            }
        },
    }
}

fn step_begin_chirho(s: MapPageStateChirho, e: MapPageEventChirho) -> (r: (MapPageStateChirho, MapPageActionChirho))
    ensures
        r == step_begin(s, e),
{
    let wait = (s, MapPageActionChirho::WaitChirho);
    match e {
        MapPageEventChirho::StartChirho => match map_page_precheck_chirho(s.vaddr_chirho, s.paddr_chirho, s.flags_chirho) {
            Err(err) => (MapPageStateChirho { phase_chirho: MapPhaseChirho::FinishedChirho(Err(err)), ..s },
                MapPageActionChirho::DoneChirho(Err(err))),
            Ok(tf) => (MapPageStateChirho { phase_chirho: MapPhaseChirho::DescendChirho { level_chirho: 0 }, table_flags_chirho: tf, ..s },
                MapPageActionChirho::ReadEntryChirho { table_chirho: s.pml4_chirho, index_chirho: index_chirho(s.vaddr_chirho, 0) }),
        },
        _ => wait,
    }
}

fn step_descend_chirho(s: MapPageStateChirho, level_chirho: u64, e: MapPageEventChirho) -> (r: (MapPageStateChirho, MapPageActionChirho))
    ensures
        r == step_descend(s, level_chirho, e),
{
    let wait = (s, MapPageActionChirho::WaitChirho);
    match e {
        MapPageEventChirho::EntryChirho(x) => if level_chirho > 2 { wait } else {
            match map_descend_chirho(level_chirho as usize, x) {
                MapDescendChirho::DescendChirho(next) => descend_to_chirho(s, level_chirho, next),
                MapDescendChirho::AllocateChirho => (MapPageStateChirho { phase_chirho: MapPhaseChirho::AllocChirho { level_chirho }, ..s },
                    MapPageActionChirho::AllocateTableChirho),
                MapDescendChirho::FailChirho(err) => undo_from_chirho(s, 3, err),
            }
        },
        _ => wait,
    }
}

fn step_alloc_chirho(s: MapPageStateChirho, level_chirho: u64, e: MapPageEventChirho) -> (r: (MapPageStateChirho, MapPageActionChirho))
    ensures
        r == step_alloc(s, level_chirho, e),
{
    let wait = (s, MapPageActionChirho::WaitChirho);
    match e {
        MapPageEventChirho::FrameChirho(Some(f)) => if level_chirho > 2 { wait } else {
            (MapPageStateChirho { phase_chirho: MapPhaseChirho::LinkChirho { level_chirho },
                ..with_new_chirho(with_child_chirho(s, level_chirho, f), level_chirho) },
                MapPageActionChirho::WriteEntryChirho { table_chirho: table_at_chirho(&s, level_chirho),
                    index_chirho: index_chirho(s.vaddr_chirho, level_chirho), value_chirho: make_entry_chirho(f, s.table_flags_chirho) })
        },
        MapPageEventChirho::FrameChirho(None) => undo_from_chirho(s, 3, PageMapErrorChirho::IntermediateFrameExhaustedChirho),
        _ => wait,
    }
}

fn step_link_chirho(s: MapPageStateChirho, level_chirho: u64, e: MapPageEventChirho) -> (r: (MapPageStateChirho, MapPageActionChirho))
    ensures
        r == step_link(s, level_chirho, e),
{
    let wait = (s, MapPageActionChirho::WaitChirho);
    match e {
        MapPageEventChirho::AckChirho => if level_chirho > 2 { wait } else {
            let next = table_at_chirho(&s, level_chirho + 1);
            descend_to_chirho(s, level_chirho, next)
        },
        _ => wait,
    }
}

fn step_leaf_chirho(s: MapPageStateChirho, e: MapPageEventChirho) -> (r: (MapPageStateChirho, MapPageActionChirho))
    ensures
        r == step_leaf(s, e),
{
    let wait = (s, MapPageActionChirho::WaitChirho);
    match e {
        MapPageEventChirho::EntryChirho(x) => on_leaf_chirho(s, x),
        _ => wait,
    }
}

fn step_retain_chirho(s: MapPageStateChirho, e: MapPageEventChirho) -> (r: (MapPageStateChirho, MapPageActionChirho))
    ensures
        r == step_retain(s, e),
{
    let wait = (s, MapPageActionChirho::WaitChirho);
    match e {
        MapPageEventChirho::RetainedChirho(Ok(m)) =>
            (MapPageStateChirho { phase_chirho: MapPhaseChirho::PublishedChirho, new_managed_chirho: m, ..s },
                MapPageActionChirho::PublishLeafChirho { table_chirho: s.pt_chirho, index_chirho: index_chirho(s.vaddr_chirho, 3),
                    value_chirho: s.new_entry_chirho }),
        MapPageEventChirho::RetainedChirho(Err(_)) => undo_from_chirho(s, 3, PageMapErrorChirho::LeafRetainChirho),
        _ => wait,
    }
}

fn step_published_chirho(s: MapPageStateChirho, e: MapPageEventChirho) -> (r: (MapPageStateChirho, MapPageActionChirho))
    ensures
        r == step_published(s, e),
{
    let wait = (s, MapPageActionChirho::WaitChirho);
    match e {
        MapPageEventChirho::AckChirho => if s.old_owned_chirho {
            (MapPageStateChirho { phase_chirho: MapPhaseChirho::ReleaseOldChirho, ..s },
                MapPageActionChirho::ReleaseChirho(pt_entry_addr_chirho(s.old_entry_chirho)))
        } else {
            fixup_or_done_chirho(s)
        },
        _ => wait,
    }
}

fn step_release_old_chirho(s: MapPageStateChirho, e: MapPageEventChirho) -> (r: (MapPageStateChirho, MapPageActionChirho))
    ensures
        r == step_release_old(s, e),
{
    let wait = (s, MapPageActionChirho::WaitChirho);
    match e {
        MapPageEventChirho::ReleasedChirho(Ok(rel)) => if rel == LeafReleaseChirho::LastReferenceChirho {
            (MapPageStateChirho { phase_chirho: MapPhaseChirho::ZeroOldChirho, ..s },
                MapPageActionChirho::ZeroFrameChirho(pt_entry_addr_chirho(s.old_entry_chirho)))
        } else {
            fixup_or_done_chirho(s)
        },
        MapPageEventChirho::ReleasedChirho(Err(_)) => (MapPageStateChirho { phase_chirho: MapPhaseChirho::RestoredChirho, ..s },
            MapPageActionChirho::RestoreLeafChirho { table_chirho: s.pt_chirho, index_chirho: index_chirho(s.vaddr_chirho, 3),
                value_chirho: s.old_entry_chirho }),
        _ => wait,
    }
}

fn step_zero_old_chirho(s: MapPageStateChirho, e: MapPageEventChirho) -> (r: (MapPageStateChirho, MapPageActionChirho))
    ensures
        r == step_zero_old(s, e),
{
    let wait = (s, MapPageActionChirho::WaitChirho);
    match e {
        MapPageEventChirho::AckChirho => (MapPageStateChirho { phase_chirho: MapPhaseChirho::FreeOldChirho, ..s },
            MapPageActionChirho::FreeFrameChirho(pt_entry_addr_chirho(s.old_entry_chirho))),
        _ => wait,
    }
}

fn step_free_old_chirho(s: MapPageStateChirho, e: MapPageEventChirho) -> (r: (MapPageStateChirho, MapPageActionChirho))
    ensures
        r == step_free_old(s, e),
{
    let wait = (s, MapPageActionChirho::WaitChirho);
    match e {
        MapPageEventChirho::AckChirho => fixup_or_done_chirho(s),
        _ => wait,
    }
}

fn step_fixup_read_chirho(s: MapPageStateChirho, level_chirho: u64, e: MapPageEventChirho) -> (r: (MapPageStateChirho, MapPageActionChirho))
    ensures
        r == step_fixup_read(s, level_chirho, e),
{
    let wait = (s, MapPageActionChirho::WaitChirho);
    match e {
        MapPageEventChirho::EntryChirho(x) => if level_chirho > 2 { wait } else if x & PTE_USER_CHIRHO != 0 {
            fixup_next_chirho(s, level_chirho)
        } else {
            (MapPageStateChirho { phase_chirho: MapPhaseChirho::FixupWriteChirho { level_chirho }, ..s },
                MapPageActionChirho::WriteEntryChirho { table_chirho: table_at_chirho(&s, level_chirho),
                    index_chirho: index_chirho(s.vaddr_chirho, level_chirho), value_chirho: x | PTE_USER_CHIRHO })
        },
        _ => wait,
    }
}

fn step_fixup_write_chirho(s: MapPageStateChirho, level_chirho: u64, e: MapPageEventChirho) -> (r: (MapPageStateChirho, MapPageActionChirho))
    ensures
        r == step_fixup_write(s, level_chirho, e),
{
    let wait = (s, MapPageActionChirho::WaitChirho);
    match e {
        MapPageEventChirho::AckChirho => if level_chirho > 2 { wait } else { fixup_next_chirho(s, level_chirho) },
        _ => wait,
    }
}

fn step_restored_chirho(s: MapPageStateChirho, e: MapPageEventChirho) -> (r: (MapPageStateChirho, MapPageActionChirho))
    ensures
        r == step_restored(s, e),
{
    let wait = (s, MapPageActionChirho::WaitChirho);
    match e {
        MapPageEventChirho::AckChirho => if s.new_managed_chirho {
            (MapPageStateChirho { phase_chirho: MapPhaseChirho::ReleaseNewChirho, ..s }, MapPageActionChirho::ReleaseChirho(s.paddr_chirho))
        } else {
            undo_from_chirho(s, 3, PageMapErrorChirho::ReplacedLeafReleaseChirho)
        },
        _ => wait,
    }
}

fn step_release_new_chirho(s: MapPageStateChirho, e: MapPageEventChirho) -> (r: (MapPageStateChirho, MapPageActionChirho))
    ensures
        r == step_release_new(s, e),
{
    let wait = (s, MapPageActionChirho::WaitChirho);
    match e {
        MapPageEventChirho::ReleasedChirho(Ok(_)) => undo_from_chirho(s, 3, PageMapErrorChirho::ReplacedLeafReleaseChirho),
        MapPageEventChirho::ReleasedChirho(Err(_)) =>
            (MapPageStateChirho { phase_chirho: MapPhaseChirho::FinishedChirho(Err(PageMapErrorChirho::RollbackLeafReleaseChirho)), ..s },
                MapPageActionChirho::DoneChirho(Err(PageMapErrorChirho::RollbackLeafReleaseChirho))),
        _ => wait,
    }
}

fn step_undo_clear_chirho(s: MapPageStateChirho, level_chirho: u64, e: MapPageEventChirho) -> (r: (MapPageStateChirho, MapPageActionChirho))
    ensures
        r == step_undo_clear(s, level_chirho, e),
{
    let wait = (s, MapPageActionChirho::WaitChirho);
    match e {
        MapPageEventChirho::AckChirho => if level_chirho > 2 { wait } else {
            (MapPageStateChirho { phase_chirho: MapPhaseChirho::UndoFreeChirho { level_chirho }, ..s },
                MapPageActionChirho::FreeFrameChirho(table_at_chirho(&s, level_chirho + 1)))
        },
        _ => wait,
    }
}

fn step_undo_free_chirho(s: MapPageStateChirho, level_chirho: u64, e: MapPageEventChirho) -> (r: (MapPageStateChirho, MapPageActionChirho))
    ensures
        r == step_undo_free(s, level_chirho, e),
{
    let wait = (s, MapPageActionChirho::WaitChirho);
    match e {
        MapPageEventChirho::AckChirho => if level_chirho > 2 { wait } else { undo_from_chirho(s, level_chirho, s.error_chirho) },
        _ => wait,
    }
}

/// One step of a mapping (`map_page_step_spec`).
pub fn map_page_step_chirho(s: MapPageStateChirho, e: MapPageEventChirho) -> (r: (MapPageStateChirho, MapPageActionChirho))
    ensures
        r == map_page_step_spec(s, e),
{
    match s.phase_chirho {
        MapPhaseChirho::BeginChirho => step_begin_chirho(s, e),
        MapPhaseChirho::DescendChirho { level_chirho } => step_descend_chirho(s, level_chirho, e),
        MapPhaseChirho::AllocChirho { level_chirho } => step_alloc_chirho(s, level_chirho, e),
        MapPhaseChirho::LinkChirho { level_chirho } => step_link_chirho(s, level_chirho, e),
        MapPhaseChirho::LeafChirho => step_leaf_chirho(s, e),
        MapPhaseChirho::RetainChirho => step_retain_chirho(s, e),
        MapPhaseChirho::PublishedChirho => step_published_chirho(s, e),
        MapPhaseChirho::ReleaseOldChirho => step_release_old_chirho(s, e),
        MapPhaseChirho::ZeroOldChirho => step_zero_old_chirho(s, e),
        MapPhaseChirho::FreeOldChirho => step_free_old_chirho(s, e),
        MapPhaseChirho::FixupReadChirho { level_chirho } => step_fixup_read_chirho(s, level_chirho, e),
        MapPhaseChirho::FixupWriteChirho { level_chirho } => step_fixup_write_chirho(s, level_chirho, e),
        MapPhaseChirho::RestoredChirho => step_restored_chirho(s, e),
        MapPhaseChirho::ReleaseNewChirho => step_release_new_chirho(s, e),
        MapPhaseChirho::UndoClearChirho { level_chirho } => step_undo_clear_chirho(s, level_chirho, e),
        MapPhaseChirho::UndoFreeChirho { level_chirho } => step_undo_free_chirho(s, level_chirho, e),
        MapPhaseChirho::FinishedChirho(_) => (s, MapPageActionChirho::WaitChirho),
    }
}

} // verus!
