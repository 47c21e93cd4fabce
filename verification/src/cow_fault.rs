//! Resolving a write fault on a copy-on-write page, as a state machine:
//! the caller asks the frame-ownership table, allocates, copies and frees
//! frames, writes the leaf entry and flushes the TLB, one action at a time,
//! and hands back what came of each; every decision is made here. A leaf
//! whose frame has one mapping left is made writable in place; a shared one
//! is copied to a new frame that the ownership table counts before the leaf
//! points at it, and the old frame is released after; when that release is
//! refused the old leaf is put back and the new frame released again.

use vstd::prelude::*;
use crate::pagetable::{
    cow_fault_action, cow_fault_action_chirho, cow_resolved, cow_resolved_entry_chirho, entry_addr, has_flag,
    pt_entry_addr_chirho, CowFaultActionChirho, LeafReleaseChirho, COW_BIT_CHIRHO,
};

verus! {

/// Where a fault's resolution stands: what it waits for.
#[derive(Debug, Clone, Copy, PartialEq, Eq)]
pub enum CowPhaseChirho {
    /// Not started.
    BeginChirho,
    /// Waiting for the number of mappings of the leaf's frame.
    CountChirho,
    /// Waiting for the leaf to be made writable in place.
    ReusedChirho,
    /// Waiting for a new frame.
    AllocChirho,
    /// Waiting for the page to be copied to the new frame.
    CopyChirho,
    /// Waiting for the ownership table to count the new frame.
    RetainChirho,
    /// Waiting for the new frame to be freed after the count failed.
    AbandonChirho,
    /// Waiting for the leaf to point at the new frame.
    WrittenChirho,
    /// Waiting for the ownership table to release the old frame.
    ReleaseOldChirho,
    /// Waiting for the old frame to be freed.
    FreeOldChirho,
    /// Waiting for the old leaf to be written back.
    RestoredChirho,
    /// Waiting for the ownership table to release the new frame again.
    ReleaseNewChirho,
    /// Waiting for the new frame to be freed.
    FreeNewChirho,
    /// Waiting for the TLB entry to be flushed; then over with this result.
    FlushChirho(bool),
    /// Over: whether the fault was resolved.
    FinishedChirho(bool),
}

/// A fault on the leaf entry `entry`.
#[derive(Debug, Clone, Copy)]
pub struct CowFaultStateChirho {
    pub phase_chirho: CowPhaseChirho,
    /// The leaf entry at the fault.
    pub entry_chirho: u64,
    /// The frame the page is copied to.
    pub new_frame_chirho: u64,
}

/// What came of the last action.
#[derive(Debug, Clone, Copy, PartialEq, Eq)]
pub enum CowFaultEventChirho {
    /// Go.
    StartChirho,
    /// The number of mappings of the frame (`None` when unmanaged).
    CountChirho(Option<u32>),
    /// The frame allocated, or none.
    FrameChirho(Option<u64>),
    /// The ownership table counted the frame (`true` when it manages it),
    /// or refused.
    RetainedChirho(Result<bool, ()>),
    /// The ownership table released the frame, or refused.
    ReleasedChirho(Result<LeafReleaseChirho, ()>),
    /// The write, copy, free or flush is done.
    AckChirho,
}

/// What the caller does next.
#[derive(Debug, Clone, Copy, PartialEq, Eq)]
pub enum CowFaultStepActionChirho {
    /// Ask the ownership table how many mappings this frame has.
    QueryCountChirho(u64),
    /// Write this value into the leaf entry.
    PublishLeafChirho(u64),
    /// Write the old value back into the leaf entry.
    RestoreLeafChirho(u64),
    /// Allocate a frame.
    AllocateFrameChirho,
    /// Copy the page at frame `from` to frame `to`.
    CopyFrameChirho { from_chirho: u64, to_chirho: u64 },
    /// Count a mapping of this frame in the ownership table.
    RetainChirho(u64),
    /// Drop a mapping of this frame from the ownership table.
    ReleaseChirho(u64),
    /// Free this frame.
    FreeFrameChirho(u64),
    /// Flush the TLB entry of the faulting page.
    FlushTlbChirho,
    /// Over: whether the fault was resolved.
    DoneChirho(bool),
    /// The event did not answer what was asked: nothing to do.
    WaitChirho,
}

/// The state a fault on leaf `entry` starts in.
pub open spec fn cow_fault_start(entry: u64) -> CowFaultStateChirho {
    CowFaultStateChirho { phase_chirho: CowPhaseChirho::BeginChirho, entry_chirho: entry, new_frame_chirho: 0 }
}

/// Start resolving a fault on leaf `entry`.
pub fn cow_fault_start_chirho(entry_chirho: u64) -> (r: CowFaultStateChirho)
    ensures
        r == cow_fault_start(entry_chirho),
{
    CowFaultStateChirho { phase_chirho: CowPhaseChirho::BeginChirho, entry_chirho, new_frame_chirho: 0 }
}

/// `s` in phase `p`.
pub open spec fn in_phase(s: CowFaultStateChirho, p: CowPhaseChirho) -> CowFaultStateChirho {
    CowFaultStateChirho { phase_chirho: p, ..s }
}

/// The step of a fault on a leaf whose frame has `count` mappings.
pub open spec fn cow_on_count(s: CowFaultStateChirho, count: Option<u32>) -> (CowFaultStateChirho, CowFaultStepActionChirho) {
    match cow_fault_action(s.entry_chirho, count) {
        CowFaultActionChirho::NotCowChirho => (in_phase(s, CowPhaseChirho::FinishedChirho(false)), CowFaultStepActionChirho::DoneChirho(false)),
        CowFaultActionChirho::ReuseChirho(v) => (in_phase(s, CowPhaseChirho::ReusedChirho), CowFaultStepActionChirho::PublishLeafChirho(v)),
        CowFaultActionChirho::CopyChirho => (in_phase(s, CowPhaseChirho::AllocChirho), CowFaultStepActionChirho::AllocateFrameChirho),
    }
}

/// The step after the ownership table answered the release of the old frame.
pub open spec fn cow_on_release_old(s: CowFaultStateChirho, r: Result<LeafReleaseChirho, ()>)
    -> (CowFaultStateChirho, CowFaultStepActionChirho) {
    match r {
        Ok(rel) => if rel == LeafReleaseChirho::LastReferenceChirho {
            (in_phase(s, CowPhaseChirho::FreeOldChirho), CowFaultStepActionChirho::FreeFrameChirho(entry_addr(s.entry_chirho)))
        } else {
            (in_phase(s, CowPhaseChirho::FlushChirho(true)), CowFaultStepActionChirho::FlushTlbChirho)
        },
        Err(_) => (in_phase(s, CowPhaseChirho::RestoredChirho), CowFaultStepActionChirho::RestoreLeafChirho(s.entry_chirho)),
    }
}

/// One step of resolving a fault: the state after event `e` in state `s`,
/// and what the caller does next. An event that does not answer what was
/// asked changes nothing.
pub open spec fn cow_fault_step_spec(s: CowFaultStateChirho, e: CowFaultEventChirho) -> (CowFaultStateChirho, CowFaultStepActionChirho) {
    let wait = (s, CowFaultStepActionChirho::WaitChirho);
    let old = entry_addr(s.entry_chirho);
    match (s.phase_chirho, e) {
        (CowPhaseChirho::BeginChirho, CowFaultEventChirho::StartChirho) => if has_flag(s.entry_chirho, 0x200) {
            (in_phase(s, CowPhaseChirho::CountChirho), CowFaultStepActionChirho::QueryCountChirho(old))
        } else {
            (in_phase(s, CowPhaseChirho::FinishedChirho(false)), CowFaultStepActionChirho::DoneChirho(false))
        },
        (CowPhaseChirho::CountChirho, CowFaultEventChirho::CountChirho(c)) => cow_on_count(s, c),
        (CowPhaseChirho::ReusedChirho, CowFaultEventChirho::AckChirho) =>
            (in_phase(s, CowPhaseChirho::FlushChirho(true)), CowFaultStepActionChirho::FlushTlbChirho),
        (CowPhaseChirho::AllocChirho, CowFaultEventChirho::FrameChirho(None)) =>
            (in_phase(s, CowPhaseChirho::FinishedChirho(false)), CowFaultStepActionChirho::DoneChirho(false)),
        (CowPhaseChirho::AllocChirho, CowFaultEventChirho::FrameChirho(Some(f))) =>
            (CowFaultStateChirho { phase_chirho: CowPhaseChirho::CopyChirho, new_frame_chirho: f, ..s },
                CowFaultStepActionChirho::CopyFrameChirho { from_chirho: old, to_chirho: f }),
        (CowPhaseChirho::CopyChirho, CowFaultEventChirho::AckChirho) =>
            (in_phase(s, CowPhaseChirho::RetainChirho), CowFaultStepActionChirho::RetainChirho(s.new_frame_chirho)),
        (CowPhaseChirho::RetainChirho, CowFaultEventChirho::RetainedChirho(r)) => if r == Ok::<bool, ()>(true) {
            (in_phase(s, CowPhaseChirho::WrittenChirho),
                CowFaultStepActionChirho::PublishLeafChirho(cow_resolved(s.entry_chirho, s.new_frame_chirho)))
        } else {
            (in_phase(s, CowPhaseChirho::AbandonChirho), CowFaultStepActionChirho::FreeFrameChirho(s.new_frame_chirho))
        },
        (CowPhaseChirho::AbandonChirho, CowFaultEventChirho::AckChirho) =>
            (in_phase(s, CowPhaseChirho::FinishedChirho(false)), CowFaultStepActionChirho::DoneChirho(false)),
        (CowPhaseChirho::WrittenChirho, CowFaultEventChirho::AckChirho) =>
            (in_phase(s, CowPhaseChirho::ReleaseOldChirho), CowFaultStepActionChirho::ReleaseChirho(old)),
        (CowPhaseChirho::ReleaseOldChirho, CowFaultEventChirho::ReleasedChirho(r)) => cow_on_release_old(s, r),
        (CowPhaseChirho::FreeOldChirho, CowFaultEventChirho::AckChirho) =>
            (in_phase(s, CowPhaseChirho::FlushChirho(true)), CowFaultStepActionChirho::FlushTlbChirho),
        (CowPhaseChirho::RestoredChirho, CowFaultEventChirho::AckChirho) =>
            (in_phase(s, CowPhaseChirho::ReleaseNewChirho), CowFaultStepActionChirho::ReleaseChirho(s.new_frame_chirho)),
        (CowPhaseChirho::ReleaseNewChirho, CowFaultEventChirho::ReleasedChirho(r)) =>
            if r == Ok::<LeafReleaseChirho, ()>(LeafReleaseChirho::LastReferenceChirho) {
                (in_phase(s, CowPhaseChirho::FreeNewChirho), CowFaultStepActionChirho::FreeFrameChirho(s.new_frame_chirho))
            } else {
                (in_phase(s, CowPhaseChirho::FlushChirho(false)), CowFaultStepActionChirho::FlushTlbChirho)
            },
        (CowPhaseChirho::FreeNewChirho, CowFaultEventChirho::AckChirho) =>
            (in_phase(s, CowPhaseChirho::FlushChirho(false)), CowFaultStepActionChirho::FlushTlbChirho),
        (CowPhaseChirho::FlushChirho(b), CowFaultEventChirho::AckChirho) =>
            (in_phase(s, CowPhaseChirho::FinishedChirho(b)), CowFaultStepActionChirho::DoneChirho(b)),
        _ => wait,
    }
}

/// Whether event `e` answers what a fault's resolution in phase `p` waits
/// for.
pub open spec fn cow_answers(p: CowPhaseChirho, e: CowFaultEventChirho) -> bool {
    match p {
        CowPhaseChirho::BeginChirho => e is StartChirho,
        CowPhaseChirho::CountChirho => e is CountChirho,
        CowPhaseChirho::AllocChirho => e is FrameChirho,
        CowPhaseChirho::RetainChirho => e is RetainedChirho,
        CowPhaseChirho::ReleaseOldChirho => e is ReleasedChirho,
        CowPhaseChirho::ReleaseNewChirho => e is ReleasedChirho,
        CowPhaseChirho::FinishedChirho(_) => false,
        _ => e is AckChirho,
    }
}

/// The state of a resolution that started in `s0` after the events `es[0..i]`.
pub open spec fn cow_state_at(s0: CowFaultStateChirho, es: Seq<CowFaultEventChirho>, i: nat) -> CowFaultStateChirho
    decreases i,
{
    if i == 0 { s0 } else { cow_fault_step_spec(cow_state_at(s0, es, (i - 1) as nat), es[i - 1]).0 }
}

/// The action asked for after event `es[i]`, which the event `es[i + 1]`
/// answers.
pub open spec fn cow_action_at(s0: CowFaultStateChirho, es: Seq<CowFaultEventChirho>, i: nat) -> CowFaultStepActionChirho {
    cow_fault_step_spec(cow_state_at(s0, es, i), es[i as int]).1
}

/// Each of the first `n` events answers what was asked.
pub open spec fn cow_answered(s0: CowFaultStateChirho, es: Seq<CowFaultEventChirho>, n: nat) -> bool {
    forall|k: nat| k < n ==> cow_answers(#[trigger] cow_state_at(s0, es, k).phase_chirho, es[k as int])
}

/// The phases a resolution is in once the leaf is written and until it has
/// succeeded.
spec fn cow_published_phase(p: CowPhaseChirho) -> bool {
    ||| p is ReusedChirho
    ||| p is WrittenChirho
    ||| p is ReleaseOldChirho
    ||| p is FreeOldChirho
    ||| p == CowPhaseChirho::FlushChirho(true)
    ||| p == CowPhaseChirho::FinishedChirho(true)
}

proof fn lemma_cow_step_facts(s: CowFaultStateChirho, e: CowFaultEventChirho)
    requires
        cow_answers(s.phase_chirho, e),
    ensures
        ({
            let (t, a) = cow_fault_step_spec(s, e);
            &&& t.entry_chirho == s.entry_chirho
            &&& !(s.phase_chirho is AllocChirho) ==> t.new_frame_chirho == s.new_frame_chirho
            &&& t.phase_chirho is CountChirho ==> a is QueryCountChirho
            &&& t.phase_chirho is RetainChirho ==> a == CowFaultStepActionChirho::RetainChirho(s.new_frame_chirho)
            &&& t.phase_chirho is ReusedChirho ==> a is PublishLeafChirho
            &&& t.phase_chirho is WrittenChirho ==> a is PublishLeafChirho
            &&& t.phase_chirho is ReleaseOldChirho ==> a is ReleaseChirho && s.phase_chirho is WrittenChirho
            &&& a matches CowFaultStepActionChirho::PublishLeafChirho(v) ==>
                (s.phase_chirho is RetainChirho && e == CowFaultEventChirho::RetainedChirho(Ok(true))
                    && v == cow_resolved(s.entry_chirho, s.new_frame_chirho))
                || (s.phase_chirho is CountChirho && e == CowFaultEventChirho::CountChirho(Some(1u32))
                    && v == cow_resolved(s.entry_chirho, entry_addr(s.entry_chirho)))
            &&& a == CowFaultStepActionChirho::DoneChirho(true) ==> s.phase_chirho == CowPhaseChirho::FlushChirho(true)
            &&& t.phase_chirho == CowPhaseChirho::FlushChirho(true) ==> (s.phase_chirho is ReusedChirho && a is FlushTlbChirho)
                || (s.phase_chirho is ReleaseOldChirho && e matches CowFaultEventChirho::ReleasedChirho(Ok(_)))
                || s.phase_chirho is FreeOldChirho
            &&& t.phase_chirho is FreeOldChirho ==> (s.phase_chirho is ReleaseOldChirho && e matches CowFaultEventChirho::ReleasedChirho(Ok(_)))
            &&& cow_published_phase(s.phase_chirho) ==> (cow_published_phase(t.phase_chirho) && a != CowFaultStepActionChirho::DoneChirho(false))
                || a is RestoreLeafChirho
            &&& a is PublishLeafChirho ==> cow_published_phase(t.phase_chirho)
        }),
{
    if s.phase_chirho is CountChirho {
        if let CowFaultEventChirho::CountChirho(c) = e {
            match c {
                Some(n) => {},
                None => {},
            }
        }
    }
}

/// A leaf is written only after the count that allows it: in any run of
/// answered events from a start state, the leaf is made writable in place
/// right after the ownership table counted its frame's one mapping, or
/// pointed at the copy right after the table counted the copy's frame.
pub proof fn lemma_cow_publish_after_count(s0: CowFaultStateChirho, es: Seq<CowFaultEventChirho>, i: nat)
    requires
        s0 == cow_fault_start(s0.entry_chirho),
        i < es.len(),
        cow_answered(s0, es, i + 1),
    ensures
        cow_action_at(s0, es, i) matches CowFaultStepActionChirho::PublishLeafChirho(v) ==> {
            &&& i >= 1
            &&& (cow_action_at(s0, es, (i - 1) as nat) == CowFaultStepActionChirho::RetainChirho(cow_state_at(s0, es, i).new_frame_chirho)
                    && es[i as int] == CowFaultEventChirho::RetainedChirho(Ok(true))
                    && v == cow_resolved(s0.entry_chirho, cow_state_at(s0, es, i).new_frame_chirho))
                || (cow_action_at(s0, es, (i - 1) as nat) is QueryCountChirho
                    && es[i as int] == CowFaultEventChirho::CountChirho(Some(1u32))
                    && v == cow_resolved(s0.entry_chirho, entry_addr(s0.entry_chirho)))
        },
{
    lemma_cow_entry_fixed(s0, es, i);
    assert(cow_answers(cow_state_at(s0, es, i).phase_chirho, es[i as int]));
    lemma_cow_step_facts(cow_state_at(s0, es, i), es[i as int]);
    if i >= 1 {
        let k = (i - 1) as nat;
        assert(cow_answers(cow_state_at(s0, es, k).phase_chirho, es[k as int]));
        lemma_cow_step_facts(cow_state_at(s0, es, k), es[k as int]);
    }
}

proof fn lemma_cow_entry_fixed(s0: CowFaultStateChirho, es: Seq<CowFaultEventChirho>, i: nat)
    requires
        i <= es.len(),
        cow_answered(s0, es, i),
    ensures
        cow_state_at(s0, es, i).entry_chirho == s0.entry_chirho,
    decreases i,
{
    if i > 0 {
        let k = (i - 1) as nat;
        lemma_cow_entry_fixed(s0, es, k);
        assert(cow_answers(cow_state_at(s0, es, k).phase_chirho, es[k as int]));
        lemma_cow_step_facts(cow_state_at(s0, es, k), es[k as int]);
    }
}

proof fn lemma_cow_success_witness(s0: CowFaultStateChirho, es: Seq<CowFaultEventChirho>, m: nat) -> (j: nat)
    requires
        s0 == cow_fault_start(s0.entry_chirho),
        m <= es.len(),
        cow_answered(s0, es, m),
        cow_state_at(s0, es, m).phase_chirho == CowPhaseChirho::FlushChirho(true)
            || cow_state_at(s0, es, m).phase_chirho is FreeOldChirho,
    ensures
        j + 1 < m,
        cow_action_at(s0, es, j) is PublishLeafChirho,
        cow_action_at(s0, es, j + 1) is FlushTlbChirho
            || (cow_action_at(s0, es, j + 1) is ReleaseChirho && j + 2 < m
                && es[(j + 2) as int] matches CowFaultEventChirho::ReleasedChirho(Ok(_))),
    decreases m,
{
    let k = (m - 1) as nat;
    assert(cow_answers(cow_state_at(s0, es, k).phase_chirho, es[k as int]));
    lemma_cow_step_facts(cow_state_at(s0, es, k), es[k as int]);
    let pk = cow_state_at(s0, es, k).phase_chirho;
    if pk is FreeOldChirho {
        lemma_cow_success_witness(s0, es, k)
    } else {
        // The step into this phase left a leaf write behind it.
        let k2 = (k - 1) as nat;
        assert(cow_answers(cow_state_at(s0, es, k2).phase_chirho, es[k2 as int]));
        lemma_cow_step_facts(cow_state_at(s0, es, k2), es[k2 as int]);
        if pk is ReusedChirho {
            k2
        } else {
            let k3 = (k2 - 1) as nat;
            assert(cow_answers(cow_state_at(s0, es, k3).phase_chirho, es[k3 as int]));
            lemma_cow_step_facts(cow_state_at(s0, es, k3), es[k3 as int]);
            k3
        }
    }
}

/// A fault is resolved only once the leaf is written: made writable in
/// place and flushed, or pointed at the copy and the old frame's release
/// answered `Ok` by the ownership table.
pub proof fn lemma_cow_success_after_release(s0: CowFaultStateChirho, es: Seq<CowFaultEventChirho>, i: nat)
    requires
        s0 == cow_fault_start(s0.entry_chirho),
        i < es.len(),
        cow_answered(s0, es, i + 1),
        cow_action_at(s0, es, i) == CowFaultStepActionChirho::DoneChirho(true),
    ensures
        exists|j: nat| j + 1 < i && #[trigger] cow_action_at(s0, es, j) is PublishLeafChirho
            && (cow_action_at(s0, es, j + 1) is FlushTlbChirho
                || (cow_action_at(s0, es, j + 1) is ReleaseChirho && es[(j + 2) as int] matches CowFaultEventChirho::ReleasedChirho(Ok(_)))),
{
    assert(cow_answers(cow_state_at(s0, es, i).phase_chirho, es[i as int]));
    lemma_cow_step_facts(cow_state_at(s0, es, i), es[i as int]);
    let j = lemma_cow_success_witness(s0, es, i);
    assert(j + 1 < i && cow_action_at(s0, es, j) is PublishLeafChirho);
}

proof fn lemma_cow_after_publish(s0: CowFaultStateChirho, es: Seq<CowFaultEventChirho>, j: nat, m: nat)
    requires
        j < m <= es.len(),
        cow_answered(s0, es, m),
        cow_action_at(s0, es, j) is PublishLeafChirho,
    ensures
        cow_published_phase(cow_state_at(s0, es, m).phase_chirho)
            || exists|k: nat| j < k < m && #[trigger] cow_action_at(s0, es, k) is RestoreLeafChirho,
    decreases m - j,
{
    let k = (m - 1) as nat;
    let sk = cow_state_at(s0, es, k);
    let r = cow_fault_step_spec(sk, es[k as int]);
    assert(cow_state_at(s0, es, m) == r.0);
    assert(cow_action_at(s0, es, k) == r.1);
    assert(cow_answers(sk.phase_chirho, es[k as int]));
    lemma_cow_step_facts(sk, es[k as int]);
    if k > j {
        assert(cow_answered(s0, es, k));
        lemma_cow_after_publish(s0, es, j, k);
        if r.1 is RestoreLeafChirho {
            assert(j < k < m && cow_action_at(s0, es, k) is RestoreLeafChirho);
        }
    }
}

/// A fault left unresolved after its leaf was written has put the old leaf
/// back first.
pub proof fn lemma_cow_failure_restores_leaf(s0: CowFaultStateChirho, es: Seq<CowFaultEventChirho>, j: nat, i: nat)
    requires
        j < i < es.len(),
        cow_answered(s0, es, i + 1),
        cow_action_at(s0, es, j) is PublishLeafChirho,
        cow_action_at(s0, es, i) == CowFaultStepActionChirho::DoneChirho(false),
    ensures
        exists|k: nat| j < k < i && #[trigger] cow_action_at(s0, es, k) is RestoreLeafChirho,
{
    lemma_cow_after_publish(s0, es, j, i);
    assert(cow_answers(cow_state_at(s0, es, i).phase_chirho, es[i as int]));
    lemma_cow_step_facts(cow_state_at(s0, es, i), es[i as int]);
}

/// One step of resolving a fault (`cow_fault_step_spec`).
pub fn cow_fault_step_chirho(s: CowFaultStateChirho, e: CowFaultEventChirho) -> (r: (CowFaultStateChirho, CowFaultStepActionChirho))
    ensures
        r == cow_fault_step_spec(s, e),
{
    let old = pt_entry_addr_chirho(s.entry_chirho);
    match (s.phase_chirho, e) {
        (CowPhaseChirho::BeginChirho, CowFaultEventChirho::StartChirho) => if s.entry_chirho & COW_BIT_CHIRHO != 0 {
            (CowFaultStateChirho { phase_chirho: CowPhaseChirho::CountChirho, ..s }, CowFaultStepActionChirho::QueryCountChirho(old))
        } else {
            (CowFaultStateChirho { phase_chirho: CowPhaseChirho::FinishedChirho(false), ..s }, CowFaultStepActionChirho::DoneChirho(false))
        },
        (CowPhaseChirho::CountChirho, CowFaultEventChirho::CountChirho(c)) => match cow_fault_action_chirho(s.entry_chirho, c) {
            CowFaultActionChirho::NotCowChirho =>
                (CowFaultStateChirho { phase_chirho: CowPhaseChirho::FinishedChirho(false), ..s }, CowFaultStepActionChirho::DoneChirho(false)),
            CowFaultActionChirho::ReuseChirho(v) =>
                (CowFaultStateChirho { phase_chirho: CowPhaseChirho::ReusedChirho, ..s }, CowFaultStepActionChirho::PublishLeafChirho(v)),
            CowFaultActionChirho::CopyChirho =>
                (CowFaultStateChirho { phase_chirho: CowPhaseChirho::AllocChirho, ..s }, CowFaultStepActionChirho::AllocateFrameChirho),
        },
        (CowPhaseChirho::ReusedChirho, CowFaultEventChirho::AckChirho) =>
            (CowFaultStateChirho { phase_chirho: CowPhaseChirho::FlushChirho(true), ..s }, CowFaultStepActionChirho::FlushTlbChirho),
        (CowPhaseChirho::AllocChirho, CowFaultEventChirho::FrameChirho(None)) =>
            (CowFaultStateChirho { phase_chirho: CowPhaseChirho::FinishedChirho(false), ..s }, CowFaultStepActionChirho::DoneChirho(false)),
        (CowPhaseChirho::AllocChirho, CowFaultEventChirho::FrameChirho(Some(f))) =>
            (CowFaultStateChirho { phase_chirho: CowPhaseChirho::CopyChirho, new_frame_chirho: f, ..s },
                CowFaultStepActionChirho::CopyFrameChirho { from_chirho: old, to_chirho: f }),
        (CowPhaseChirho::CopyChirho, CowFaultEventChirho::AckChirho) =>
            (CowFaultStateChirho { phase_chirho: CowPhaseChirho::RetainChirho, ..s }, CowFaultStepActionChirho::RetainChirho(s.new_frame_chirho)),
        (CowPhaseChirho::RetainChirho, CowFaultEventChirho::RetainedChirho(r)) => {
            let counted = match r {
                Ok(m) => m,
                Err(_) => false,
            };
            if counted {
                (CowFaultStateChirho { phase_chirho: CowPhaseChirho::WrittenChirho, ..s },
                    CowFaultStepActionChirho::PublishLeafChirho(cow_resolved_entry_chirho(s.entry_chirho, s.new_frame_chirho)))
            } else {
                (CowFaultStateChirho { phase_chirho: CowPhaseChirho::AbandonChirho, ..s }, CowFaultStepActionChirho::FreeFrameChirho(s.new_frame_chirho))
            }
        },
        (CowPhaseChirho::AbandonChirho, CowFaultEventChirho::AckChirho) =>
            (CowFaultStateChirho { phase_chirho: CowPhaseChirho::FinishedChirho(false), ..s }, CowFaultStepActionChirho::DoneChirho(false)),
        (CowPhaseChirho::WrittenChirho, CowFaultEventChirho::AckChirho) =>
            (CowFaultStateChirho { phase_chirho: CowPhaseChirho::ReleaseOldChirho, ..s }, CowFaultStepActionChirho::ReleaseChirho(old)),
        (CowPhaseChirho::ReleaseOldChirho, CowFaultEventChirho::ReleasedChirho(r)) => match r {
            Ok(rel) => if rel == LeafReleaseChirho::LastReferenceChirho {
                (CowFaultStateChirho { phase_chirho: CowPhaseChirho::FreeOldChirho, ..s }, CowFaultStepActionChirho::FreeFrameChirho(old))
            } else {
                (CowFaultStateChirho { phase_chirho: CowPhaseChirho::FlushChirho(true), ..s }, CowFaultStepActionChirho::FlushTlbChirho)
            },
            Err(_) => (CowFaultStateChirho { phase_chirho: CowPhaseChirho::RestoredChirho, ..s },
                CowFaultStepActionChirho::RestoreLeafChirho(s.entry_chirho)),
        },
        (CowPhaseChirho::FreeOldChirho, CowFaultEventChirho::AckChirho) =>
            (CowFaultStateChirho { phase_chirho: CowPhaseChirho::FlushChirho(true), ..s }, CowFaultStepActionChirho::FlushTlbChirho),
        (CowPhaseChirho::RestoredChirho, CowFaultEventChirho::AckChirho) =>
            (CowFaultStateChirho { phase_chirho: CowPhaseChirho::ReleaseNewChirho, ..s }, CowFaultStepActionChirho::ReleaseChirho(s.new_frame_chirho)),
        (CowPhaseChirho::ReleaseNewChirho, CowFaultEventChirho::ReleasedChirho(r)) => {
            let last = match r {
                Ok(rel) => rel == LeafReleaseChirho::LastReferenceChirho,
                Err(_) => false,
            };
            if last {
                (CowFaultStateChirho { phase_chirho: CowPhaseChirho::FreeNewChirho, ..s }, CowFaultStepActionChirho::FreeFrameChirho(s.new_frame_chirho))
            } else {
                (CowFaultStateChirho { phase_chirho: CowPhaseChirho::FlushChirho(false), ..s }, CowFaultStepActionChirho::FlushTlbChirho)
            }
        },
        (CowPhaseChirho::FreeNewChirho, CowFaultEventChirho::AckChirho) =>
            (CowFaultStateChirho { phase_chirho: CowPhaseChirho::FlushChirho(false), ..s }, CowFaultStepActionChirho::FlushTlbChirho),
        (CowPhaseChirho::FlushChirho(b), CowFaultEventChirho::AckChirho) =>
            (CowFaultStateChirho { phase_chirho: CowPhaseChirho::FinishedChirho(b), ..s }, CowFaultStepActionChirho::DoneChirho(b)),
        _ => (s, CowFaultStepActionChirho::WaitChirho),
    }
}

} // verus!
