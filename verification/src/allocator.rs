//! The kernel heap's policy: size classes, where an allocation is served
//! from, the bump pool for very large blocks, and the report printed when
//! memory runs out. The allocators and the serial port are the caller's.

use vstd::prelude::*;

verus! {

/// How big an allocation is.
#[derive(Debug, Clone, Copy, PartialEq, Eq, Structural)]
pub enum AllocationClassChirho {
    /// Under 64 KiB.
    NormalChirho,
    /// 64 KiB up to 1 MiB: counted.
    LargeChirho,
    /// 1 MiB up to and including 128 MiB: counted and logged.
    HugeChirho,
    /// More than 128 MiB: refused.
    OversizedChirho,
}

/// Allocations of this size or more are large.
pub const LARGE_THRESHOLD_CHIRHO: usize = 65536;
/// Allocations of this size or more are huge.
pub const HUGE_THRESHOLD_CHIRHO: usize = 1048576;
/// Allocations larger than this are refused.
pub const OVERSIZED_THRESHOLD_CHIRHO: usize = 134217728;
/// Allocations above this size go to the large pool first.
pub const LARGE_POOL_MIN_CHIRHO: usize = 2097152;

/// Where the kernel heap begins.
pub const HEAP_START_CHIRHO: u64 = 0x4444_4444_0000;
/// The heap's size: 288 MiB.
pub const HEAP_SIZE_CHIRHO: usize = 301989888;
/// The fast allocator's share: 32 MiB.
pub const FAST_HEAP_SIZE_CHIRHO: usize = 33554432;
/// The buddy allocator's share: 256 MiB.
pub const BUDDY_HEAP_SIZE_CHIRHO: usize = 268435456;
/// Where the large pool begins: right after the heap.
pub const LARGE_POOL_START_CHIRHO: u64 = 0x4444_5664_0000;
/// The large pool's size: 256 MiB.
pub const LARGE_POOL_SIZE_CHIRHO: u64 = 268435456;

/// The size class of a request of `size` bytes.
pub open spec fn class_of(size: int) -> AllocationClassChirho {
    if size > OVERSIZED_THRESHOLD_CHIRHO {
        AllocationClassChirho::OversizedChirho
    } else if size >= HUGE_THRESHOLD_CHIRHO {
        AllocationClassChirho::HugeChirho
    } else if size >= LARGE_THRESHOLD_CHIRHO {
        AllocationClassChirho::LargeChirho
    } else {
        AllocationClassChirho::NormalChirho
    }
}

impl AllocationClassChirho {
    /// The size class of a request of `size` bytes.
    pub fn classify_chirho(size_chirho: usize) -> (r: Self)
        ensures
            r == class_of(size_chirho as int),
    {
        if size_chirho > OVERSIZED_THRESHOLD_CHIRHO {
            AllocationClassChirho::OversizedChirho
        } else if size_chirho >= HUGE_THRESHOLD_CHIRHO {
            AllocationClassChirho::HugeChirho
        } else if size_chirho >= LARGE_THRESHOLD_CHIRHO {
            AllocationClassChirho::LargeChirho
        } else {
            AllocationClassChirho::NormalChirho
        }
    }
}

/// The heap's layout.
pub struct HeapConfigChirho;

impl HeapConfigChirho {
    /// Where the heap begins.
    pub fn start_chirho() -> (r: u64)
        ensures
            r == HEAP_START_CHIRHO,
    {
        HEAP_START_CHIRHO
    }

    /// The heap's size.
    pub fn total_size_chirho() -> (r: usize)
        ensures
            r == HEAP_SIZE_CHIRHO,
    {
        HEAP_SIZE_CHIRHO
    }

    /// The fast allocator's share.
    pub fn fast_size_chirho() -> (r: usize)
        ensures
            r == FAST_HEAP_SIZE_CHIRHO,
    {
        FAST_HEAP_SIZE_CHIRHO
    }

    /// The buddy allocator's share.
    pub fn buddy_size_chirho() -> (r: usize)
        ensures
            r == BUDDY_HEAP_SIZE_CHIRHO,
    {
        BUDDY_HEAP_SIZE_CHIRHO
    }

    /// The buddy allocator's smallest block.
    pub fn buddy_leaf_size_chirho() -> (r: usize)
        ensures
            r == 4096,
    {
        4096
    }
}

/// Where an allocation is served from.
#[derive(Debug, Clone, Copy, PartialEq, Eq, Structural)]
pub enum AllocRouteChirho {
    /// Refused: the caller gets a null pointer.
    RejectChirho,
    /// The large pool first, the buddy allocator if that fails.
    LargePoolChirho,
    /// The heap's own allocators.
    HeapChirho,
}

/// Route a request of `size` bytes: oversized requests are refused,
/// requests over 2 MiB try the large pool first, the rest go to the heap.
/// Large and huge requests are counted.
pub fn alloc_route_chirho(size_chirho: usize, large_count_chirho: &mut u64) -> (r: AllocRouteChirho)
    ensures
        class_of(size_chirho as int) == AllocationClassChirho::OversizedChirho ==> r == AllocRouteChirho::RejectChirho,
        class_of(size_chirho as int) != AllocationClassChirho::OversizedChirho ==> r == (if size_chirho > LARGE_POOL_MIN_CHIRHO {
            AllocRouteChirho::LargePoolChirho
        } else {
            AllocRouteChirho::HeapChirho
        }),
        *final(large_count_chirho) == (if class_of(size_chirho as int) == AllocationClassChirho::LargeChirho
            || class_of(size_chirho as int) == AllocationClassChirho::HugeChirho {
            (if *old(large_count_chirho) == u64::MAX { 0 } else { *old(large_count_chirho) + 1 })
        } else {
            *old(large_count_chirho) as int
        }),
{
    let class_chirho = AllocationClassChirho::classify_chirho(size_chirho);
    match class_chirho {
        AllocationClassChirho::OversizedChirho => return AllocRouteChirho::RejectChirho,
        AllocationClassChirho::LargeChirho | AllocationClassChirho::HugeChirho => {
            *large_count_chirho = if *large_count_chirho == u64::MAX { 0 } else { *large_count_chirho + 1 };
        },
        AllocationClassChirho::NormalChirho => {},
    }
    if size_chirho > LARGE_POOL_MIN_CHIRHO {
        AllocRouteChirho::LargePoolChirho
    } else {
        AllocRouteChirho::HeapChirho
    }
}

/// `size` rounded up to whole 4 KiB pages.
pub open spec fn page_align(size: int) -> int {
    ((size + 0xFFF) / 4096) * 4096
}

/// A reservation in the large pool whose bump pointer is at `next`: the
/// block's address, the pointer after it and its page count; `None` when
/// the pool cannot hold it (the pointer stays).
pub fn large_pool_reserve_chirho(next_chirho: u64, size_chirho: u64) -> (r: Option<(u64, u64, u64)>)
    requires
        LARGE_POOL_START_CHIRHO <= next_chirho <= LARGE_POOL_START_CHIRHO + LARGE_POOL_SIZE_CHIRHO,
        size_chirho <= OVERSIZED_THRESHOLD_CHIRHO as u64,
    ensures
        next_chirho + page_align(size_chirho as int) > LARGE_POOL_START_CHIRHO + LARGE_POOL_SIZE_CHIRHO ==> r is None,
        next_chirho + page_align(size_chirho as int) <= LARGE_POOL_START_CHIRHO + LARGE_POOL_SIZE_CHIRHO ==> r == Some((
            next_chirho, (next_chirho + page_align(size_chirho as int)) as u64, (page_align(size_chirho as int) / 4096) as u64)),
{
    let pages_chirho = (size_chirho + 0xFFF) / 4096;
    let aligned_chirho = pages_chirho * 4096;
    if aligned_chirho > LARGE_POOL_START_CHIRHO + LARGE_POOL_SIZE_CHIRHO - next_chirho {
        return None;
    }
    Some((next_chirho, next_chirho + aligned_chirho, pages_chirho))
}

/// Whether `addr` lies in the large pool (its blocks go back there).
pub fn in_large_pool_chirho(addr_chirho: u64) -> (r: bool)
    ensures
        r == (LARGE_POOL_START_CHIRHO <= addr_chirho < LARGE_POOL_START_CHIRHO + LARGE_POOL_SIZE_CHIRHO),
{
    addr_chirho >= LARGE_POOL_START_CHIRHO && addr_chirho < LARGE_POOL_START_CHIRHO + LARGE_POOL_SIZE_CHIRHO
}

/// The lowest kernel text address the out-of-memory report looks for.
pub const KERNEL_TEXT_LO_CHIRHO: u64 = 0x10000100000;
/// The highest (exclusive) kernel text address it looks for.
pub const KERNEL_TEXT_HI_CHIRHO: u64 = 0x10000200000;
/// The kernel's load base, taken off the addresses it reports.
pub const KERNEL_BASE_CHIRHO: u64 = 0x10000000000;
/// How many return addresses the report shows at most.
pub const MAX_REPORTED_CALLERS_CHIRHO: usize = 6;

/// The ASCII character of hex digit `n`.
pub open spec fn hex_char(n: int) -> u8 {
    if n < 10 { (48 + n) as u8 } else { (87 + n) as u8 }
}

/// Hex digit `s` (from the low end) of `v`.
pub open spec fn nibble(v: u64, s: int) -> int {
    ((v >> ((4 * s) as u64)) & 0xF) as int
}

/// The low `k` hex digits of `v`, most significant first.
pub open spec fn hex_digits(v: u64, k: nat) -> Seq<u8>
    decreases k,
{
    if k == 0 { Seq::empty() } else { seq![hex_char(nibble(v, k - 1))] + hex_digits(v, (k - 1) as nat) }
}

/// The decimal digits of `n`.
pub open spec fn dec_digits(n: nat) -> Seq<u8>
    decreases n,
{
    if n < 10 { seq![(48 + n) as u8] } else { dec_digits(n / 10).push((48 + n % 10) as u8) }
}

/// The stack words that look like kernel text addresses, as offsets from
/// the kernel base: the first six, in stack order.
pub open spec fn report_callers(stack: Seq<u64>) -> Seq<u64>
    decreases stack.len(),
{
    if stack.len() == 0 {
        Seq::empty()
    } else {
        let prev = report_callers(stack.drop_last());
        let w = stack.last();
        if prev.len() < MAX_REPORTED_CALLERS_CHIRHO && KERNEL_TEXT_LO_CHIRHO < w && w < KERNEL_TEXT_HI_CHIRHO {
            prev.push((w - KERNEL_BASE_CHIRHO) as u64)
        } else {
            prev
        }
    }
}

/// Each caller as six hex digits and a space.
pub open spec fn callers_text(c: Seq<u64>) -> Seq<u8>
    decreases c.len(),
{
    if c.len() == 0 { Seq::empty() } else { callers_text(c.drop_last()) + hex_digits(c.last(), 6) + seq![32u8] }
}

/// The report printed when an allocation of `size` bytes fails: the
/// callers found on the stack, a zero caller field, the size, and the
/// process that is killed, if any.
pub open spec fn oom_report(stack: Seq<u64>, size: nat, pid: Option<u64>) -> Seq<u8> {
    seq![13u8, 10, 91, 65, 76, 76, 79, 67, 93, 32, 83, 116, 97, 99, 107, 32, 115, 99, 97, 110, 58, 32] + callers_text(report_callers(stack)) + seq![13u8, 10, 91, 65, 76, 76, 79, 67, 93, 32, 79, 79, 77, 32, 99, 97, 108, 108, 101, 114, 61, 48, 120] + hex_digits(0, 16)
        + seq![13u8, 10, 91, 65, 76, 76, 79, 67, 93, 32, 79, 79, 77, 58, 32] + dec_digits(size) + seq![32u8, 98, 121, 116, 101, 115, 13, 10]
        + match pid {
            Some(p) => seq![13u8, 10, 91, 65, 76, 76, 79, 67, 93, 32, 75, 105, 108, 108, 105, 110, 103, 32, 80, 73, 68, 32] + dec_digits(p as nat) + seq![13u8, 10],
            None => Seq::empty(),
        }
}

/// Append the low `k` hex digits of `v`.
fn push_hex_chirho(out_chirho: &mut Vec<u8>, v_chirho: u64, k_chirho: usize)
    requires
        k_chirho <= 16,
    ensures
        final(out_chirho)@ == old(out_chirho)@ + hex_digits(v_chirho, k_chirho as nat),
{
    let mut i_chirho: usize = k_chirho;
    assert(old(out_chirho)@ + hex_digits(v_chirho, k_chirho as nat) =~= old(out_chirho)@ + hex_digits(v_chirho, k_chirho as nat));
    while i_chirho > 0
        invariant
            i_chirho <= k_chirho <= 16,
            out_chirho@ + hex_digits(v_chirho, i_chirho as nat) == old(out_chirho)@ + hex_digits(v_chirho, k_chirho as nat),
        decreases i_chirho,
    {
        let s_chirho: u64 = 4 * (i_chirho as u64 - 1);
        let n_chirho: u64 = (v_chirho >> s_chirho) & 0xF;
        assert((v_chirho >> s_chirho) & 0xF <= 15) by (bit_vector);
        let c_chirho: u8 = if n_chirho < 10 { (48 + n_chirho) as u8 } else { (87 + n_chirho) as u8 };
        let ghost before = out_chirho@;
        out_chirho.push(c_chirho);
        proof {
            assert(hex_digits(v_chirho, i_chirho as nat) == seq![c_chirho] + hex_digits(v_chirho, (i_chirho - 1) as nat));
            assert(out_chirho@ + hex_digits(v_chirho, (i_chirho - 1) as nat) =~= before + hex_digits(v_chirho, i_chirho as nat));
        }
        i_chirho = i_chirho - 1;
    }
    assert(out_chirho@ + hex_digits(v_chirho, 0) =~= out_chirho@);
}

/// Append the decimal digits of `n`.
pub(crate) fn push_dec_chirho(out_chirho: &mut Vec<u8>, n_chirho: u64)
    ensures
        final(out_chirho)@ == old(out_chirho)@ + dec_digits(n_chirho as nat),
    decreases n_chirho,
{
    if n_chirho < 10 {
        out_chirho.push((48 + n_chirho) as u8);
        assert(out_chirho@ =~= old(out_chirho)@ + dec_digits(n_chirho as nat));
    } else {
        push_dec_chirho(out_chirho, n_chirho / 10);
        out_chirho.push((48 + n_chirho % 10) as u8);
        assert(out_chirho@ =~= old(out_chirho)@ + dec_digits(n_chirho as nat));
    }
}

/// Append `bytes`.
fn push_bytes_chirho(out_chirho: &mut Vec<u8>, bytes_chirho: &[u8])
    ensures
        final(out_chirho)@ == old(out_chirho)@ + bytes_chirho@,
{
    crate::bytes::push_all_chirho(out_chirho, bytes_chirho);
}

/// The report to print when an allocation of `size` bytes fails, as
/// `oom_report` says, from the words at the top of the stack and the
/// process to be killed.
pub fn alloc_error_report_chirho(stack_chirho: &[u64], size_chirho: usize, pid_chirho: Option<u64>) -> (r: Vec<u8>)
    ensures
        r@ == oom_report(stack_chirho@, size_chirho as nat, pid_chirho),
{
    let mut out_chirho: Vec<u8> = Vec::new();
    let t1_chirho: Vec<u8> = vec![13u8, 10, 91, 65, 76, 76, 79, 67, 93, 32, 83, 116, 97, 99, 107, 32, 115, 99, 97, 110, 58, 32];
    push_bytes_chirho(&mut out_chirho, t1_chirho.as_slice());
    let ghost head = out_chirho@;
    let mut found_chirho: usize = 0;
    let mut i_chirho: usize = 0;
    assert(stack_chirho@.take(0) =~= Seq::<u64>::empty());
    assert(head + callers_text(report_callers(stack_chirho@.take(0))) =~= head);
    while i_chirho < stack_chirho.len()
        invariant
            i_chirho <= stack_chirho@.len(),
            found_chirho == report_callers(stack_chirho@.take(i_chirho as int)).len(),
            out_chirho@ == head + callers_text(report_callers(stack_chirho@.take(i_chirho as int))),
        decreases stack_chirho@.len() - i_chirho,
    {
        let w_chirho = stack_chirho[i_chirho];
        proof {
            let pre = stack_chirho@.take(i_chirho + 1);
            assert(pre.drop_last() =~= stack_chirho@.take(i_chirho as int));
            assert(pre.last() == w_chirho);
        }
        if found_chirho < MAX_REPORTED_CALLERS_CHIRHO && KERNEL_TEXT_LO_CHIRHO < w_chirho && w_chirho < KERNEL_TEXT_HI_CHIRHO {
            let off_chirho = w_chirho - KERNEL_BASE_CHIRHO;
            let ghost before = out_chirho@;
            let ghost prev = report_callers(stack_chirho@.take(i_chirho as int));
            push_hex_chirho(&mut out_chirho, off_chirho, 6);
            out_chirho.push(32u8);
            proof {
                let now = report_callers(stack_chirho@.take(i_chirho + 1));
                assert(now == prev.push(off_chirho));
                assert(now.drop_last() =~= prev);
                assert(callers_text(now) == callers_text(prev) + hex_digits(off_chirho, 6) + seq![32u8]);
                assert(out_chirho@ =~= head + callers_text(now));
            }
            found_chirho = found_chirho + 1;
        }
        i_chirho = i_chirho + 1;
    }
    assert(stack_chirho@.take(stack_chirho@.len() as int) =~= stack_chirho@);
    let t2_chirho: Vec<u8> = vec![13u8, 10, 91, 65, 76, 76, 79, 67, 93, 32, 79, 79, 77, 32, 99, 97, 108, 108, 101, 114, 61, 48, 120];
    push_bytes_chirho(&mut out_chirho, t2_chirho.as_slice());
    push_hex_chirho(&mut out_chirho, 0, 16);
    let t3_chirho: Vec<u8> = vec![13u8, 10, 91, 65, 76, 76, 79, 67, 93, 32, 79, 79, 77, 58, 32];
    push_bytes_chirho(&mut out_chirho, t3_chirho.as_slice());
    push_dec_chirho(&mut out_chirho, size_chirho as u64);
    let t4_chirho: Vec<u8> = vec![32u8, 98, 121, 116, 101, 115, 13, 10];
    push_bytes_chirho(&mut out_chirho, t4_chirho.as_slice());
    match pid_chirho {
        Some(p_chirho) => {
            let t5_chirho: Vec<u8> = vec![13u8, 10, 91, 65, 76, 76, 79, 67, 93, 32, 75, 105, 108, 108, 105, 110, 103, 32, 80, 73, 68, 32];
            push_bytes_chirho(&mut out_chirho, t5_chirho.as_slice());
            push_dec_chirho(&mut out_chirho, p_chirho);
            let t6_chirho: Vec<u8> = vec![13u8, 10];
            push_bytes_chirho(&mut out_chirho, t6_chirho.as_slice());
        },
        None => {},
    }
    assert(out_chirho@ =~= oom_report(stack_chirho@, size_chirho as nat, pid_chirho));
    out_chirho
}

} // verus!
