//! Virtual memory areas of a user address space and the address-space side
//! of `mmap`, `munmap` and `mprotect`. The page-table work that goes with
//! them is the caller's: these functions say which range to map, unmap or
//! re-protect.

use vstd::prelude::*;
use crate::net_types::EINVAL_CHIRHO;

verus! {

/// No access permitted.
pub const PROT_NONE_CHIRHO: u32 = 0;
/// Pages may be read.
pub const PROT_READ_CHIRHO: u32 = 1;
/// Pages may be written.
pub const PROT_WRITE_CHIRHO: u32 = 2;
/// Pages may be executed.
pub const PROT_EXEC_CHIRHO: u32 = 4;
/// Shared mapping.
pub const MAP_SHARED_CHIRHO: u32 = 0x01;
/// Private copy-on-write mapping.
pub const MAP_PRIVATE_CHIRHO: u32 = 0x02;
/// Place the mapping at exactly the given address.
pub const MAP_FIXED_CHIRHO: u32 = 0x10;
/// Mapping not backed by a file, zero-filled.
pub const MAP_ANONYMOUS_CHIRHO: u32 = 0x20;
/// Top of the region that anonymous mappings grow down from.
pub const MMAP_BASE_ADDR_CHIRHO: u64 = 0x7F00_0000_0000;
/// Page size.
pub const PAGE_SIZE_CHIRHO: u64 = 4096;
/// Out of memory.
pub const ENOMEM_CHIRHO: i64 = 12;

/// `x` rounded up to a multiple of the page size.
pub open spec fn align_up_spec(x: u64) -> int {
    ((x as int + 4095) / 4096) * 4096
}

/// `x` rounded down to a multiple of the page size.
pub open spec fn align_down_spec(x: int) -> int {
    (x / 4096) * 4096
}

/// Round `val` up to a multiple of the page size.
pub fn align_up_page_chirho(val_chirho: u64) -> (r: u64)
    requires
        val_chirho <= u64::MAX - 4095,
    ensures
        r == align_up_spec(val_chirho),
{
    let x: u64 = val_chirho + 4095;
    let r = x & !4095u64;
    assert(x & !4095u64 == x - x % 4096) by (bit_vector);
    r
}

fn align_down_page_chirho(x: u64) -> (r: u64)
    ensures
        r == align_down_spec(x as int),
{
    let r = x & !4095u64;
    assert(x & !4095u64 == x - x % 4096) by (bit_vector);
    r
}

/// A contiguous range of user virtual memory.
#[derive(Debug, Clone, Copy)]
pub struct VmaChirho {
    /// First address (inclusive, page-aligned).
    pub start_chirho: u64,
    /// End address (exclusive, page-aligned).
    pub end_chirho: u64,
    /// `PROT_*` bits.
    pub prot_chirho: u32,
    /// `MAP_*` bits.
    pub flags_chirho: u32,
}

/// `v` and `[start, end)` share an address.
pub open spec fn overlaps_spec(v: VmaChirho, start: int, end: int) -> bool {
    v.start_chirho < end && start < v.end_chirho
}

/// Address `x` lies in `v`.
pub open spec fn in_vma(v: VmaChirho, x: int) -> bool {
    v.start_chirho <= x < v.end_chirho
}

impl VmaChirho {
    /// The size in bytes.
    pub fn size_chirho(&self) -> (r: u64)
        requires
            self.start_chirho <= self.end_chirho,
        ensures
            r == self.end_chirho - self.start_chirho,
    {
        self.end_chirho - self.start_chirho
    }

    /// Whether this area shares an address with `[start, start + len)`.
    pub fn overlaps_chirho(&self, start_chirho: u64, len_chirho: u64) -> (r: bool)
        requires
            start_chirho + len_chirho <= u64::MAX,
        ensures
            r == overlaps_spec(*self, start_chirho as int, start_chirho + len_chirho),
    {
        let end_chirho = start_chirho + len_chirho;
        self.start_chirho < end_chirho && start_chirho < self.end_chirho
    }

    /// Whether this area holds all of `[start, start + len)`.
    pub fn contains_range_chirho(&self, start_chirho: u64, len_chirho: u64) -> (r: bool)
        requires
            start_chirho + len_chirho <= u64::MAX,
        ensures
            r == (start_chirho >= self.start_chirho && start_chirho + len_chirho <= self.end_chirho),
    {
        start_chirho >= self.start_chirho && (start_chirho + len_chirho) <= self.end_chirho
    }
}

/// Some area of `s` holds address `x`.
pub open spec fn covered(s: Seq<VmaChirho>, x: int) -> bool {
    exists|i: int| 0 <= i < s.len() && in_vma(#[trigger] s[i], x)
}

/// The areas are in order of their start addresses.
pub open spec fn sorted_by_start(s: Seq<VmaChirho>) -> bool {
    forall|i: int, j: int| 0 <= i < j < s.len() ==> s[i].start_chirho <= s[j].start_chirho
}

/// The areas left when `[addr, end)` is cut out of `s`: untouched areas
/// stay, an overlapped area keeps the parts before and after the range.
pub open spec fn cut_range(s: Seq<VmaChirho>, addr: u64, end: u64) -> Seq<VmaChirho>
    decreases s.len(),
{
    if s.len() == 0 {
        s
    } else {
        let rest = cut_range(s.drop_last(), addr, end);
        let v = s.last();
        if v.end_chirho <= addr || v.start_chirho >= end {
            rest.push(v)
        } else {
            let with_before = if v.start_chirho < addr {
                rest.push(VmaChirho { end_chirho: addr, ..v })
            } else {
                rest
            };
            if v.end_chirho > end { with_before.push(VmaChirho { start_chirho: end, ..v }) } else { with_before }
        }
    }
}

/// The areas after giving `[start, end)` the protection `prot`: an
/// overlapped area splits into the part before, the part inside (with the
/// new protection) and the part after.
pub open spec fn reprotect_range(s: Seq<VmaChirho>, start: u64, end: u64, prot: u32) -> Seq<VmaChirho>
    decreases s.len(),
{
    if s.len() == 0 {
        s
    } else {
        let rest = reprotect_range(s.drop_last(), start, end, prot);
        let v = s.last();
        if v.end_chirho <= start || v.start_chirho >= end {
            rest.push(v)
        } else {
            let a = if v.start_chirho < start { rest.push(VmaChirho { end_chirho: start, ..v }) } else { rest };
            let mid = VmaChirho {
                start_chirho: if v.start_chirho > start { v.start_chirho } else { start },
                end_chirho: if v.end_chirho < end { v.end_chirho } else { end },
                prot_chirho: prot,
                flags_chirho: v.flags_chirho,
            };
            let b = a.push(mid);
            if v.end_chirho > end { b.push(VmaChirho { start_chirho: end, ..v }) } else { b }
        }
    }
}

/// The lowest start address among the areas of `s` that overlap
/// `[cand, cand + len)`.
pub open spec fn min_conflict(s: Seq<VmaChirho>, cand: u64, len: u64) -> Option<u64>
    decreases s.len(),
{
    if s.len() == 0 {
        None
    } else {
        let rest = min_conflict(s.drop_last(), cand, len);
        let v = s.last();
        if cand < v.end_chirho && cand + len > v.start_chirho {
            match rest {
                Some(m) => Some(if v.start_chirho < m { v.start_chirho } else { m }),
                None => Some(v.start_chirho),
            }
        } else {
            rest
        }
    }
}

/// The address search of an anonymous mapping from candidate `cand`, with
/// `tries` moves left: a candidate no area overlaps is taken; otherwise
/// move below the lowest overlapping area, failing at the bottom of memory
/// or when no move is left.
pub open spec fn search_from(s: Seq<VmaChirho>, cand: u64, len: u64, tries: nat) -> Result<u64, ()>
    decreases tries,
{
    match min_conflict(s, cand, len) {
        None => Ok(cand),
        Some(c) => if tries == 0 || c < len {
            Err(())
        } else {
            let next = align_down_spec(c - len);
            if next == 0 { Err(()) } else { search_from(s, next as u64, len, (tries - 1) as nat) }
        },
    }
}

/// No overlapping area means none of the areas overlaps the range; an
/// overlapping one starts below the range's end.
pub proof fn lemma_min_conflict(s: Seq<VmaChirho>, cand: u64, len: u64)
    ensures
        min_conflict(s, cand, len) is None ==> forall|i: int| 0 <= i < s.len()
            ==> !overlaps_spec(#[trigger] s[i], cand as int, cand + len),
        min_conflict(s, cand, len) matches Some(c) ==> c < cand + len,
    decreases s.len(),
{
    if s.len() > 0 {
        lemma_min_conflict(s.drop_last(), cand, len);
        assert forall|i: int| 0 <= i < s.len() - 1 implies #[trigger] s[i] == s.drop_last()[i] by {}
    }
}

/// A found address is page-aligned, non-zero, no higher than the first
/// candidate, and no area overlaps the range there.
pub proof fn lemma_search_from_ok(s: Seq<VmaChirho>, cand: u64, len: u64, tries: nat)
    requires
        cand % 4096 == 0,
        cand != 0,
    ensures
        search_from(s, cand, len, tries) matches Ok(a) ==> {
            &&& a % 4096 == 0
            &&& a != 0
            &&& a <= cand
            &&& forall|i: int| 0 <= i < s.len() ==> !overlaps_spec(#[trigger] s[i], a as int, a + len)
        },
    decreases tries,
{
    lemma_min_conflict(s, cand, len);
    match min_conflict(s, cand, len) {
        None => {},
        Some(c) => {
            if tries != 0 && c >= len {
                let next = align_down_spec(c - len);
                assert(next <= c - len) by (nonlinear_arith)
                    requires next == ((c - len) / 4096) * 4096, c - len >= 0;
                assert(next % 4096 == 0) by (nonlinear_arith)
                    requires next == ((c - len) / 4096) * 4096;
                if next != 0 {
                    lemma_search_from_ok(s, next as u64, len, (tries - 1) as nat);
                }
            }
        },
    }
}

/// The address an anonymous mapping of `len` bytes gets below `next`: a
/// 16-page guard gap, page-aligned, then the search.
pub open spec fn allocate_spec(s: Seq<VmaChirho>, next: u64, len: u64) -> Result<u64, ()> {
    let guarded = len + 16 * 4096;
    if next < guarded {
        Err(())
    } else {
        let a = align_down_spec(next - guarded);
        if a == 0 { Err(()) } else { search_from(s, a as u64, len, 64) }
    }
}

/// How an `mmap` request is served.
#[derive(Debug, Clone, Copy, PartialEq, Eq, Structural)]
pub enum MappingKindChirho {
    /// No backing file: zero-filled pages.
    AnonymousChirho,
    /// File data copied into the pages.
    FileBackedChirho,
    /// The framebuffer's physical pages.
    FramebufferChirho,
}

/// Classify a request: anonymous when MAP_ANONYMOUS is set or there is no
/// file, the framebuffer when the file is the framebuffer device, else
/// file-backed.
pub fn classify_mapping_chirho(flags_chirho: u32, fd_chirho: i32, is_fb_chirho: bool) -> (r: MappingKindChirho)
    ensures
        r == (if flags_chirho & MAP_ANONYMOUS_CHIRHO != 0 || fd_chirho < 0 {
            MappingKindChirho::AnonymousChirho
        } else if is_fb_chirho {
            MappingKindChirho::FramebufferChirho
        } else {
            MappingKindChirho::FileBackedChirho
        }),
{
    if (flags_chirho & MAP_ANONYMOUS_CHIRHO) != 0 || fd_chirho < 0 {
        MappingKindChirho::AnonymousChirho
    } else if is_fb_chirho {
        MappingKindChirho::FramebufferChirho
    } else {
        MappingKindChirho::FileBackedChirho
    }
}

/// What `mmap` leaves to its caller.
#[derive(Debug, Clone, Copy)]
pub enum MmapStepChirho {
    /// The mapping is complete at this address.
    DoneChirho(u64),
    /// Map `len` bytes of pages at `addr` with protection `page_prot` (after
    /// unmapping what is there when `unmap_first`), fill them as `kind`
    /// says, then record the area with `mmap_commit_chirho`.
    MapChirho { addr_chirho: u64, len_chirho: u64, page_prot_chirho: u32, kind_chirho: MappingKindChirho, unmap_first_chirho: bool },
}

/// The memory descriptor of an address space.
#[derive(Debug, Clone)]
pub struct MmChirho {
    /// Areas, kept in order of start address.
    pub vmas_chirho: Vec<VmaChirho>,
    /// Current program break.
    pub brk_chirho: u64,
    /// Initial program break.
    pub brk_start_chirho: u64,
    /// Next address for anonymous mappings, growing down.
    pub next_mmap_addr_chirho: u64,
}

impl MmChirho {
    /// An empty descriptor; anonymous mappings start below the mmap base.
    pub fn new_chirho() -> (r: MmChirho)
        ensures
            r.vmas_chirho@.len() == 0,
            r.brk_chirho == 0,
            r.brk_start_chirho == 0,
            r.next_mmap_addr_chirho == MMAP_BASE_ADDR_CHIRHO,
    {
        MmChirho { vmas_chirho: Vec::new(), brk_chirho: 0, brk_start_chirho: 0, next_mmap_addr_chirho: MMAP_BASE_ADDR_CHIRHO }
    }

    /// Insert an area before the first one that starts after it.
    pub fn insert_vma_chirho(&mut self, vma_chirho: VmaChirho)
        ensures
            final(self).brk_chirho == old(self).brk_chirho,
            final(self).brk_start_chirho == old(self).brk_start_chirho,
            final(self).next_mmap_addr_chirho == old(self).next_mmap_addr_chirho,
            exists|p: int| 0 <= p <= old(self).vmas_chirho@.len()
                && (forall|k: int| 0 <= k < p ==> (#[trigger] old(self).vmas_chirho@[k]).start_chirho <= vma_chirho.start_chirho)
                && (p < old(self).vmas_chirho@.len() ==> old(self).vmas_chirho@[p].start_chirho > vma_chirho.start_chirho)
                && final(self).vmas_chirho@ == old(self).vmas_chirho@.insert(p, vma_chirho),
            sorted_by_start(old(self).vmas_chirho@) ==> sorted_by_start(final(self).vmas_chirho@),
    {
        let ghost s = self.vmas_chirho@;
        let mut p_chirho: usize = 0;
        while p_chirho < self.vmas_chirho.len() && self.vmas_chirho[p_chirho].start_chirho <= vma_chirho.start_chirho
            invariant
                self.vmas_chirho@ == s,
                p_chirho <= s.len(),
                forall|k: int| 0 <= k < p_chirho ==> (#[trigger] s[k]).start_chirho <= vma_chirho.start_chirho,
            decreases s.len() - p_chirho,
        {
            p_chirho = p_chirho + 1;
        }
        self.vmas_chirho.insert(p_chirho, vma_chirho);
        proof {
            let n = self.vmas_chirho@;
            let p = p_chirho as int;
            assert(n == s.insert(p, vma_chirho));
            if sorted_by_start(s) {
                assert forall|i: int, j: int| 0 <= i < j < n.len() implies n[i].start_chirho <= n[j].start_chirho by {
                    if j < p {
                        assert(n[i] == s[i] && n[j] == s[j]);
                    } else if j == p {
                        assert(n[i] == s[i] && n[j] == vma_chirho);
                    } else if i < p {
                        assert(n[i] == s[i] && n[j] == s[j - 1]);
                    } else if i == p {
                        assert(n[i] == vma_chirho && n[j] == s[j - 1]);
                        assert(s[p].start_chirho <= s[j - 1].start_chirho);
                    } else {
                        assert(n[i] == s[i - 1] && n[j] == s[j - 1]);
                    }
                }
            }
        }
    }

    /// Cut `[addr, addr + len)` out of the areas.
    pub fn remove_overlapping_vmas_chirho(&mut self, addr_chirho: u64, len_chirho: u64)
        requires
            addr_chirho + len_chirho <= u64::MAX,
        ensures
            final(self).vmas_chirho@ == cut_range(old(self).vmas_chirho@, addr_chirho, (addr_chirho + len_chirho) as u64),
            final(self).brk_chirho == old(self).brk_chirho,
            final(self).brk_start_chirho == old(self).brk_start_chirho,
            final(self).next_mmap_addr_chirho == old(self).next_mmap_addr_chirho,
    {
        let end_chirho = addr_chirho + len_chirho;
        let ghost s = self.vmas_chirho@;
        let mut out_chirho: Vec<VmaChirho> = Vec::new();
        let mut i_chirho: usize = 0;
        while i_chirho < self.vmas_chirho.len()
            invariant
                self.vmas_chirho@ == s,
                i_chirho <= s.len(),
                out_chirho@ == cut_range(s.subrange(0, i_chirho as int), addr_chirho, end_chirho),
            decreases s.len() - i_chirho,
        {
            let v = self.vmas_chirho[i_chirho];
            assert(s.subrange(0, i_chirho + 1).drop_last() =~= s.subrange(0, i_chirho as int));
            if v.end_chirho <= addr_chirho || v.start_chirho >= end_chirho {
                out_chirho.push(v);
            } else {
                if v.start_chirho < addr_chirho {
                    out_chirho.push(VmaChirho { end_chirho: addr_chirho, ..v });
                }
                if v.end_chirho > end_chirho {
                    out_chirho.push(VmaChirho { start_chirho: end_chirho, ..v });
                }
            }
            i_chirho = i_chirho + 1;
        }
        assert(s.subrange(0, s.len() as int) =~= s);
        self.vmas_chirho = out_chirho;
    }

    /// Give `[start, end)` the protection `prot`, splitting areas that
    /// cross its edges.
    pub fn update_vma_prot_chirho(&mut self, start_chirho: u64, end_chirho: u64, prot_chirho: u32)
        ensures
            final(self).vmas_chirho@ == reprotect_range(old(self).vmas_chirho@, start_chirho, end_chirho, prot_chirho),
            final(self).brk_chirho == old(self).brk_chirho,
            final(self).brk_start_chirho == old(self).brk_start_chirho,
            final(self).next_mmap_addr_chirho == old(self).next_mmap_addr_chirho,
    {
        let ghost s = self.vmas_chirho@;
        let mut out_chirho: Vec<VmaChirho> = Vec::new();
        let mut i_chirho: usize = 0;
        while i_chirho < self.vmas_chirho.len()
            invariant
                self.vmas_chirho@ == s,
                i_chirho <= s.len(),
                out_chirho@ == reprotect_range(s.subrange(0, i_chirho as int), start_chirho, end_chirho, prot_chirho),
            decreases s.len() - i_chirho,
        {
            let v = self.vmas_chirho[i_chirho];
            assert(s.subrange(0, i_chirho + 1).drop_last() =~= s.subrange(0, i_chirho as int));
            if v.end_chirho <= start_chirho || v.start_chirho >= end_chirho {
                out_chirho.push(v);
            } else {
                if v.start_chirho < start_chirho {
                    out_chirho.push(VmaChirho { end_chirho: start_chirho, ..v });
                }
                let mid_start_chirho = if v.start_chirho > start_chirho { v.start_chirho } else { start_chirho };
                let mid_end_chirho = if v.end_chirho < end_chirho { v.end_chirho } else { end_chirho };
                out_chirho.push(VmaChirho {
                    start_chirho: mid_start_chirho,
                    end_chirho: mid_end_chirho,
                    prot_chirho,
                    flags_chirho: v.flags_chirho,
                });
                if v.end_chirho > end_chirho {
                    out_chirho.push(VmaChirho { start_chirho: end_chirho, ..v });
                }
            }
            i_chirho = i_chirho + 1;
        }
        assert(s.subrange(0, s.len() as int) =~= s);
        self.vmas_chirho = out_chirho;
    }

    /// Whether no area shares an address with `[addr, addr + len)`.
    pub fn is_region_free_chirho(&self, addr_chirho: u64, len_chirho: u64) -> (r: bool)
        requires
            addr_chirho + len_chirho <= u64::MAX,
        ensures
            r == forall|i: int| 0 <= i < self.vmas_chirho@.len()
                ==> !overlaps_spec(#[trigger] self.vmas_chirho@[i], addr_chirho as int, addr_chirho + len_chirho),
    {
        let mut i_chirho: usize = 0;
        while i_chirho < self.vmas_chirho.len()
            invariant
                i_chirho <= self.vmas_chirho@.len(),
                addr_chirho + len_chirho <= u64::MAX,
                forall|k: int| 0 <= k < i_chirho
                    ==> !overlaps_spec(#[trigger] self.vmas_chirho@[k], addr_chirho as int, addr_chirho + len_chirho),
            decreases self.vmas_chirho@.len() - i_chirho,
        {
            if self.vmas_chirho[i_chirho].overlaps_chirho(addr_chirho, len_chirho) {
                return false;
            }
            i_chirho = i_chirho + 1;
        }
        true
    }

    /// Whether some area holds `addr`.
    pub fn is_in_vma_chirho(&self, addr_chirho: u64) -> (r: bool)
        ensures
            r == covered(self.vmas_chirho@, addr_chirho as int),
    {
        let mut i_chirho: usize = 0;
        while i_chirho < self.vmas_chirho.len()
            invariant
                i_chirho <= self.vmas_chirho@.len(),
                forall|k: int| 0 <= k < i_chirho ==> !in_vma(#[trigger] self.vmas_chirho@[k], addr_chirho as int),
            decreases self.vmas_chirho@.len() - i_chirho,
        {
            let v = self.vmas_chirho[i_chirho];
            if v.start_chirho <= addr_chirho && addr_chirho < v.end_chirho {
                assert(in_vma(self.vmas_chirho@[i_chirho as int], addr_chirho as int));
                return true;
            }
            i_chirho = i_chirho + 1;
        }
        false
    }

    /// Whether `addr` lies in an area with no access permitted (a guard).
    pub fn is_prot_none_chirho(&self, addr_chirho: u64) -> (r: bool)
        ensures
            r == exists|i: int| 0 <= i < self.vmas_chirho@.len() && in_vma(#[trigger] self.vmas_chirho@[i], addr_chirho as int)
                && self.vmas_chirho@[i].prot_chirho == PROT_NONE_CHIRHO,
    {
        let mut i_chirho: usize = 0;
        while i_chirho < self.vmas_chirho.len()
            invariant
                i_chirho <= self.vmas_chirho@.len(),
                forall|k: int| 0 <= k < i_chirho ==> !(in_vma(#[trigger] self.vmas_chirho@[k], addr_chirho as int)
                    && self.vmas_chirho@[k].prot_chirho == PROT_NONE_CHIRHO),
            decreases self.vmas_chirho@.len() - i_chirho,
        {
            let v = self.vmas_chirho[i_chirho];
            if v.start_chirho <= addr_chirho && addr_chirho < v.end_chirho && v.prot_chirho == PROT_NONE_CHIRHO {
                assert(in_vma(self.vmas_chirho@[i_chirho as int], addr_chirho as int));
                return true;
            }
            i_chirho = i_chirho + 1;
        }
        false
    }
}

fn min_conflict_chirho(v: &Vec<VmaChirho>, cand: u64, len: u64) -> (r: Option<u64>)
    requires
        cand + len <= u64::MAX,
    ensures
        r == min_conflict(v@, cand, len),
{
    let ghost s = v@;
    let mut m: Option<u64> = None;
    let mut i: usize = 0;
    while i < v.len()
        invariant
            s == v@,
            i <= s.len(),
            cand + len <= u64::MAX,
            m == min_conflict(s.subrange(0, i as int), cand, len),
        decreases s.len() - i,
    {
        let x = v[i];
        assert(s.subrange(0, i + 1).drop_last() =~= s.subrange(0, i as int));
        if cand < x.end_chirho && cand + len > x.start_chirho {
            m = match m {
                Some(k) => Some(if x.start_chirho < k { x.start_chirho } else { k }),
                None => Some(x.start_chirho),
            };
        }
        i = i + 1;
    }
    assert(s.subrange(0, s.len() as int) =~= s);
    m
}

impl MmChirho {
    /// Pick the address of an anonymous mapping of `len` bytes
    /// (`allocate_spec`) and move the allocation point there; `-ENOMEM`
    /// when none is found. A found range lies below the old allocation
    /// point, past a 16-page gap, and no area overlaps it.
    pub fn allocate_mmap_addr_chirho(&mut self, len_chirho: u64) -> (r: Result<u64, i64>)
        requires
            len_chirho <= u64::MAX - 65536,
        ensures
            final(self).vmas_chirho@ == old(self).vmas_chirho@,
            final(self).brk_chirho == old(self).brk_chirho,
            final(self).brk_start_chirho == old(self).brk_start_chirho,
            match allocate_spec(old(self).vmas_chirho@, old(self).next_mmap_addr_chirho, len_chirho) {
                Err(_) => (r matches Err(e) && e == -ENOMEM_CHIRHO) && final(self).next_mmap_addr_chirho == old(self).next_mmap_addr_chirho,
                Ok(a) => r == Ok::<u64, i64>(a) && final(self).next_mmap_addr_chirho == a,
            },
            r matches Ok(a) ==> {
                &&& a % 4096 == 0
                &&& a != 0
                &&& a + len_chirho + 16 * 4096 <= old(self).next_mmap_addr_chirho
                &&& forall|i: int| 0 <= i < old(self).vmas_chirho@.len()
                    ==> !overlaps_spec(#[trigger] old(self).vmas_chirho@[i], a as int, a + len_chirho)
            },
    {
        let guarded_chirho = len_chirho + 16 * PAGE_SIZE_CHIRHO;
        if self.next_mmap_addr_chirho < guarded_chirho {
            return Err(-ENOMEM_CHIRHO);
        }
        let a_chirho = align_down_page_chirho(self.next_mmap_addr_chirho - guarded_chirho);
        if a_chirho == 0 {
            return Err(-ENOMEM_CHIRHO);
        }
        let ghost s = self.vmas_chirho@;
        proof {
            let x = self.next_mmap_addr_chirho - guarded_chirho;
            assert(align_down_spec(x) <= x && align_down_spec(x) % 4096 == 0) by (nonlinear_arith)
                requires x >= 0;
            lemma_search_from_ok(s, a_chirho, len_chirho, 64);
        }
        let mut cand_chirho = a_chirho;
        let mut tries_chirho: u64 = 0;
        let mut done_chirho = false;
        while !done_chirho
            invariant
                s == self.vmas_chirho@,
                s == old(self).vmas_chirho@,
                self.next_mmap_addr_chirho == old(self).next_mmap_addr_chirho,
                self.brk_chirho == old(self).brk_chirho,
                self.brk_start_chirho == old(self).brk_start_chirho,
                old(self).next_mmap_addr_chirho >= len_chirho + 16 * 4096,
                a_chirho == align_down_spec(old(self).next_mmap_addr_chirho - (len_chirho + 16 * 4096)),
                a_chirho != 0,
                tries_chirho <= 64,
                a_chirho + len_chirho + 16 * 4096 <= old(self).next_mmap_addr_chirho,
                cand_chirho <= a_chirho,
                search_from(s, a_chirho, len_chirho, 64) == (if done_chirho { Ok::<u64, ()>(cand_chirho) }
                    else { search_from(s, cand_chirho, len_chirho, (64 - tries_chirho) as nat) }),
            decreases 64 - tries_chirho + (if done_chirho { 0int } else { 1int }),
        {
            match min_conflict_chirho(&self.vmas_chirho, cand_chirho, len_chirho) {
                None => {
                    assert(search_from(s, cand_chirho, len_chirho, (64 - tries_chirho) as nat) == Ok::<u64, ()>(cand_chirho));
                    done_chirho = true;
                },
                Some(c_chirho) => {
                    let ghost k = (64 - tries_chirho) as nat;
                    assert(search_from(s, cand_chirho, len_chirho, k) == (if k == 0 || c_chirho < len_chirho { Err::<u64, ()>(()) } else {
                        let next = align_down_spec(c_chirho - len_chirho);
                        if next == 0 { Err(()) } else { search_from(s, next as u64, len_chirho, (k - 1) as nat) }
                    }));
                    if tries_chirho == 64 {
                        return Err(-ENOMEM_CHIRHO);
                    }
                    if c_chirho < len_chirho {
                        return Err(-ENOMEM_CHIRHO);
                    }
                    proof {
                        lemma_min_conflict(s, cand_chirho, len_chirho);
                        let x = c_chirho - len_chirho;
                        assert(align_down_spec(x) <= x) by (nonlinear_arith)
                            requires x >= 0;
                    }
                    cand_chirho = align_down_page_chirho(c_chirho - len_chirho);
                    if cand_chirho == 0 {
                        return Err(-ENOMEM_CHIRHO);
                    }
                    tries_chirho = tries_chirho + 1;
                },
            }
        }
        self.next_mmap_addr_chirho = cand_chirho;
        Ok(cand_chirho)
    }

    /// Whether every address of `[addr, addr + len)` lies in some area.
    pub fn is_region_mapped_chirho(&self, addr_chirho: u64, len_chirho: u64) -> (r: bool)
        requires
            addr_chirho + len_chirho <= u64::MAX,
        ensures
            r == forall|x: int| addr_chirho <= x < addr_chirho + len_chirho ==> #[trigger] covered(self.vmas_chirho@, x),
    {
        let end_chirho = addr_chirho + len_chirho;
        let mut cursor_chirho = addr_chirho;
        while cursor_chirho < end_chirho
            invariant
                addr_chirho <= cursor_chirho,
                end_chirho == addr_chirho + len_chirho,
                forall|x: int| addr_chirho <= x < cursor_chirho ==> #[trigger] covered(self.vmas_chirho@, x),
            decreases (if cursor_chirho < end_chirho { end_chirho - cursor_chirho } else { 0 }),
        {
            let mut found_chirho: Option<u64> = None;
            let mut i_chirho: usize = 0;
            while i_chirho < self.vmas_chirho.len() && found_chirho.is_none()
                invariant
                    i_chirho <= self.vmas_chirho@.len(),
                    found_chirho is None ==> forall|k: int| 0 <= k < i_chirho ==> !in_vma(#[trigger] self.vmas_chirho@[k], cursor_chirho as int),
                    found_chirho matches Some(e) ==> e > cursor_chirho
                        && forall|x: int| cursor_chirho <= x < e ==> #[trigger] covered(self.vmas_chirho@, x),
                decreases self.vmas_chirho@.len() - i_chirho,
            {
                let v = self.vmas_chirho[i_chirho];
                if v.start_chirho <= cursor_chirho && cursor_chirho < v.end_chirho {
                    assert forall|x: int| cursor_chirho <= x < v.end_chirho implies #[trigger] covered(self.vmas_chirho@, x) by {
                        assert(in_vma(self.vmas_chirho@[i_chirho as int], x));
                    }
                    found_chirho = Some(v.end_chirho);
                }
                i_chirho = i_chirho + 1;
            }
            match found_chirho {
                None => {
                    assert(!covered(self.vmas_chirho@, cursor_chirho as int));
                    return false;
                },
                Some(e) => {
                    cursor_chirho = e;
                },
            }
        }
        true
    }

    /// `munmap(2)`, address-space side: `-EINVAL` for an unaligned address
    /// or a zero length; else the range, its length rounded up to pages,
    /// is cut out of the areas.
    pub fn munmap_chirho(&mut self, addr_chirho: u64, len_chirho: u64) -> (r: Result<(), i64>)
        requires
            addr_chirho % 4096 == 0 && len_chirho > 0 ==> len_chirho <= u64::MAX - 4095
                && addr_chirho + align_up_spec(len_chirho) <= u64::MAX,
        ensures
            final(self).brk_chirho == old(self).brk_chirho,
            final(self).brk_start_chirho == old(self).brk_start_chirho,
            final(self).next_mmap_addr_chirho == old(self).next_mmap_addr_chirho,
            r is Err <==> addr_chirho % 4096 != 0 || len_chirho == 0,
            r matches Err(e) ==> e == -EINVAL_CHIRHO && final(self).vmas_chirho@ == old(self).vmas_chirho@,
            r is Ok ==> final(self).vmas_chirho@ == cut_range(old(self).vmas_chirho@, addr_chirho,
                (addr_chirho + align_up_spec(len_chirho)) as u64),
    {
        if addr_chirho % PAGE_SIZE_CHIRHO != 0 {
            return Err(-EINVAL_CHIRHO);
        }
        if len_chirho == 0 {
            return Err(-EINVAL_CHIRHO);
        }
        let aligned_chirho = align_up_page_chirho(len_chirho);
        self.remove_overlapping_vmas_chirho(addr_chirho, aligned_chirho);
        Ok(())
    }

    /// `mprotect(2)`, address-space side: `-EINVAL` for an unaligned
    /// address or a zero length; `-ENOMEM` when some address of the range,
    /// its length rounded up to pages, lies in no area; else the range takes
    /// the protection `prot`.
    pub fn mprotect_chirho(&mut self, addr_chirho: u64, len_chirho: u64, prot_chirho: u32) -> (r: Result<(), i64>)
        requires
            addr_chirho % 4096 == 0 && len_chirho > 0 ==> len_chirho <= u64::MAX - 4095
                && addr_chirho + align_up_spec(len_chirho) <= u64::MAX,
        ensures
            final(self).brk_chirho == old(self).brk_chirho,
            final(self).brk_start_chirho == old(self).brk_start_chirho,
            final(self).next_mmap_addr_chirho == old(self).next_mmap_addr_chirho,
            (r matches Err(e) && e == -EINVAL_CHIRHO) <==> addr_chirho % 4096 != 0 || len_chirho == 0,
            (r matches Err(e) && e == -ENOMEM_CHIRHO) <==> addr_chirho % 4096 == 0 && len_chirho != 0
                && !(forall|x: int| addr_chirho <= x < addr_chirho + align_up_spec(len_chirho)
                    ==> #[trigger] covered(old(self).vmas_chirho@, x)),
            r is Err ==> final(self).vmas_chirho@ == old(self).vmas_chirho@,
            r matches Err(e) ==> e == -EINVAL_CHIRHO || e == -ENOMEM_CHIRHO,
            r is Ok ==> final(self).vmas_chirho@ == reprotect_range(old(self).vmas_chirho@, addr_chirho,
                (addr_chirho + align_up_spec(len_chirho)) as u64, prot_chirho),
    {
        if addr_chirho % PAGE_SIZE_CHIRHO != 0 {
            return Err(-EINVAL_CHIRHO);
        }
        if len_chirho == 0 {
            return Err(-EINVAL_CHIRHO);
        }
        let aligned_chirho = align_up_page_chirho(len_chirho);
        if !self.is_region_mapped_chirho(addr_chirho, aligned_chirho) {
            return Err(-ENOMEM_CHIRHO);
        }
        let end_chirho = addr_chirho + aligned_chirho;
        self.update_vma_prot_chirho(addr_chirho, end_chirho, prot_chirho);
        Ok(())
    }

    /// Record the area of a mapping whose pages are in place.
    pub fn mmap_commit_chirho(&mut self, addr_chirho: u64, len_chirho: u64, prot_chirho: u32, flags_chirho: u32)
        requires
            addr_chirho + len_chirho <= u64::MAX,
        ensures
            final(self).brk_chirho == old(self).brk_chirho,
            final(self).brk_start_chirho == old(self).brk_start_chirho,
            final(self).next_mmap_addr_chirho == old(self).next_mmap_addr_chirho,
            exists|p: int| 0 <= p <= old(self).vmas_chirho@.len() && final(self).vmas_chirho@ == #[trigger] old(self).vmas_chirho@.insert(p,
                VmaChirho { start_chirho: addr_chirho, end_chirho: (addr_chirho + len_chirho) as u64, prot_chirho, flags_chirho }),
            sorted_by_start(old(self).vmas_chirho@) ==> sorted_by_start(final(self).vmas_chirho@),
    {
        self.insert_vma_chirho(VmaChirho { start_chirho: addr_chirho, end_chirho: addr_chirho + len_chirho, prot_chirho, flags_chirho });
    }
}

/// The address an `mmap` request gets before any page is mapped, and the
/// areas then: a fixed mapping takes its address and evicts what was there;
/// an aligned hint is taken when the range is free; otherwise the
/// allocator picks one.
pub open spec fn mmap_place(m: MmChirho, addr: u64, aligned: u64, flags: u32, r_addr: u64, n: MmChirho) -> bool {
    if flags & MAP_FIXED_CHIRHO != 0 {
        &&& r_addr == addr
        &&& n.vmas_chirho@ == cut_range(m.vmas_chirho@, addr, (addr + aligned) as u64)
        &&& n.next_mmap_addr_chirho == m.next_mmap_addr_chirho
    } else if addr != 0 && addr % 4096 == 0 && forall|i: int| 0 <= i < m.vmas_chirho@.len()
        ==> !overlaps_spec(#[trigger] m.vmas_chirho@[i], addr as int, addr + aligned) {
        &&& r_addr == addr
        &&& n.vmas_chirho@ == m.vmas_chirho@
        &&& n.next_mmap_addr_chirho == m.next_mmap_addr_chirho
    } else {
        &&& allocate_spec(m.vmas_chirho@, m.next_mmap_addr_chirho, aligned) == Ok::<u64, ()>(r_addr)
        &&& n.vmas_chirho@ == m.vmas_chirho@
        &&& n.next_mmap_addr_chirho == r_addr
    }
}

/// A mapping that is not fixed gets a range no existing area overlaps:
/// either the free hint or an address the search found free.
pub proof fn lemma_mmap_place_disjoint(m: MmChirho, addr: u64, aligned: u64, flags: u32, a: u64, n: MmChirho)
    requires
        mmap_place(m, addr, aligned, flags, a, n),
        flags & MAP_FIXED_CHIRHO == 0,
    ensures
        forall|i: int| 0 <= i < m.vmas_chirho@.len() ==> !overlaps_spec(#[trigger] m.vmas_chirho@[i], a as int, a + aligned),
{
    let s = m.vmas_chirho@;
    if !(addr != 0 && addr % 4096 == 0 && forall|i: int| 0 <= i < s.len() ==> !overlaps_spec(#[trigger] s[i], addr as int, addr + aligned)) {
        let guarded = aligned + 16 * 4096;
        let x = m.next_mmap_addr_chirho - guarded;
        assert(align_down_spec(x) % 4096 == 0) by (nonlinear_arith)
            requires x >= 0;
        lemma_search_from_ok(s, align_down_spec(x) as u64, aligned, 64);
    }
}

impl MmChirho {
    /// `mmap(2)`, address-space side. `-EINVAL` for a zero length or an
    /// unaligned fixed address, `-ENOMEM` when no address is found.
    /// Otherwise the address is placed (`mmap_place`, with the length
    /// rounded up to pages) and: an anonymous PROT_NONE mapping only
    /// reserves its area (none when fixed onto a page already present);
    /// other anonymous mappings get pages with their protection; file
    /// mappings get writable, executable pages (a fixed one replaces the
    /// pages there) to copy the file into; the framebuffer gets its
    /// readable, writable pages.
    pub fn mmap_chirho(&mut self, addr_chirho: u64, len_chirho: u64, prot_chirho: u32, flags_chirho: u32,
        kind_chirho: MappingKindChirho, fixed_page_present_chirho: bool) -> (r: Result<MmapStepChirho, i64>)
        requires
            len_chirho <= u64::MAX - 4095,
            flags_chirho & MAP_FIXED_CHIRHO == 0 ==> len_chirho <= u64::MAX - 4095 - 65536,
            addr_chirho % 4096 == 0 ==> addr_chirho + align_up_spec(len_chirho) <= u64::MAX,
        ensures
            final(self).brk_chirho == old(self).brk_chirho,
            final(self).brk_start_chirho == old(self).brk_start_chirho,
            len_chirho == 0 ==> (r matches Err(e) && e == -EINVAL_CHIRHO) && final(self).vmas_chirho@ == old(self).vmas_chirho@
                && final(self).next_mmap_addr_chirho == old(self).next_mmap_addr_chirho,
            len_chirho != 0 && flags_chirho & MAP_FIXED_CHIRHO != 0 && addr_chirho % 4096 != 0
                ==> (r matches Err(e) && e == -EINVAL_CHIRHO) && final(self).vmas_chirho@ == old(self).vmas_chirho@
                && final(self).next_mmap_addr_chirho == old(self).next_mmap_addr_chirho,
            len_chirho != 0 && !(flags_chirho & MAP_FIXED_CHIRHO != 0 && addr_chirho % 4096 != 0) ==> {
                let aligned = align_up_spec(len_chirho) as u64;
                let fixed = flags_chirho & MAP_FIXED_CHIRHO != 0;
                match r {
                    Err(e) => e == -ENOMEM_CHIRHO && !fixed
                        && !(addr_chirho != 0 && addr_chirho % 4096 == 0 && forall|i: int| 0 <= i < old(self).vmas_chirho@.len()
                            ==> !overlaps_spec(#[trigger] old(self).vmas_chirho@[i], addr_chirho as int, addr_chirho + aligned))
                        && allocate_spec(old(self).vmas_chirho@, old(self).next_mmap_addr_chirho, aligned) is Err
                        && final(self).vmas_chirho@ == old(self).vmas_chirho@
                        && final(self).next_mmap_addr_chirho == old(self).next_mmap_addr_chirho,
                    Ok(step) => exists|a: u64, n: MmChirho| #[trigger] mmap_place(*old(self), addr_chirho, aligned, flags_chirho, a, n) && {
                        &&& final(self).next_mmap_addr_chirho == n.next_mmap_addr_chirho
                        &&& match kind_chirho {
                            MappingKindChirho::FramebufferChirho => step == (MmapStepChirho::MapChirho { addr_chirho: a, len_chirho: aligned,
                                page_prot_chirho: PROT_READ_CHIRHO | PROT_WRITE_CHIRHO, kind_chirho, unmap_first_chirho: false })
                                && final(self).vmas_chirho@ == n.vmas_chirho@,
                            MappingKindChirho::AnonymousChirho => if prot_chirho == PROT_NONE_CHIRHO {
                                &&& step == MmapStepChirho::DoneChirho(a)
                                &&& if fixed && fixed_page_present_chirho {
                                    final(self).vmas_chirho@ == n.vmas_chirho@
                                } else {
                                    exists|p: int| 0 <= p <= n.vmas_chirho@.len() && final(self).vmas_chirho@ == #[trigger] n.vmas_chirho@.insert(p,
                                        VmaChirho { start_chirho: a, end_chirho: (a + aligned) as u64, prot_chirho, flags_chirho })
                                }
                            } else {
                                step == (MmapStepChirho::MapChirho { addr_chirho: a, len_chirho: aligned, page_prot_chirho: prot_chirho,
                                    kind_chirho, unmap_first_chirho: false }) && final(self).vmas_chirho@ == n.vmas_chirho@
                            },
                            MappingKindChirho::FileBackedChirho => step == (MmapStepChirho::MapChirho { addr_chirho: a, len_chirho: aligned,
                                page_prot_chirho: PROT_READ_CHIRHO | PROT_WRITE_CHIRHO | PROT_EXEC_CHIRHO, kind_chirho,
                                unmap_first_chirho: fixed }) && final(self).vmas_chirho@ == n.vmas_chirho@,
                        }
                    },
                }
            },
    {
        if len_chirho == 0 {
            return Err(-EINVAL_CHIRHO);
        }
        let aligned_chirho = align_up_page_chirho(len_chirho);
        let fixed_chirho = (flags_chirho & MAP_FIXED_CHIRHO) != 0;
        let ghost m0 = *self;
        let map_addr_chirho = if fixed_chirho {
            if addr_chirho % PAGE_SIZE_CHIRHO != 0 {
                return Err(-EINVAL_CHIRHO);
            }
            self.remove_overlapping_vmas_chirho(addr_chirho, aligned_chirho);
            addr_chirho
        } else if addr_chirho != 0 && addr_chirho % PAGE_SIZE_CHIRHO == 0 && self.is_region_free_chirho(addr_chirho, aligned_chirho) {
            addr_chirho
        } else {
            match self.allocate_mmap_addr_chirho(aligned_chirho) {
                Ok(a) => a,
                Err(e) => return Err(e),
            }
        };
        let ghost n0 = *self;
        assert(mmap_place(m0, addr_chirho, aligned_chirho, flags_chirho, map_addr_chirho, n0));
        let step_chirho = match kind_chirho {
            MappingKindChirho::FramebufferChirho => MmapStepChirho::MapChirho {
                addr_chirho: map_addr_chirho,
                len_chirho: aligned_chirho,
                page_prot_chirho: PROT_READ_CHIRHO | PROT_WRITE_CHIRHO,
                kind_chirho,
                unmap_first_chirho: false,
            },
            MappingKindChirho::AnonymousChirho => {
                if prot_chirho == PROT_NONE_CHIRHO {
                    if !(fixed_chirho && fixed_page_present_chirho) {
                        self.insert_vma_chirho(VmaChirho {
                            start_chirho: map_addr_chirho,
                            end_chirho: map_addr_chirho + aligned_chirho,
                            prot_chirho,
                            flags_chirho,
                        });
                    }
                    MmapStepChirho::DoneChirho(map_addr_chirho)
                } else {
                    MmapStepChirho::MapChirho {
                        addr_chirho: map_addr_chirho,
                        len_chirho: aligned_chirho,
                        page_prot_chirho: prot_chirho,
                        kind_chirho,
                        unmap_first_chirho: false,
                    }
                }
            },
            MappingKindChirho::FileBackedChirho => MmapStepChirho::MapChirho {
                addr_chirho: map_addr_chirho,
                len_chirho: aligned_chirho,
                page_prot_chirho: PROT_READ_CHIRHO | PROT_WRITE_CHIRHO | PROT_EXEC_CHIRHO,
                kind_chirho,
                unmap_first_chirho: fixed_chirho,
            },
        };
        Ok(step_chirho)
    }
}

proof fn lemma_covered_push(t: Seq<VmaChirho>, v: VmaChirho, x: int)
    ensures
        covered(t.push(v), x) <==> (covered(t, x) || in_vma(v, x)),
{
    let s = t.push(v);
    if covered(t, x) {
        let i = choose|i: int| 0 <= i < t.len() && in_vma(#[trigger] t[i], x);
        assert(s[i] == t[i]);
    }
    if in_vma(v, x) {
        assert(s[t.len() as int] == v);
    }
    if covered(s, x) {
        let i = choose|i: int| 0 <= i < s.len() && in_vma(#[trigger] s[i], x);
        if i < t.len() {
            assert(s[i] == t[i]);
        }
    }
}

/// Cutting `[addr, end)` out of the areas uncovers exactly that range:
/// an address is covered afterwards if and only if it was covered before
/// and lies outside the range.
pub proof fn lemma_cut_range_coverage(s: Seq<VmaChirho>, addr: u64, end: u64, x: int)
    requires
        addr <= end,
    ensures
        covered(cut_range(s, addr, end), x) <==> (covered(s, x) && !(addr <= x < end)),
    decreases s.len(),
{
    if s.len() > 0 {
        let t = s.drop_last();
        let v = s.last();
        assert(s =~= t.push(v));
        lemma_cut_range_coverage(t, addr, end, x);
        lemma_covered_push(t, v, x);
        let rest = cut_range(t, addr, end);
        let before = VmaChirho { end_chirho: addr, ..v };
        let after = VmaChirho { start_chirho: end, ..v };
        lemma_covered_push(rest, v, x);
        lemma_covered_push(rest, before, x);
        lemma_covered_push(rest, after, x);
        lemma_covered_push(rest.push(before), after, x);
        lemma_covered_push(rest, before, x);
    }
}

/// Cutting a range out of the areas leaves only pieces of the areas there
/// were, each with the protection and flags of the area it came from:
/// every area afterwards lies within some area before and has its
/// protection and flags.
pub proof fn lemma_cut_range_keeps_prot(s: Seq<VmaChirho>, addr: u64, end: u64)
    requires
        addr <= end,
    ensures
        forall|i: int| 0 <= i < cut_range(s, addr, end).len() ==> exists|j: int| 0 <= j < s.len()
            && s[j].start_chirho <= (#[trigger] cut_range(s, addr, end)[i]).start_chirho
            && cut_range(s, addr, end)[i].end_chirho <= s[j].end_chirho
            && cut_range(s, addr, end)[i].prot_chirho == s[j].prot_chirho
            && cut_range(s, addr, end)[i].flags_chirho == s[j].flags_chirho,
    decreases s.len(),
{
    if s.len() > 0 {
        let t = s.drop_last();
        let v = s.last();
        let n = s.len() - 1;
        lemma_cut_range_keeps_prot(t, addr, end);
        let rest = cut_range(t, addr, end);
        let c = cut_range(s, addr, end);
        assert forall|i: int| 0 <= i < c.len() implies exists|j: int| 0 <= j < s.len()
            && s[j].start_chirho <= (#[trigger] c[i]).start_chirho && c[i].end_chirho <= s[j].end_chirho
            && c[i].prot_chirho == s[j].prot_chirho && c[i].flags_chirho == s[j].flags_chirho by {
            if i < rest.len() {
                assert(c[i] == rest[i]);
                let j = choose|j: int| 0 <= j < t.len()
                    && t[j].start_chirho <= (#[trigger] rest[i]).start_chirho && rest[i].end_chirho <= t[j].end_chirho
                    && rest[i].prot_chirho == t[j].prot_chirho && rest[i].flags_chirho == t[j].flags_chirho;
                assert(s[j] == t[j]);
            } else {
                assert(s[n] == v);
            }
        }
    }
}

/// The areas after a cut give every address they cover the protection and
/// flags of an area that covered it before.
pub proof fn lemma_cut_range_prot_at(s: Seq<VmaChirho>, addr: u64, end: u64, i: int, x: int)
    requires
        addr <= end,
        0 <= i < cut_range(s, addr, end).len(),
        in_vma(cut_range(s, addr, end)[i], x),
    ensures
        exists|j: int| 0 <= j < s.len() && in_vma(#[trigger] s[j], x)
            && s[j].prot_chirho == cut_range(s, addr, end)[i].prot_chirho
            && s[j].flags_chirho == cut_range(s, addr, end)[i].flags_chirho,
{
    lemma_cut_range_keeps_prot(s, addr, end);
    let c = cut_range(s, addr, end);
    let j = choose|j: int| 0 <= j < s.len()
        && s[j].start_chirho <= (#[trigger] c[i]).start_chirho && c[i].end_chirho <= s[j].end_chirho
        && c[i].prot_chirho == s[j].prot_chirho && c[i].flags_chirho == s[j].flags_chirho;
    assert(in_vma(s[j], x));
}

/// The areas cover the same addresses after a change of protection.
pub proof fn lemma_reprotect_coverage(s: Seq<VmaChirho>, start: u64, end: u64, prot: u32, x: int)
    requires
        start <= end,
    ensures
        covered(reprotect_range(s, start, end, prot), x) <==> covered(s, x),
    decreases s.len(),
{
    if s.len() > 0 {
        let t = s.drop_last();
        let v = s.last();
        assert(s =~= t.push(v));
        lemma_reprotect_coverage(t, start, end, prot, x);
        lemma_covered_push(t, v, x);
        let rest = reprotect_range(t, start, end, prot);
        let before = VmaChirho { end_chirho: start, ..v };
        let mid = VmaChirho {
            start_chirho: if v.start_chirho > start { v.start_chirho } else { start },
            end_chirho: if v.end_chirho < end { v.end_chirho } else { end },
            prot_chirho: prot,
            flags_chirho: v.flags_chirho,
        };
        let after = VmaChirho { start_chirho: end, ..v };
        lemma_covered_push(rest, v, x);
        lemma_covered_push(rest, before, x);
        lemma_covered_push(rest, mid, x);
        lemma_covered_push(rest.push(before), mid, x);
        lemma_covered_push(rest.push(before).push(mid), after, x);
        lemma_covered_push(rest.push(mid), after, x);
    }
}

/// Every area that holds an address of `[start, end)` after a change of
/// protection has the new protection.
pub proof fn lemma_reprotect_prot(s: Seq<VmaChirho>, start: u64, end: u64, prot: u32, i: int, x: int)
    requires
        0 <= i < reprotect_range(s, start, end, prot).len(),
        start <= x < end,
        in_vma(reprotect_range(s, start, end, prot)[i], x),
    ensures
        reprotect_range(s, start, end, prot)[i].prot_chirho == prot,
    decreases s.len(),
{
    if s.len() > 0 {
        let t = s.drop_last();
        let rest = reprotect_range(t, start, end, prot);
        if i < rest.len() {
            let n = reprotect_range(s, start, end, prot);
            assert(n[i] == rest[i]);
            lemma_reprotect_prot(t, start, end, prot, i, x);
        }
    }
}

/// The page-table flags for pages of protection `prot`: a PROT_NONE page
/// keeps USER_ACCESSIBLE (so its frame stays owned) but is not present and
/// not executable; otherwise present and user-accessible, writable with
/// PROT_WRITE, and not executable without PROT_EXEC.
pub open spec fn prot_flags(prot: u32) -> u64 {
    let w = prot & PROT_WRITE_CHIRHO != 0;
    let x = prot & PROT_EXEC_CHIRHO != 0;
    if prot == PROT_NONE_CHIRHO {
        0x8000_0000_0000_0004u64
    } else if w && !x {
        0x8000_0000_0000_0007u64
    } else if w {
        0x7u64
    } else if !x {
        0x8000_0000_0000_0005u64
    } else {
        0x5u64
    }
}

/// The raw page-table flags for pages of protection `prot` (bit 0
/// present, bit 1 writable, bit 2 user, bit 63 no-execute).
pub fn prot_to_page_flags_chirho(prot_chirho: u32) -> (r: u64)
    ensures
        r == prot_flags(prot_chirho),
{
    let w_chirho = prot_chirho & PROT_WRITE_CHIRHO != 0;
    let x_chirho = prot_chirho & PROT_EXEC_CHIRHO != 0;
    if prot_chirho == PROT_NONE_CHIRHO {
        0x8000_0000_0000_0004u64
    } else if w_chirho && !x_chirho {
        0x8000_0000_0000_0007u64
    } else if w_chirho {
        0x7u64
    } else if !x_chirho {
        0x8000_0000_0000_0005u64
    } else {
        0x5u64
    }
}

} // verus!
