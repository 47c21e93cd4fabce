//! Translation over the memory that holds the page tables: the walk a
//! virtual address takes from a root table, entry by entry, and what
//! writing one entry does to it. Table memory is modelled as the 64-bit
//! word at each physical address; each step is the one
//! `virt_to_phys_step_chirho` takes.

use vstd::prelude::*;
use crate::pagetable::{
    entry_addr, has_flag, intermediate_flags, leaf_plan, make_entry, map_descend, pt_index, walk_step, MapDescendChirho,
    VirtWalkStepChirho, PT_ADDR_MASK_CHIRHO,
};

verus! {

/// The address of the entry that `virt` uses in the table at `table` on
/// `level`.
pub open spec fn entry_slot(table: u64, virt: u64, level: int) -> int {
    table + 8 * pt_index(virt, level)
}

/// The translation of `virt` by the walk that starts at the table at
/// `table` on `level`, reading entries from `mem`.
pub open spec fn walk_from(mem: Map<int, u64>, table: u64, virt: u64, level: int) -> VirtWalkStepChirho
    decreases 4 - level,
{
    if level < 0 || level >= 4 {
        VirtWalkStepChirho::NotMappedChirho
    } else {
        match walk_step(level, virt, mem[entry_slot(table, virt, level)]) {
            VirtWalkStepChirho::DescendChirho(next) => walk_from(mem, next, virt, level + 1),
            other => other,
        }
    }
}

/// The translation of `virt` under the root table at `root`.
pub open spec fn translate(mem: Map<int, u64>, root: u64, virt: u64) -> VirtWalkStepChirho {
    walk_from(mem, root, virt, 0)
}

/// Whether the walk for `virt` from the table at `table` on `level` reads
/// the entry at address `s`.
pub open spec fn walk_reads(mem: Map<int, u64>, table: u64, virt: u64, level: int, s: int) -> bool
    decreases 4 - level,
{
    if level < 0 || level >= 4 {
        false
    } else {
        let k = entry_slot(table, virt, level);
        k == s || match walk_step(level, virt, mem[k]) {
            VirtWalkStepChirho::DescendChirho(next) => walk_reads(mem, next, virt, level + 1, s),
            _ => false,
        }
    }
}

/// Writing an entry that a walk does not read leaves that walk's
/// translation as it was.
pub proof fn lemma_write_unread_entry(mem: Map<int, u64>, table: u64, virt: u64, level: int, s: int, e: u64)
    requires
        !walk_reads(mem, table, virt, level, s),
    ensures
        walk_from(mem.insert(s, e), table, virt, level) == walk_from(mem, table, virt, level),
    decreases 4 - level,
{
    if 0 <= level < 4 {
        let k = entry_slot(table, virt, level);
        assert(mem.insert(s, e)[k] == mem[k]);
        match walk_step(level, virt, mem[k]) {
            VirtWalkStepChirho::DescendChirho(next) => {
                lemma_write_unread_entry(mem, next, virt, level + 1, s, e);
            },
            _ => {},
        }
    }
}

/// The bits of an entry made from an aligned frame below 2^52 and flags
/// outside the address bits: its address is the frame, its flags are the
/// flags.
proof fn lemma_made_entry_bits(frame: u64, flags: u64)
    requires
        frame & !PT_ADDR_MASK_CHIRHO == 0,
        flags & PT_ADDR_MASK_CHIRHO == 0,
    ensures
        entry_addr(frame | flags) == frame,
        has_flag(frame | flags, 0x1) == has_flag(flags, 0x1),
        has_flag(frame | flags, 0x80) == has_flag(flags, 0x80),
        has_flag(flags, 0x1) ==> frame | flags != 0,
{
    assert(
        ((frame | flags) & 0x000F_FFFF_FFFF_F000u64 == frame)
        && (((frame | flags) & 0x1u64 != 0) == (flags & 0x1u64 != 0))
        && (((frame | flags) & 0x80u64 != 0) == (flags & 0x80u64 != 0))
        && ((flags & 0x1u64 != 0) ==> (frame | flags) != 0)
    ) by (bit_vector)
        requires
            frame & !0x000F_FFFF_FFFF_F000u64 == 0,
            flags & 0x000F_FFFF_FFFF_F000u64 == 0;
}

/// A table entry that a mapping goes through is one the walk goes through
/// to the same table.
proof fn lemma_descend_walks(level: int, virt: u64, e: u64, next: u64)
    requires
        0 <= level < 3,
        map_descend(level, e) == MapDescendChirho::DescendChirho(next),
    ensures
        walk_step(level, virt, e) == VirtWalkStepChirho::DescendChirho(next),
{
}

/// The entry a mapping writes when it makes a new table, for an aligned
/// table frame below 2^52, is one the next mapping goes through to that
/// table, and one the walk goes through.
pub proof fn lemma_new_table_entry(level: int, virt: u64, frame: u64, flags: u64)
    requires
        0 <= level < 3,
        frame % 4096 == 0,
        frame <= PT_ADDR_MASK_CHIRHO,
    ensures
        map_descend(level, make_entry(frame, intermediate_flags(flags))) == MapDescendChirho::DescendChirho(frame),
        walk_step(level, virt, make_entry(frame, intermediate_flags(flags))) == VirtWalkStepChirho::DescendChirho(frame),
{
    let f = intermediate_flags(flags);
    assert(frame & !0x000F_FFFF_FFFF_F000u64 == 0) by (bit_vector)
        requires
            frame % 4096 == 0,
            frame <= 0x000F_FFFF_FFFF_F000u64;
    assert(f & 0x000F_FFFF_FFFF_F000u64 == 0 && f & 0x1u64 != 0 && f & 0x80u64 == 0) by (bit_vector)
        requires
            f == 0x7u64 || f == 0x3u64;
    lemma_made_entry_bits(frame, f);
}

/// Mapping a page translates its address to the frame: when every table on
/// the path of `virt` from `root` is one the mapping goes through (tables
/// at `t[1]`, `t[2]`, `t[3]`), the leaf entry is on none of them, and the
/// leaf step is allowed, writing the planned leaf entry (present, flags
/// outside the address bits, frame aligned and below 2^52) makes `virt`
/// translate to the frame plus the offset within the page. Every walk that
/// does not read the leaf entry keeps its translation
/// (`lemma_write_unread_entry`).
pub proof fn lemma_map_then_translate(mem: Map<int, u64>, t: Seq<u64>, virt: u64, paddr: u64, flags: u64)
    requires
        t.len() == 4,
        forall|l: int| 0 <= l < 3 ==> map_descend(l, mem[#[trigger] entry_slot(t[l], virt, l)])
            == MapDescendChirho::DescendChirho(t[l + 1]),
        forall|l: int| 0 <= l < 3 ==> #[trigger] entry_slot(t[l], virt, l) != entry_slot(t[3], virt, 3),
        leaf_plan(mem[entry_slot(t[3], virt, 3)], paddr, flags) is Ok,
        paddr % 4096 == 0,
        paddr <= PT_ADDR_MASK_CHIRHO,
        flags & PT_ADDR_MASK_CHIRHO == 0,
        has_flag(flags, 0x1),
    ensures
        ({
            let s = entry_slot(t[3], virt, 3);
            let e = leaf_plan(mem[s], paddr, flags)->Ok_0.new_entry_chirho;
            translate(mem.insert(s, e), t[0], virt) == VirtWalkStepChirho::MappedChirho((paddr + (virt & 0xFFFu64)) as u64)
        }),
{
    let s = entry_slot(t[3], virt, 3);
    let e = leaf_plan(mem[s], paddr, flags)->Ok_0.new_entry_chirho;
    let m = mem.insert(s, e);
    assert(e == make_entry(paddr, flags));
    assert(paddr & !0x000F_FFFF_FFFF_F000u64 == 0) by (bit_vector)
        requires
            paddr % 4096 == 0,
            paddr <= 0x000F_FFFF_FFFF_F000u64;
    lemma_made_entry_bits(paddr, flags);
    assert(walk_step(3, virt, e) == VirtWalkStepChirho::MappedChirho((paddr + (virt & 0xFFFu64)) as u64));
    assert(walk_from(m, t[3], virt, 3) == VirtWalkStepChirho::MappedChirho((paddr + (virt & 0xFFFu64)) as u64));
    assert forall|l: int| 0 <= l < 3 implies walk_step(l, virt, #[trigger] m[entry_slot(t[l], virt, l)])
        == VirtWalkStepChirho::DescendChirho(t[l + 1]) by {
        let k = entry_slot(t[l], virt, l);
        assert(m[k] == mem[k]);
        lemma_descend_walks(l, virt, mem[k], t[l + 1]);
    }
    assert(walk_step(2, virt, m[entry_slot(t[2], virt, 2)]) == VirtWalkStepChirho::DescendChirho(t[3]));
    assert(walk_from(m, t[2], virt, 2) == walk_from(m, t[3], virt, 3));
    assert(walk_step(1, virt, m[entry_slot(t[1], virt, 1)]) == VirtWalkStepChirho::DescendChirho(t[2]));
    assert(walk_from(m, t[1], virt, 1) == walk_from(m, t[2], virt, 2));
    assert(walk_step(0, virt, m[entry_slot(t[0], virt, 0)]) == VirtWalkStepChirho::DescendChirho(t[1]));
    assert(walk_from(m, t[0], virt, 0) == walk_from(m, t[1], virt, 1));
}

} // verus!
