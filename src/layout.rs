//! Filling translation tables region by region.
//!
//! A table's final content is described as regions applied in
//! order to a zeroed table: a region maps a range of addresses onto itself,
//! or clears the guard page of each CPU's stack. A later region overrides
//! an earlier one where they meet.
use vstd::prelude::*;
use crate::memmap::NUM_CPU;
use crate::table::{
    lemma_slot_is_page_number, page_entry, TTable, PAGESIZE,
};

verus! {

/// One step of a table's layout.
pub enum Region {
    /// Map every page of `[start, end)` onto itself with the bits `flag`.
    Identity { start: u64, end: u64, flag: u64 },
    /// Clear the page at `base + i * stride` for each CPU `i`.
    Guards { base: u64, stride: u64 },
}

/// Page number of `addr`.
pub open spec fn page_of(addr: u64) -> int {
    addr as int / PAGESIZE as int
}

/// Number of pages that a walk from `start` in steps of one page visits
/// before it reaches `end`.
pub open spec fn page_count(start: u64, end: u64) -> int {
    if end <= start {
        0
    } else {
        (end - start + PAGESIZE - 1) as int / PAGESIZE as int
    }
}

/// Whether level-3 slot `j` is one of the pages of `[start, end)`.
pub open spec fn in_range(start: u64, end: u64, j: int) -> bool {
    page_of(start) <= j < page_of(start) + page_count(start, end)
}

/// The identity page descriptor of slot `j` with the bits `flag`.
pub open spec fn slot_entry(j: int, flag: u64) -> u64 {
    ((j * PAGESIZE) as u64) | flag
}

/// Slot of the guard page of CPU `i`.
pub open spec fn guard_slot(base: u64, stride: u64, i: int) -> int {
    (base + i * stride) / PAGESIZE as int
}

/// Whether slot `j` is the guard page of some CPU.
pub open spec fn is_guard(base: u64, stride: u64, j: int) -> bool {
    exists|i: int| 0 <= i < NUM_CPU && #[trigger] guard_slot(base, stride, i) == j
}

/// The level-3 descriptors `t` after applying region `r`.
pub open spec fn apply_region(t: Seq<u64>, r: Region) -> Seq<u64> {
    match r {
        Region::Identity { start, end, flag } => Seq::new(
            t.len(),
            |j: int|
                if in_range(start, end, j) {
                    slot_entry(j, flag)
                } else {
                    t[j]
                },
        ),
        Region::Guards { base, stride } => Seq::new(
            t.len(),
            |j: int|
                if is_guard(base, stride, j) {
                    0
                } else {
                    t[j]
                },
        ),
    }
}

/// Highest address (exclusive) covered by `n3` level-3 pages: 512 MiB each.
pub open spec fn reach(n3: nat) -> int {
    n3 as int * 0x2000_0000
}

/// A walk of `k` pages from `start` that stopped at or past `end`, having
/// been below `end` before its last step, visited exactly the pages of the
/// range.
proof fn lemma_walk_count(start: u64, end: u64, k: int)
    requires
        k >= 0,
        start + k * PAGESIZE >= end,
        k == 0 || start + (k - 1) * PAGESIZE < end,
    ensures
        page_count(start, end) == k,
{
    if k > 0 {
        let d = end - start;
        assert((k - 1) * 65536 < d <= k * 65536 ==> (d + 65535) / 65536 == k) by (nonlinear_arith);
    }
}

/// The page number of `start` advanced by `k` pages.
pub(crate) proof fn lemma_page_step(start: u64, k: int)
    requires
        k >= 0,
    ensures
        (start + k * PAGESIZE) / PAGESIZE as int == page_of(start) + k,
{
    assert((start + k * 65536) / 65536 == start / 65536 + k) by (nonlinear_arith)
        requires k >= 0;
}

/// The identity descriptor of an address is the one of its slot.
proof fn lemma_identity_entry(va: u64, flag: u64)
    ensures
        page_entry(va, flag) == slot_entry(page_of(va), flag),
{
    assert(va & !0xFFFFu64 == (va / 65536u64) * 65536u64) by (bit_vector);
}

/// Maps each page of `[start, end)` onto itself with the bits `flag`.
pub fn map_identity(table: &mut TTable, start: u64, end: u64, flag: u64)
    requires
        old(table).wf(),
        old(table).lv3_pages() <= 8,
        end <= reach(old(table).lv3_pages()),
    ensures
        final(table).wf(),
        final(table).lv2_pages() == old(table).lv2_pages(),
        final(table).lv3_pages() == old(table).lv3_pages(),
        final(table).base_addr() == old(table).base_addr(),
        final(table).level2() == old(table).level2(),
        final(table).level3() == apply_region(
            old(table).level3(),
            Region::Identity { start, end, flag },
        ),
{
    let ghost before = table.level3();
    let ghost n3 = table.lv3_pages();
    let mut cur: u64 = start;
    let ghost mut k: int = 0;
    while cur < end
        invariant
            table.wf(),
            table.lv2_pages() == old(table).lv2_pages(),
            table.lv3_pages() == n3,
            n3 <= 8,
            table.base_addr() == old(table).base_addr(),
            table.level2() == old(table).level2(),
            end <= reach(n3),
            k >= 0,
            cur == start + k * PAGESIZE,
            k == 0 || start + (k - 1) * PAGESIZE < end,
            table.level3().len() == before.len(),
            forall|j: int|
                0 <= j < before.len() ==> #[trigger] table.level3()[j] == if page_of(start) <= j
                    < page_of(start) + k {
                    slot_entry(j, flag)
                } else {
                    before[j]
                },
        decreases end + PAGESIZE - cur,
    {
        proof {
            lemma_slot_is_page_number(cur);
            assert(cur / 0x2000_0000 < n3) by (nonlinear_arith)
                requires cur < end, end <= n3 * 0x2000_0000;
            lemma_page_step(start, k);
            lemma_identity_entry(cur, flag);
        }
        table.map(cur, cur, flag);
        cur = cur + PAGESIZE;
        proof {
            k = k + 1;
        }
    }
    proof {
        lemma_walk_count(start, end, k);
        assert(table.level3() =~= apply_region(before, Region::Identity { start, end, flag }));
    }
}

/// Clears the page at `base + i * stride` for each CPU `i`.
pub fn unmap_guards(table: &mut TTable, base: u64, stride: u64)
    requires
        old(table).wf(),
        old(table).lv3_pages() <= 8,
        base + (NUM_CPU - 1) * stride < reach(old(table).lv3_pages()),
    ensures
        final(table).wf(),
        final(table).lv2_pages() == old(table).lv2_pages(),
        final(table).lv3_pages() == old(table).lv3_pages(),
        final(table).base_addr() == old(table).base_addr(),
        final(table).level2() == old(table).level2(),
        final(table).level3() == apply_region(
            old(table).level3(),
            Region::Guards { base, stride },
        ),
{
    let ghost before = table.level3();
    let ghost n3 = table.lv3_pages();
    let mut i: u64 = 0;
    while i < NUM_CPU
        invariant
            table.wf(),
            table.lv2_pages() == old(table).lv2_pages(),
            table.lv3_pages() == n3,
            n3 <= 8,
            table.base_addr() == old(table).base_addr(),
            table.level2() == old(table).level2(),
            base + (NUM_CPU - 1) * stride < reach(n3),
            i <= NUM_CPU,
            table.level3().len() == before.len(),
            forall|j: int|
                0 <= j < before.len() ==> #[trigger] table.level3()[j] == if exists|c: int|
                    0 <= c < i && #[trigger] guard_slot(base, stride, c) == j {
                    0
                } else {
                    before[j]
                },
        decreases NUM_CPU - i,
    {
        assert(i * stride <= (NUM_CPU - 1) * stride) by (nonlinear_arith)
            requires i < NUM_CPU;
        let addr: u64 = base + i * stride;
        proof {
            lemma_slot_is_page_number(addr);
            assert(addr / 0x2000_0000 < n3) by (nonlinear_arith)
                requires addr <= base + (NUM_CPU - 1) * stride, base + (NUM_CPU - 1) * stride < n3 * 0x2000_0000;
        }
        table.unmap(addr);
        proof {
            assert forall|j: int| 0 <= j < before.len() implies #[trigger] table.level3()[j] == if exists|c: int|
                0 <= c < i + 1 && #[trigger] guard_slot(base, stride, c) == j {
                0
            } else {
                before[j]
            } by {
                if guard_slot(base, stride, i as int) == j {
                } else {
                    if exists|c: int| 0 <= c < i + 1 && #[trigger] guard_slot(base, stride, c) == j {
                        let c = choose|c: int| 0 <= c < i + 1 && #[trigger] guard_slot(base, stride, c) == j;
                        assert(c != i);
                    }
                }
            }
        }
        i = i + 1;
    }
    proof {
        assert(table.level3() =~= apply_region(before, Region::Guards { base, stride }));
    }
}

} // verus!
