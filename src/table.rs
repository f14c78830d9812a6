//! Two-level translation tables with a 64 KiB granule.
//!
//! A table is one or more pages of level-2 descriptors followed by pages of
//! level-3 descriptors, each page holding 8192 eight-byte entries. The
//! storage is held here as vectors; `base_addr` is the physical address at
//! which the level-2 pages start, which fixes the addresses written into the
//! level-2 table descriptors.
use vstd::prelude::*;

verus! {

/// Size of a translation granule (and of a page): 64 KiB.
pub const PAGESIZE: u64 = 65536;

/// Non-secure table (level 2).
pub const FLAG_L2_NS: u64 = 0x8000_0000_0000_0000;

/// Execute never at EL0.
pub const FLAG_L3_XN: u64 = 0x0040_0000_0000_0000;

/// Execute never at privileged levels.
pub const FLAG_L3_PXN: u64 = 0x0020_0000_0000_0000;

/// Contiguous hint.
pub const FLAG_L3_CONT: u64 = 0x0010_0000_0000_0000;

/// Dirty-bit modifier.
pub const FLAG_L3_DBM: u64 = 0x0008_0000_0000_0000;

/// Access flag; an entry without it faults on first access.
pub const FLAG_L3_AF: u64 = 0x400;

/// Non-secure output address.
pub const FLAG_L3_NS: u64 = 0x20;

/// Shareability [9:8] = 0b10: outer shareable.
pub const FLAG_L3_OSH: u64 = 0x200;

/// Shareability [9:8] = 0b11: inner shareable.
pub const FLAG_L3_ISH: u64 = 0x300;

/// Access permissions [7:6] = 0b00: read/write at higher levels, none at EL0.
pub const FLAG_L3_SH_RW_N: u64 = 0;

/// Access permissions [7:6] = 0b01: read/write at every level.
pub const FLAG_L3_SH_RW_RW: u64 = 0x40;

/// Access permissions [7:6] = 0b10: read-only at higher levels, none at EL0.
pub const FLAG_L3_SH_R_N: u64 = 0x80;

/// Access permissions [7:6] = 0b11: read-only at every level.
pub const FLAG_L3_SH_R_R: u64 = 0xC0;

/// AttrIdx [4:2] = 0: normal memory.
pub const FLAG_L3_ATTR_MEM: u64 = 0;

/// AttrIdx [4:2] = 1: device memory (nGnRE).
pub const FLAG_L3_ATTR_DEV: u64 = 0x4;

/// AttrIdx [4:2] = 2: non-cacheable normal memory.
pub const FLAG_L3_ATTR_NC: u64 = 0x8;

/// Descriptor type [1:0] = 0b11: a page at level 3, a table at level 2.
pub const FLAG_TYPE_PAGE: u64 = 0b11;

/// Index of `va` in the level-2 table.
pub open spec fn level2_index(va: u64) -> u64 {
    (va >> 29u64) & 8191u64
}

/// Index of `va` within its level-3 table.
pub open spec fn level3_offset(va: u64) -> u64 {
    (va >> 16u64) & 8191u64
}

/// Position of the level-3 entry for `va` in the concatenated level-3 pages.
pub open spec fn level3_slot(va: u64) -> int {
    level2_index(va) * 8192 + level3_offset(va)
}

/// The page descriptor that maps a page to `pa` with the attribute bits `flag`.
pub open spec fn page_entry(pa: u64, flag: u64) -> u64 {
    (pa & !0xFFFFu64) | flag
}

/// A zeroed table of `n` descriptors.
pub open spec fn zeroed(n: nat) -> Seq<u64> {
    Seq::new(n, |i: int| 0u64)
}

/// Physical address of the `i`-th level-3 page of a table whose storage
/// starts at `base` with `n2` level-2 pages.
pub open spec fn level3_page_addr(base: u64, n2: nat, i: int) -> int {
    base + PAGESIZE * (n2 + i)
}

/// The level-2 descriptor at index `i` of a table with `n2` level-2 pages
/// and `n3` level-3 pages stored from `base`: a table descriptor for the
/// `i`-th level-3 page where there is one, zero elsewhere.
pub open spec fn level2_entry(base: u64, n2: nat, n3: nat, i: int) -> u64 {
    if i < n3 {
        (level3_page_addr(base, n2, i) as u64) | 0b11u64
    } else {
        0
    }
}

/// Below 4 GiB the level-3 slot of an address is its page number.
pub proof fn lemma_slot_is_page_number(va: u64)
    requires
        va < 0x1_0000_0000,
    ensures
        level3_slot(va) == (va / PAGESIZE) as int,
        level2_index(va) == va / 0x2000_0000,
{
    assert((((va >> 29u64) & 8191u64) * 8192u64 + ((va >> 16u64) & 8191u64)) == va >> 16u64
        && (va >> 29u64) & 8191u64 == va / 0x2000_0000u64) by (bit_vector)
        requires
            va < 0x1_0000_0000u64,
    ;
    assert(va >> 16u64 == va / 65536u64) by (bit_vector);
}

/// The indices of an address are in range for a table page.
pub proof fn lemma_index_bounds(va: u64)
    ensures
        level2_index(va) < 8192,
        level3_offset(va) < 8192,
{
    assert((va >> 29u64) & 8191u64 < 8192u64 && (va >> 16u64) & 8191u64 < 8192u64)
        by (bit_vector);
}

/// A two-level translation table.
pub struct TTable {
    tt_lv2: Vec<u64>,
    tt_lv3: Vec<u64>,
    num_lv2: usize,
    num_lv3: usize,
    base: u64,
}

impl TTable {
    /// The level-2 descriptors, all pages one after the other.
    pub closed spec fn level2(&self) -> Seq<u64> {
        self.tt_lv2@
    }

    /// The level-3 descriptors, all pages one after the other.
    pub closed spec fn level3(&self) -> Seq<u64> {
        self.tt_lv3@
    }

    /// Number of level-2 pages.
    pub closed spec fn lv2_pages(&self) -> nat {
        self.num_lv2 as nat
    }

    /// Number of level-3 pages.
    pub closed spec fn lv3_pages(&self) -> nat {
        self.num_lv3 as nat
    }

    /// Physical address of the table's storage.
    pub closed spec fn base_addr(&self) -> u64 {
        self.base
    }

    /// The storage has the declared size, fits below the top of the address
    /// space, and each level-2 descriptor links its level-3 page.
    pub closed spec fn wf(&self) -> bool {
        &&& self.tt_lv2@.len() == 8192 * self.num_lv2
        &&& self.tt_lv3@.len() == 8192 * self.num_lv3
        &&& self.base + PAGESIZE * (self.num_lv2 + self.num_lv3) <= u64::MAX
        &&& forall|i: int|
            0 <= i < self.tt_lv2@.len() ==> #[trigger] self.tt_lv2@[i] == level2_entry(
                self.base,
                self.num_lv2 as nat,
                self.num_lv3 as nat,
                i,
            )
    }

    /// Whether `va` falls into one of the table's level-3 pages.
    pub open spec fn covers(&self, va: u64) -> bool {
        level2_index(va) < self.lv3_pages()
    }

    /// A table stored at `tt_addr` with `num_lv2` level-2 pages followed by
    /// `num_lv3` level-3 pages. Every level-3 entry is zero; level-2 entry
    /// `i` is a table descriptor for level-3 page `i` where that page exists.
    pub fn new(tt_addr: u64, num_lv2: usize, num_lv3: usize) -> (r: TTable)
        requires
            8192 * num_lv2 <= usize::MAX,
            8192 * num_lv3 <= usize::MAX,
            tt_addr + PAGESIZE * (num_lv2 + num_lv3) <= u64::MAX,
        ensures
            r.wf(),
            r.lv2_pages() == num_lv2,
            r.lv3_pages() == num_lv3,
            r.base_addr() == tt_addr,
            r.level2().len() == 8192 * num_lv2,
            r.level3() == zeroed(8192 * num_lv3 as nat),
            forall|i: int|
                0 <= i < r.level2().len() ==> #[trigger] r.level2()[i] == level2_entry(
                    tt_addr,
                    num_lv2 as nat,
                    num_lv3 as nat,
                    i,
                ),
    {
        let n2: usize = 8192 * num_lv2;
        let n3: usize = 8192 * num_lv3;
        let mut tt_lv2: Vec<u64> = Vec::with_capacity(n2);
        let mut k: usize = 0;
        while k < n2
            invariant
                k <= n2,
                tt_lv2@.len() == k,
                forall|j: int| 0 <= j < k ==> #[trigger] tt_lv2@[j] == 0,
            decreases n2 - k,
        {
            tt_lv2.push(0);
            k = k + 1;
        }
        let mut tt_lv3: Vec<u64> = Vec::with_capacity(n3);
        let mut k: usize = 0;
        while k < n3
            invariant
                k <= n3,
                tt_lv3@.len() == k,
                forall|j: int| 0 <= j < k ==> #[trigger] tt_lv3@[j] == 0,
            decreases n3 - k,
        {
            tt_lv3.push(0);
            k = k + 1;
        }
        // link the level-3 pages
        let mut i: usize = 0;
        while i < n2 && i < num_lv3
            invariant
                n2 == 8192 * num_lv2,
                i <= n2,
                tt_lv2@.len() == n2,
                tt_addr + PAGESIZE * (num_lv2 + num_lv3) <= u64::MAX,
                forall|j: int|
                    0 <= j < n2 ==> #[trigger] tt_lv2@[j] == if j < i {
                        level2_entry(tt_addr, num_lv2 as nat, num_lv3 as nat, j)
                    } else {
                        0
                    },
            decreases n2 - i,
        {
            let addr: u64 = tt_addr + PAGESIZE * (num_lv2 as u64 + i as u64);
            tt_lv2.set(i, addr | 0b11);
            i = i + 1;
        }
        let r = TTable { tt_lv2, tt_lv3, num_lv2, num_lv3, base: tt_addr };
        assert(r.level3() =~= zeroed(8192 * num_lv3 as nat));
        r
    }

    /// Sets the level-3 entry of `vm_addr` to map the page of `phy_addr`
    /// with the attribute bits `flag`. The address must fall into one of
    /// the table's level-3 pages: there is no dynamic allocation of pages.
    pub fn map(&mut self, vm_addr: u64, phy_addr: u64, flag: u64)
        requires
            old(self).wf(),
            old(self).covers(vm_addr),
        ensures
            final(self).wf(),
            final(self).lv2_pages() == old(self).lv2_pages(),
            final(self).lv3_pages() == old(self).lv3_pages(),
            final(self).base_addr() == old(self).base_addr(),
            final(self).level2() == old(self).level2(),
            final(self).level3() == old(self).level3().update(
                level3_slot(vm_addr),
                page_entry(phy_addr, flag),
            ),
            0 <= level3_slot(vm_addr) < old(self).level3().len(),
    {
        proof {
            lemma_index_bounds(vm_addr);
        }
        let lv2idx = ((vm_addr >> 29) & 8191) as usize;
        let lv3idx = ((vm_addr >> 16) & 8191) as usize;
        let e: u64 = phy_addr & !(PAGESIZE - 1) | flag;
        let idx: usize = lv2idx * 8192 + lv3idx;
        self.tt_lv3.set(idx, e);
    }

    /// Clears the level-3 entry of `vm_addr`. The address must fall into
    /// one of the table's level-3 pages.
    pub fn unmap(&mut self, vm_addr: u64)
        requires
            old(self).wf(),
            old(self).covers(vm_addr),
        ensures
            final(self).wf(),
            final(self).lv2_pages() == old(self).lv2_pages(),
            final(self).lv3_pages() == old(self).lv3_pages(),
            final(self).base_addr() == old(self).base_addr(),
            final(self).level2() == old(self).level2(),
            final(self).level3() == old(self).level3().update(level3_slot(vm_addr), 0u64),
            0 <= level3_slot(vm_addr) < old(self).level3().len(),
    {
        proof {
            lemma_index_bounds(vm_addr);
        }
        let lv2idx = ((vm_addr >> 29) & 8191) as usize;
        let lv3idx = ((vm_addr >> 16) & 8191) as usize;
        let idx: usize = lv2idx * 8192 + lv3idx;
        self.tt_lv3.set(idx, 0);
    }

    /// The level-3 entry for `vm_addr`.
    pub fn read(&self, vm_addr: u64) -> (r: u64)
        requires
            self.wf(),
            self.covers(vm_addr),
        ensures
            r == self.level3()[level3_slot(vm_addr)],
    {
        proof {
            lemma_index_bounds(vm_addr);
        }
        let lv2idx = ((vm_addr >> 29) & 8191) as usize;
        let lv3idx = ((vm_addr >> 16) & 8191) as usize;
        self.tt_lv3[lv2idx * 8192 + lv3idx]
    }

    /// The level-2 descriptor at `i`.
    pub fn level2_at(&self, i: usize) -> (r: u64)
        requires
            i < self.level2().len(),
        ensures
            r == self.level2()[i as int],
    {
        self.tt_lv2[i]
    }

    /// The level-3 descriptor at position `i` of the concatenated pages.
    pub fn level3_at(&self, i: usize) -> (r: u64)
        requires
            i < self.level3().len(),
        ensures
            r == self.level3()[i as int],
    {
        self.tt_lv3[i]
    }

    /// Number of level-2 descriptors.
    pub fn level2_len(&self) -> (r: usize)
        ensures
            r == self.level2().len(),
    {
        self.tt_lv2.len()
    }

    /// Number of level-3 descriptors.
    pub fn level3_len(&self) -> (r: usize)
        ensures
            r == self.level3().len(),
    {
        self.tt_lv3.len()
    }

    /// Physical address of the table's storage, as written to a TTBR.
    pub fn base(&self) -> (r: u64)
        ensures
            r == self.base_addr(),
    {
        self.base
    }
}

/// In a well-formed table, level-2 descriptor `i` is a table descriptor for
/// level-3 page `i` where that page exists, and zero beyond.
pub proof fn lemma_level2_links(t: TTable)
    requires
        t.wf(),
    ensures
        t.level2().len() == 8192 * t.lv2_pages(),
        t.level3().len() == 8192 * t.lv3_pages(),
        forall|i: int|
            0 <= i < t.level2().len() && i < t.lv3_pages() ==> #[trigger] t.level2()[i] == (
            level3_page_addr(t.base_addr(), t.lv2_pages(), i) as u64) | 0b11u64,
        forall|i: int|
            0 <= i < t.level2().len() && i >= t.lv3_pages() ==> #[trigger] t.level2()[i] == 0,
{
    assert forall|i: int| 0 <= i < t.level2().len() implies #[trigger] t.level2()[i]
        == level2_entry(t.base_addr(), t.lv2_pages(), t.lv3_pages(), i) by {}
}

/// Mapping a page and reading its entry back gives `(pa & !0xFFFF) | flag`;
/// unmapping it afterwards leaves zero there; no other entry changes.
pub proof fn lemma_map_unmap_round_trip(l3: Seq<u64>, va: u64, pa: u64, flag: u64)
    requires
        0 <= level3_slot(va) < l3.len(),
    ensures
        l3.update(level3_slot(va), page_entry(pa, flag))[level3_slot(va)] == (pa & !0xFFFFu64)
            | flag,
        l3.update(level3_slot(va), page_entry(pa, flag)).update(level3_slot(va), 0u64)[level3_slot(va)] == 0,
        forall|j: int|
            0 <= j < l3.len() && j != level3_slot(va) ==> #[trigger] l3.update(
                level3_slot(va),
                page_entry(pa, flag),
            ).update(level3_slot(va), 0u64)[j] == l3[j],
{
}

/// A page descriptor keeps the type bits of its flags and, where the flags
/// have no bit at or above 16 and `pa` lies below 2^48, the page number of
/// `pa`; with any flags that leave the output-address field [47:16] clear,
/// that field holds the page number of `pa`.
pub proof fn lemma_page_entry_fields(pa: u64, flag: u64)
    requires
        flag & 0b11 == 0b11,
        pa < 0x1_0000_0000_0000,
    ensures
        page_entry(pa, flag) & 0b11 == 0b11,
        flag < 0x10000 ==> (page_entry(pa, flag) & !0xFFFFu64) >> 16u64 == pa >> 16u64,
        flag & 0x0000_FFFF_FFFF_0000 == 0 ==> (page_entry(pa, flag) & 0x0000_FFFF_FFFF_0000) >> 16u64
            == pa >> 16u64,
{
    assert(((pa & !0xFFFFu64) | flag) & 0b11u64 == 0b11u64
        && (flag < 0x10000u64 ==> (((pa & !0xFFFFu64) | flag) & !0xFFFFu64) >> 16u64 == pa >> 16u64)
        && (flag & 0x0000_FFFF_FFFF_0000u64 == 0u64 ==> (((pa & !0xFFFFu64) | flag)
        & 0x0000_FFFF_FFFF_0000u64) >> 16u64 == pa >> 16u64)) by (bit_vector)
        requires
            flag & 0b11u64 == 0b11u64,
            pa < 0x1_0000_0000_0000u64,
    ;
}

/// The attribute bits stand at the positions that the architecture gives
/// them: XN 54, PXN 53, CONT 52, DBM 51, AF 10, NS 5, SH [9:8], AP [7:6],
/// AttrIdx [4:2], type [1:0].
pub proof fn lemma_flag_positions()
    ensures
        FLAG_L3_XN == 1u64 << 54u64,
        FLAG_L3_PXN == 1u64 << 53u64,
        FLAG_L3_CONT == 1u64 << 52u64,
        FLAG_L3_DBM == 1u64 << 51u64,
        FLAG_L3_AF == 1u64 << 10u64,
        FLAG_L3_NS == 1u64 << 5u64,
        FLAG_L3_OSH == 0b10u64 << 8u64,
        FLAG_L3_ISH == 0b11u64 << 8u64,
        FLAG_L3_SH_RW_N == 0u64 << 6u64,
        FLAG_L3_SH_RW_RW == 0b01u64 << 6u64,
        FLAG_L3_SH_R_N == 0b10u64 << 6u64,
        FLAG_L3_SH_R_R == 0b11u64 << 6u64,
        FLAG_L3_ATTR_MEM == 0u64 << 2u64,
        FLAG_L3_ATTR_DEV == 1u64 << 2u64,
        FLAG_L3_ATTR_NC == 2u64 << 2u64,
        FLAG_L2_NS == 1u64 << 63u64,
{
    assert(0x0040_0000_0000_0000u64 == 1u64 << 54u64 && 0x0020_0000_0000_0000u64 == 1u64 << 53u64
        && 0x0010_0000_0000_0000u64 == 1u64 << 52u64 && 0x0008_0000_0000_0000u64 == 1u64 << 51u64
        && 0x400u64 == 1u64 << 10u64 && 0x20u64 == 1u64 << 5u64 && 0x200u64 == 0b10u64 << 8u64
        && 0x300u64 == 0b11u64 << 8u64 && 0u64 == 0u64 << 6u64 && 0x40u64 == 0b01u64 << 6u64
        && 0x80u64 == 0b10u64 << 6u64 && 0xC0u64 == 0b11u64 << 6u64 && 0u64 == 0u64 << 2u64
        && 0x4u64 == 1u64 << 2u64 && 0x8u64 == 2u64 << 2u64 && 0x8000_0000_0000_0000u64 == 1u64
        << 63u64) by (bit_vector);
}

} // verus!
