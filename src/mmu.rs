//! Contents of the firmware and EL1 translation tables.
use vstd::prelude::*;
use crate::layout::{
    apply_region, guard_slot, in_range, is_guard, map_identity, page_count, page_of, reach,
    slot_entry, unmap_guards, Region,
};
use crate::memmap::{
    planned, plan_fits, Addr, Sections, FIRM_LV2_TABLE_NUM, FIRM_LV3_TABLE_NUM, KERN_TTBR0_LV2_TABLE_NUM,
    KERN_TTBR0_LV3_TABLE_NUM, KERN_TTBR1_LV2_TABLE_NUM, KERN_TTBR1_LV3_TABLE_NUM, NUM_CPU,
};
use crate::platform::{DEVICE_MEM_END, DEVICE_MEM_START};
use crate::regs::{el1_regs, el1_regs_of, firm_regs, firm_regs_of, El1Regs, FirmRegs};
use crate::table::{
    level2_entry, page_entry, zeroed, TTable, FLAG_L3_AF, FLAG_L3_ATTR_DEV, FLAG_L3_ATTR_MEM,
    FLAG_L3_ATTR_NC, FLAG_L3_ISH, FLAG_L3_NS, FLAG_L3_OSH, FLAG_L3_PXN, FLAG_L3_SH_RW_N,
    FLAG_L3_SH_RW_RW, FLAG_L3_SH_R_N, FLAG_L3_SH_R_R, FLAG_L3_XN, FLAG_TYPE_PAGE, PAGESIZE,
};

verus! {

/// ROM: read-only at every privileged level, no access at EL0.
pub const FLAG_ROM: u64 = FLAG_L3_AF | FLAG_L3_ISH | FLAG_L3_SH_R_N | FLAG_L3_ATTR_MEM
    | FLAG_TYPE_PAGE;

/// SRAM: read/write, no access at EL0.
pub const FLAG_SRAM: u64 = FLAG_L3_AF | FLAG_L3_ISH | FLAG_L3_SH_RW_N | FLAG_L3_ATTR_MEM
    | FLAG_TYPE_PAGE;

/// Kernel text: read-only at EL1 and EL0, executable.
pub const FLAG_TEXT: u64 = FLAG_L3_AF | FLAG_L3_ISH | FLAG_L3_SH_R_R | FLAG_L3_ATTR_MEM
    | FLAG_TYPE_PAGE;

/// Privileged data: read/write, no access at EL0, never executable.
pub const FLAG_DATA: u64 = FLAG_L3_XN | FLAG_L3_PXN | FLAG_L3_AF | FLAG_L3_ISH | FLAG_L3_SH_RW_N
    | FLAG_L3_ATTR_MEM | FLAG_TYPE_PAGE;

/// Data shared with EL0: read/write at every level, never executable.
pub const FLAG_USER_DATA: u64 = FLAG_L3_XN | FLAG_L3_PXN | FLAG_L3_AF | FLAG_L3_ISH
    | FLAG_L3_SH_RW_RW | FLAG_L3_ATTR_MEM | FLAG_TYPE_PAGE;

/// Translation-table storage: non-cacheable, read/write, no access at EL0.
pub const FLAG_TABLE: u64 = FLAG_L3_XN | FLAG_L3_PXN | FLAG_L3_AF | FLAG_L3_ISH | FLAG_L3_SH_RW_N
    | FLAG_L3_ATTR_MEM | FLAG_L3_ATTR_NC | FLAG_TYPE_PAGE;

/// Devices: non-secure, outer shareable device memory, read/write at every
/// level, never executable.
pub const FLAG_DEVICE: u64 = FLAG_L3_NS | FLAG_L3_XN | FLAG_L3_PXN | FLAG_L3_AF | FLAG_L3_OSH
    | FLAG_L3_SH_RW_RW | FLAG_L3_ATTR_DEV | FLAG_TYPE_PAGE;

/// Number of level-3 descriptors of a firmware or TTBR0 table.
pub open spec fn lv3_len_8() -> nat {
    8192 * 8
}

/// Number of level-3 descriptors of a TTBR1 table.
pub open spec fn lv3_len_4() -> nat {
    8192 * 4
}

/// Level-3 descriptors of the firmware table.
pub open spec fn firm_layout(addr: Addr, sec: Sections) -> Seq<u64> {
    let t = zeroed(lv3_len_8());
    let t = apply_region(t, Region::Identity { start: addr.rom_start, end: addr.rom_end, flag: FLAG_ROM });
    let t = apply_region(t, Region::Identity { start: addr.sram_start, end: addr.sram_end, flag: FLAG_SRAM });
    let t = apply_region(t, Region::Identity { start: sec.ram_start, end: sec.data_start, flag: FLAG_TEXT });
    let t = apply_region(t, Region::Identity { start: sec.data_start, end: sec.bss_start, flag: FLAG_DATA });
    let t = apply_region(t, Region::Identity { start: sec.bss_start, end: sec.stack_firm_end, flag: FLAG_DATA });
    let t = apply_region(t, Region::Identity { start: sec.stack_firm_end, end: sec.stack_firm_start, flag: FLAG_DATA });
    let t = apply_region(t, Region::Guards { base: sec.stack_firm_end, stride: addr.stack_size });
    let t = apply_region(t, Region::Identity { start: addr.no_cache_start, end: addr.no_cache_end, flag: FLAG_DATA });
    let t = apply_region(t, Region::Identity { start: addr.tt_firm_start, end: addr.tt_firm_end, flag: FLAG_TABLE });
    let t = apply_region(t, Region::Identity { start: addr.tt_el1_ttbr0_start, end: addr.tt_el1_ttbr0_end, flag: FLAG_TABLE });
    let t = apply_region(t, Region::Identity { start: addr.tt_el1_ttbr1_start, end: addr.tt_el1_ttbr1_end, flag: FLAG_TABLE });
    apply_region(t, Region::Identity { start: DEVICE_MEM_START, end: DEVICE_MEM_END, flag: FLAG_DEVICE })
}

/// Level-3 descriptors of the EL1 TTBR0 (user space) table.
pub open spec fn ttbr0_layout(addr: Addr, sec: Sections) -> Seq<u64> {
    let t = zeroed(lv3_len_8());
    let t = apply_region(t, Region::Identity { start: sec.ram_start, end: sec.data_start, flag: FLAG_TEXT });
    let t = apply_region(t, Region::Identity { start: sec.data_start, end: sec.bss_start, flag: FLAG_USER_DATA });
    let t = apply_region(t, Region::Identity { start: sec.bss_start, end: sec.stack_firm_end, flag: FLAG_USER_DATA });
    let t = apply_region(t, Region::Identity { start: addr.stack_el0_end, end: addr.stack_el0_start, flag: FLAG_USER_DATA });
    let t = apply_region(t, Region::Guards { base: addr.stack_el0_end, stride: addr.stack_size });
    let t = apply_region(t, Region::Identity { start: addr.el0_heap_start, end: addr.el0_heap_end, flag: FLAG_USER_DATA });
    apply_region(t, Region::Identity { start: DEVICE_MEM_START, end: DEVICE_MEM_END, flag: FLAG_DEVICE })
}

/// Level-3 descriptors of the EL1 TTBR1 (kernel space) table.
pub open spec fn ttbr1_layout(addr: Addr) -> Seq<u64> {
    let t = zeroed(lv3_len_4());
    let t = apply_region(t, Region::Identity { start: addr.stack_el1_end, end: addr.stack_el1_start, flag: FLAG_DATA });
    let t = apply_region(t, Region::Guards { base: addr.stack_el1_end, stride: addr.stack_size });
    let t = apply_region(t, Region::Identity { start: addr.tt_el1_ttbr0_start, end: addr.tt_el1_ttbr0_end, flag: FLAG_TABLE });
    apply_region(t, Region::Identity { start: addr.tt_el1_ttbr1_start, end: addr.tt_el1_ttbr1_end, flag: FLAG_TABLE })
}

/// The CPU stacks' guard pages, from `base` in steps of `stride`, lie in
/// the first `n3` level-3 pages.
pub open spec fn guards_fit(base: u64, stride: u64, n3: nat) -> bool {
    base + (NUM_CPU - 1) * stride < reach(n3)
}

/// Every region of the firmware table lies in its 4 GiB, and the table's
/// storage fits below the top of the address space.
pub open spec fn firm_fits(addr: Addr, sec: Sections) -> bool {
    let top = reach(8);
    &&& addr.rom_end <= top
    &&& addr.sram_end <= top
    &&& sec.data_start <= top
    &&& sec.bss_start <= top
    &&& sec.stack_firm_end <= top
    &&& sec.stack_firm_start <= top
    &&& guards_fit(sec.stack_firm_end, addr.stack_size, 8)
    &&& addr.no_cache_end <= top
    &&& addr.tt_firm_end <= top
    &&& addr.tt_el1_ttbr0_end <= top
    &&& addr.tt_el1_ttbr1_end <= top
    &&& addr.tt_firm_start + PAGESIZE * 9 <= u64::MAX
}

/// Every region of the EL1 tables lies in the table's reach (4 GiB for
/// TTBR0, 2 GiB for TTBR1), and the tables' storage fits below the top of
/// the address space.
pub open spec fn el1_fits(addr: Addr, sec: Sections) -> bool {
    &&& sec.data_start <= reach(8)
    &&& sec.bss_start <= reach(8)
    &&& sec.stack_firm_end <= reach(8)
    &&& addr.stack_el0_start <= reach(8)
    &&& guards_fit(addr.stack_el0_end, addr.stack_size, 8)
    &&& addr.el0_heap_end <= reach(8)
    &&& addr.stack_el1_start <= reach(4)
    &&& guards_fit(addr.stack_el1_end, addr.stack_size, 4)
    &&& addr.tt_el1_ttbr0_end <= reach(4)
    &&& addr.tt_el1_ttbr1_end <= reach(4)
    &&& addr.tt_el1_ttbr0_start + PAGESIZE * 9 <= u64::MAX
    &&& addr.tt_el1_ttbr1_start + PAGESIZE * 5 <= u64::MAX
}

/// Whether `base + (NUM_CPU - 1) * stride` lies below `top`.
fn check_guards_fit(base: u64, stride: u64, top: u64) -> (r: bool)
    requires
        top <= 0x1_0000_0000,
    ensures
        r == (base + (NUM_CPU - 1) * stride < top),
{
    if base < top && stride < top {
        assert((NUM_CPU - 1) * stride <= 3 * 0x1_0000_0000) by (nonlinear_arith)
            requires stride < 0x1_0000_0000, NUM_CPU == 4;
        base + (NUM_CPU - 1) * stride < top
    } else {
        assert(base + (NUM_CPU - 1) * stride >= top) by (nonlinear_arith)
            requires base >= top || stride >= top, NUM_CPU == 4, base >= 0, stride >= 0;
        false
    }
}

/// Whether the map and the sections satisfy `firm_fits` and `el1_fits`.
pub fn check_tables_fit(addr: &Addr, sec: &Sections) -> (r: bool)
    ensures
        r == (firm_fits(*addr, *sec) && el1_fits(*addr, *sec)),
{
    let top8: u64 = 0x1_0000_0000;
    let top4: u64 = 0x8000_0000;
    addr.rom_end <= top8 && addr.sram_end <= top8 && sec.data_start <= top8 && sec.bss_start
        <= top8 && sec.stack_firm_end <= top8 && sec.stack_firm_start <= top8 && check_guards_fit(
        sec.stack_firm_end,
        addr.stack_size,
        top8,
    ) && addr.no_cache_end <= top8 && addr.tt_firm_end <= top8 && addr.tt_el1_ttbr0_end <= top8
        && addr.tt_el1_ttbr1_end <= top8 && addr.tt_firm_start <= u64::MAX - PAGESIZE * 9
        && addr.stack_el0_start <= top8 && check_guards_fit(addr.stack_el0_end, addr.stack_size, top8)
        && addr.el0_heap_end <= top8 && addr.stack_el1_start <= top4 && check_guards_fit(
        addr.stack_el1_end,
        addr.stack_size,
        top4,
    ) && addr.tt_el1_ttbr0_end <= top4 && addr.tt_el1_ttbr1_end <= top4
        && addr.tt_el1_ttbr0_start <= u64::MAX - PAGESIZE * 9 && addr.tt_el1_ttbr1_start
        <= u64::MAX - PAGESIZE * 5
}

/// A freshly built table of `n2` level-2 and `n3` level-3 pages at `base`
/// with the level-3 descriptors `l3`.
pub open spec fn built(t: TTable, base: u64, n2: nat, n3: nat, l3: Seq<u64>) -> bool {
    &&& t.wf()
    &&& t.base_addr() == base
    &&& t.lv2_pages() == n2
    &&& t.lv3_pages() == n3
    &&& t.level3() == l3
    &&& t.level2().len() == 8192 * n2
    &&& forall|i: int|
        0 <= i < t.level2().len() ==> #[trigger] t.level2()[i] == level2_entry(base, n2, n3, i)
}

/// Builds the firmware table: identity mappings of ROM, SRAM, the kernel
/// image, the firmware stacks (less each CPU's guard page), the no-cache
/// pages, the translation tables and the device window.
pub fn init_firm(addr: &Addr, sec: &Sections) -> (r: TTable)
    requires
        firm_fits(*addr, *sec),
    ensures
        built(r, addr.tt_firm_start, 1, 8, firm_layout(*addr, *sec)),
{
    let mut table = TTable::new(addr.tt_firm_start, FIRM_LV2_TABLE_NUM, FIRM_LV3_TABLE_NUM);
    // ROM, SRAM
    map_identity(&mut table, addr.rom_start, addr.rom_end, FLAG_ROM);
    map_identity(&mut table, addr.sram_start, addr.sram_end, FLAG_SRAM);
    // .init and .text
    map_identity(&mut table, sec.ram_start, sec.data_start, FLAG_TEXT);
    // .data and .bss
    map_identity(&mut table, sec.data_start, sec.bss_start, FLAG_DATA);
    map_identity(&mut table, sec.bss_start, sec.stack_firm_end, FLAG_DATA);
    // firmware stacks, each with an unmapped guard page at its low end
    map_identity(&mut table, sec.stack_firm_end, sec.stack_firm_start, FLAG_DATA);
    unmap_guards(&mut table, sec.stack_firm_end, addr.stack_size);
    // non-cached memory
    map_identity(&mut table, addr.no_cache_start, addr.no_cache_end, FLAG_DATA);
    // translation tables
    map_identity(&mut table, addr.tt_firm_start, addr.tt_firm_end, FLAG_TABLE);
    map_identity(&mut table, addr.tt_el1_ttbr0_start, addr.tt_el1_ttbr0_end, FLAG_TABLE);
    map_identity(&mut table, addr.tt_el1_ttbr1_start, addr.tt_el1_ttbr1_end, FLAG_TABLE);
    // devices
    map_identity(&mut table, DEVICE_MEM_START, DEVICE_MEM_END, FLAG_DEVICE);
    table
}

/// The firmware table for EL3.
pub fn init_el3(addr: &Addr, sec: &Sections) -> (r: TTable)
    requires
        firm_fits(*addr, *sec),
    ensures
        built(r, addr.tt_firm_start, 1, 8, firm_layout(*addr, *sec)),
{
    init_firm(addr, sec)
}

/// The firmware table for EL2: as for EL3, with the page at address 0
/// also mapped onto itself, for the early exception vectors.
pub fn init_el2(addr: &Addr, sec: &Sections) -> (r: TTable)
    requires
        firm_fits(*addr, *sec),
    ensures
        built(
            r,
            addr.tt_firm_start,
            1,
            8,
            firm_layout(*addr, *sec).update(0, page_entry(0, FLAG_TABLE)),
        ),
{
    let mut table = init_firm(addr, sec);
    proof {
        crate::table::lemma_slot_is_page_number(0);
    }
    table.map(0, 0, FLAG_TABLE);
    table
}

/// Builds the EL1 tables. TTBR0 (user space): the kernel image, the EL0
/// stacks (less each guard page), the EL0 heap and the device window.
/// TTBR1 (kernel space): the EL1 stacks (less each guard page) and the
/// storage of both EL1 tables.
pub fn init_el1(addr: &Addr, sec: &Sections) -> (r: (TTable, TTable))
    requires
        el1_fits(*addr, *sec),
    ensures
        built(r.0, addr.tt_el1_ttbr0_start, 1, 8, ttbr0_layout(*addr, *sec)),
        built(r.1, addr.tt_el1_ttbr1_start, 1, 4, ttbr1_layout(*addr)),
{
    // TTBR0: user space
    let mut table0 = TTable::new(
        addr.tt_el1_ttbr0_start,
        KERN_TTBR0_LV2_TABLE_NUM,
        KERN_TTBR0_LV3_TABLE_NUM,
    );
    map_identity(&mut table0, sec.ram_start, sec.data_start, FLAG_TEXT);
    map_identity(&mut table0, sec.data_start, sec.bss_start, FLAG_USER_DATA);
    map_identity(&mut table0, sec.bss_start, sec.stack_firm_end, FLAG_USER_DATA);
    map_identity(&mut table0, addr.stack_el0_end, addr.stack_el0_start, FLAG_USER_DATA);
    unmap_guards(&mut table0, addr.stack_el0_end, addr.stack_size);
    map_identity(&mut table0, addr.el0_heap_start, addr.el0_heap_end, FLAG_USER_DATA);
    map_identity(&mut table0, DEVICE_MEM_START, DEVICE_MEM_END, FLAG_DEVICE);

    // TTBR1: kernel space
    let mut table1 = TTable::new(
        addr.tt_el1_ttbr1_start,
        KERN_TTBR1_LV2_TABLE_NUM,
        KERN_TTBR1_LV3_TABLE_NUM,
    );
    map_identity(&mut table1, addr.stack_el1_end, addr.stack_el1_start, FLAG_DATA);
    unmap_guards(&mut table1, addr.stack_el1_end, addr.stack_size);
    map_identity(&mut table1, addr.tt_el1_ttbr0_start, addr.tt_el1_ttbr0_end, FLAG_TABLE);
    map_identity(&mut table1, addr.tt_el1_ttbr1_start, addr.tt_el1_ttbr1_end, FLAG_TABLE);

    (table0, table1)
}

/// Why the MMU cannot be brought up.
#[derive(Clone, Copy, Debug, PartialEq, Eq, Structural)]
pub enum MmuError {
    /// ID_AA64MMFR0_EL1[3:0] is 0: fewer than 36 bits of physical address.
    AddressSpace36,
    /// ID_AA64MMFR0_EL1[27:24] is not 0: no 64 KiB granule.
    Granule64K,
}

impl MmuError {
    /// The line reported on the diagnostic console.
    pub fn message(&self) -> (r: &'static str)
        ensures
            *self == MmuError::AddressSpace36 ==> r@ == "ERROR: 36 bit address space not supported\n"@,
            *self == MmuError::Granule64K ==> r@ == "ERROR: 64KiB granule not supported\n"@,
    {
        match self {
            MmuError::AddressSpace36 => "ERROR: 36 bit address space not supported\n",
            MmuError::Granule64K => "ERROR: 64KiB granule not supported\n",
        }
    }
}

/// The outcome of the feature check on ID_AA64MMFR0_EL1.
pub open spec fn mmfr_outcome(mmfr: u64) -> Result<(), MmuError> {
    if mmfr & 0xF < 1 {
        Err(MmuError::AddressSpace36)
    } else if mmfr & 0x0F00_0000 != 0 {
        Err(MmuError::Granule64K)
    } else {
        Ok(())
    }
}

/// Checks that ID_AA64MMFR0_EL1 reports at least 36 bits of physical
/// address ([3:0] at least 1) and the 64 KiB granule ([27:24] zero).
pub fn check_mmfr(mmfr: u64) -> (r: Result<(), MmuError>)
    ensures
        r == mmfr_outcome(mmfr),
{
    let b = mmfr & 0xF;
    if b < 1 {
        return Err(MmuError::AddressSpace36);
    }
    assert(0xFu64 << 24u64 == 0x0F00_0000u64) by (bit_vector);
    if mmfr & (0xFu64 << 24u64) != 0 {
        return Err(MmuError::Granule64K);
    }
    Ok(())
}

/// Builds the firmware table (for EL2 when `el` is 2, else for EL3) and the
/// EL1 tables, once ID_AA64MMFR0_EL1 shows the features they need; none
/// otherwise.
pub fn init(addr: &Addr, sec: &Sections, el: u64, mmfr: u64) -> (r: Option<(TTable, (TTable, TTable))>)
    requires
        firm_fits(*addr, *sec),
        el1_fits(*addr, *sec),
    ensures
        r.is_none() <==> mmfr_outcome(mmfr).is_err(),
        r matches Some((firm, el1)) ==> {
            &&& el == 2 ==> built(
                firm,
                addr.tt_firm_start,
                1,
                8,
                firm_layout(*addr, *sec).update(0, page_entry(0, FLAG_TABLE)),
            )
            &&& el != 2 ==> built(firm, addr.tt_firm_start, 1, 8, firm_layout(*addr, *sec))
            &&& built(el1.0, addr.tt_el1_ttbr0_start, 1, 8, ttbr0_layout(*addr, *sec))
            &&& built(el1.1, addr.tt_el1_ttbr1_start, 1, 4, ttbr1_layout(*addr))
        },
{
    if check_mmfr(mmfr).is_err() {
        return None;
    }
    let table_firm = if el == 2 {
        init_el2(addr, sec)
    } else {
        init_el3(addr, sec)
    };
    let table_el1 = init_el1(addr, sec);
    Some((table_firm, table_el1))
}

/// Register values that turn translation on against tables already built
/// from `addr`: for the firmware level, and for EL1.
pub fn set_regs(addr: &Addr, mmfr: u64, sctlr_firm: u64, sctlr_el1: u64) -> (r: (FirmRegs, El1Regs))
    ensures
        r.0 == firm_regs_of(addr.tt_firm_start, mmfr, sctlr_firm),
        r.1 == el1_regs_of(addr.tt_el1_ttbr0_start, addr.tt_el1_ttbr1_start, mmfr, sctlr_el1),
{
    let firm = firm_regs(addr.tt_firm_start, mmfr, sctlr_firm);
    let el1 = el1_regs(addr.tt_el1_ttbr0_start, addr.tt_el1_ttbr1_start, mmfr, sctlr_el1);
    (firm, el1)
}

/// The output-address field of a page descriptor, bits [47:16].
pub const OUTPUT_ADDR_MASK: u64 = 0x0000_FFFF_FFFF_0000;

/// Attribute bits that make a page descriptor and leave the output address
/// to the page.
pub open spec fn page_flag(flag: u64) -> bool {
    flag & 0b11 == 0b11 && flag & OUTPUT_ADDR_MASK == 0
}

/// Slot `j` is unmapped, or maps page `j` onto itself as a page descriptor.
pub open spec fn identity_entry(e: u64, j: int) -> bool {
    e == 0 || (e & 0b11 == 0b11 && ((e & OUTPUT_ADDR_MASK) >> 16u64) as int == j)
}

/// Every slot of `t` is unmapped or an identity page descriptor.
pub open spec fn identity_table(t: Seq<u64>) -> bool {
    forall|j: int| 0 <= j < t.len() ==> identity_entry(#[trigger] t[j], j)
}

/// The region maps with page descriptor bits, or clears guard pages.
pub open spec fn page_region(r: Region) -> bool {
    match r {
        Region::Identity { start, end, flag } => page_flag(flag),
        Region::Guards { base, stride } => true,
    }
}

/// The attribute sets used in the tables, bit for bit.
pub proof fn lemma_flag_values()
    ensures
        FLAG_ROM == 0x783,
        FLAG_SRAM == 0x703,
        FLAG_TEXT == 0x7C3,
        FLAG_DATA == 0x0060_0000_0000_0703,
        FLAG_USER_DATA == 0x0060_0000_0000_0743,
        FLAG_TABLE == 0x0060_0000_0000_070B,
        FLAG_DEVICE == 0x0060_0000_0000_0667,
        page_flag(FLAG_ROM),
        page_flag(FLAG_SRAM),
        page_flag(FLAG_TEXT),
        page_flag(FLAG_DATA),
        page_flag(FLAG_USER_DATA),
        page_flag(FLAG_TABLE),
        page_flag(FLAG_DEVICE),
{
    assert(0x783u64 & 0b11u64 == 0b11u64 && 0x783u64 & 0x0000_FFFF_FFFF_0000u64 == 0u64
        && 0x703u64 & 0b11u64 == 0b11u64 && 0x703u64 & 0x0000_FFFF_FFFF_0000u64 == 0u64
        && 0x7C3u64 & 0b11u64 == 0b11u64 && 0x7C3u64 & 0x0000_FFFF_FFFF_0000u64 == 0u64
        && 0x0060_0000_0000_0703u64 & 0b11u64 == 0b11u64
        && 0x0060_0000_0000_0703u64 & 0x0000_FFFF_FFFF_0000u64 == 0u64
        && 0x0060_0000_0000_0743u64 & 0b11u64 == 0b11u64
        && 0x0060_0000_0000_0743u64 & 0x0000_FFFF_FFFF_0000u64 == 0u64
        && 0x0060_0000_0000_070Bu64 & 0b11u64 == 0b11u64
        && 0x0060_0000_0000_070Bu64 & 0x0000_FFFF_FFFF_0000u64 == 0u64
        && 0x0060_0000_0000_0667u64 & 0b11u64 == 0b11u64
        && 0x0060_0000_0000_0667u64 & 0x0000_FFFF_FFFF_0000u64 == 0u64) by (bit_vector);
    assert(FLAG_ROM == 0x783u64 && FLAG_SRAM == 0x703u64 && FLAG_TEXT == 0x7C3u64 && FLAG_DATA
        == 0x0060_0000_0000_0703u64 && FLAG_USER_DATA == 0x0060_0000_0000_0743u64 && FLAG_TABLE
        == 0x0060_0000_0000_070Bu64 && FLAG_DEVICE == 0x0060_0000_0000_0667u64) by (bit_vector);
}

/// The identity descriptor of slot `j` below 2^16 has the page bits of
/// `flag` and page number `j`.
proof fn lemma_slot_entry_identity(j: int, flag: u64)
    requires
        0 <= j < 0x10000,
        page_flag(flag),
    ensures
        identity_entry(slot_entry(j, flag), j),
{
    let jj = j as u64;
    assert((((jj * 65536u64) as u64 | flag) & 0b11u64 == 0b11u64) && (((((jj * 65536u64) as u64)
        | flag) & 0x0000_FFFF_FFFF_0000u64) >> 16u64 == jj)) by (bit_vector)
        requires
            jj < 0x10000u64,
            flag & 0b11u64 == 0b11u64,
            flag & 0x0000_FFFF_FFFF_0000u64 == 0u64,
    ;
    assert((j * PAGESIZE) as u64 == (jj * 65536u64) as u64);
}

/// Applying a page region to a table of identity descriptors keeps it one.
proof fn lemma_region_identity(t: Seq<u64>, r: Region)
    requires
        identity_table(t),
        t.len() <= 0x10000,
        page_region(r),
    ensures
        identity_table(apply_region(t, r)),
        apply_region(t, r).len() == t.len(),
{
    let u = apply_region(t, r);
    assert forall|j: int| 0 <= j < u.len() implies identity_entry(#[trigger] u[j], j) by {
        match r {
            Region::Identity { start, end, flag } => {
                if in_range(start, end, j) {
                    lemma_slot_entry_identity(j, flag);
                }
            },
            Region::Guards { base, stride } => {},
        }
    }
}

/// Every slot of every table that `init` builds is unmapped or a page
/// descriptor that maps the slot's page onto itself.
pub proof fn lemma_tables_map_identity(addr: Addr, sec: Sections)
    ensures
        identity_table(firm_layout(addr, sec)),
        identity_table(firm_layout(addr, sec).update(0, page_entry(0, FLAG_TABLE))),
        identity_table(ttbr0_layout(addr, sec)),
        identity_table(ttbr1_layout(addr)),
{
    lemma_flag_values();
    assert forall|t: Seq<u64>, r: Region|
        identity_table(t) && t.len() <= 0x10000 && page_region(r) implies identity_table(
        #[trigger] apply_region(t, r)) && apply_region(t, r).len() == t.len() by {
        lemma_region_identity(t, r);
    }
    assert(identity_table(zeroed(lv3_len_8())));
    assert(identity_table(zeroed(lv3_len_4())));
    let f = firm_layout(addr, sec);
    assert(identity_table(f));
    assert(page_entry(0, FLAG_TABLE) == FLAG_TABLE) by (bit_vector)
        requires FLAG_TABLE == 0x0060_0000_0000_070Bu64;
    lemma_slot_entry_identity(0, FLAG_TABLE);
    assert(slot_entry(0, FLAG_TABLE) == FLAG_TABLE) by (bit_vector)
        requires FLAG_TABLE == 0x0060_0000_0000_070Bu64;
    let f2 = f.update(0, page_entry(0, FLAG_TABLE));
    assert forall|j: int| 0 <= j < f2.len() implies identity_entry(#[trigger] f2[j], j) by {
        if j != 0 {
            assert(identity_entry(f[j], j));
        }
    }
    assert(identity_table(ttbr0_layout(addr, sec)));
    assert(identity_table(ttbr1_layout(addr)));
}

/// Page numbers keep the order of addresses a page or more apart.
proof fn lemma_page_order(x: int, y: int)
    requires
        0 <= x,
        x + PAGESIZE <= y,
    ensures
        x / (PAGESIZE as int) < y / (PAGESIZE as int),
{
    assert(x / 65536 < y / 65536) by (nonlinear_arith)
        requires 0 <= x, x + 65536 <= y;
}

/// Page numbers are monotone.
proof fn lemma_page_mono(x: int, y: int)
    requires
        0 <= x <= y,
    ensures
        x / (PAGESIZE as int) <= y / (PAGESIZE as int),
{
    assert(x / 65536 <= y / 65536) by (nonlinear_arith)
        requires 0 <= x <= y;
}

/// A region of `k` whole pages from `s` ends at the page `k` above that of `s`.
proof fn lemma_pages_above(s: u64, k: int)
    requires
        0 <= k,
        s + k * PAGESIZE <= u64::MAX,
    ensures
        page_of(s) + page_count(s, (s + k * PAGESIZE) as u64) == page_of((s + k * PAGESIZE) as u64),
{
    crate::layout::lemma_page_step(s, k);
    if k > 0 {
        assert(((k * 65536 + 65535) / 65536) == k) by (nonlinear_arith)
            requires k > 0;
    }
}

/// With the map planned from the start of free memory, each CPU's
/// firmware-stack guard page stays unmapped in the firmware table when the
/// guard pages lie above the device window and below free memory.
pub proof fn lemma_firm_guards_unmapped(addr: Addr, sec: Sections, c: int)
    requires
        addr == planned(sec.free_mem_start),
        plan_fits(sec.free_mem_start),
        firm_fits(addr, sec),
        DEVICE_MEM_END <= sec.stack_firm_end,
        sec.stack_firm_end + (NUM_CPU - 1) * addr.stack_size + PAGESIZE <= sec.free_mem_start,
        0 <= c < NUM_CPU,
    ensures
        firm_layout(addr, sec)[guard_slot(sec.stack_firm_end, addr.stack_size, c)] == 0,
        firm_layout(addr, sec).update(0, page_entry(0, FLAG_TABLE))[guard_slot(
            sec.stack_firm_end,
            addr.stack_size,
            c,
        )] == 0,
{
    let free = sec.free_mem_start;
    let x = sec.stack_firm_end + c * addr.stack_size;
    let g = guard_slot(sec.stack_firm_end, addr.stack_size, c);
    assert(c * addr.stack_size <= (NUM_CPU - 1) * addr.stack_size) by (nonlinear_arith)
        requires 0 <= c < NUM_CPU;
    assert(0 <= c * addr.stack_size) by (nonlinear_arith)
        requires 0 <= c;
    lemma_page_order(x, free as int);
    lemma_page_mono(DEVICE_MEM_END as int, x);
    assert(x < reach(8));
    lemma_page_mono(x, reach(8) - 1);
    assert(is_guard(sec.stack_firm_end, addr.stack_size, g));
    lemma_page_mono(free as int, addr.tt_firm_start as int);
    lemma_page_mono(free as int, addr.tt_el1_ttbr0_start as int);
    lemma_page_mono(free as int, addr.tt_el1_ttbr1_start as int);
    assert(firm_layout(addr, sec)[g] == 0);
}

/// With the map planned from the start of free memory above the device
/// window, each CPU's EL0 stack guard page stays unmapped in the TTBR0
/// table.
pub proof fn lemma_ttbr0_guards_unmapped(addr: Addr, sec: Sections, c: int)
    requires
        addr == planned(sec.free_mem_start),
        plan_fits(sec.free_mem_start),
        el1_fits(addr, sec),
        DEVICE_MEM_END <= sec.free_mem_start,
        0 <= c < NUM_CPU,
    ensures
        ttbr0_layout(addr, sec)[guard_slot(addr.stack_el0_end, addr.stack_size, c)] == 0,
{
    let x = addr.stack_el0_end + c * addr.stack_size;
    let g = guard_slot(addr.stack_el0_end, addr.stack_size, c);
    assert(c * addr.stack_size <= (NUM_CPU - 1) * addr.stack_size) by (nonlinear_arith)
        requires 0 <= c < NUM_CPU;
    assert(0 <= c * addr.stack_size) by (nonlinear_arith)
        requires 0 <= c;
    lemma_page_order(x, addr.el0_heap_start as int);
    lemma_page_mono(DEVICE_MEM_END as int, x);
    lemma_page_mono(x, reach(8) - 1);
    assert(is_guard(addr.stack_el0_end, addr.stack_size, g));
    assert(ttbr0_layout(addr, sec)[g] == 0);
}

/// With the map planned from the start of free memory, each CPU's EL1
/// stack guard page stays unmapped in the TTBR1 table.
pub proof fn lemma_ttbr1_guards_unmapped(addr: Addr, c: int)
    requires
        addr == planned(addr.no_cache_start),
        plan_fits(addr.no_cache_start),
        addr.stack_el1_end + (NUM_CPU - 1) * addr.stack_size < reach(4),
        0 <= c < NUM_CPU,
    ensures
        ttbr1_layout(addr)[guard_slot(addr.stack_el1_end, addr.stack_size, c)] == 0,
{
    let x = addr.stack_el1_end + c * addr.stack_size;
    let g = guard_slot(addr.stack_el1_end, addr.stack_size, c);
    assert(c * addr.stack_size <= (NUM_CPU - 1) * addr.stack_size) by (nonlinear_arith)
        requires 0 <= c < NUM_CPU;
    assert(0 <= c * addr.stack_size) by (nonlinear_arith)
        requires 0 <= c;
    lemma_page_mono(addr.stack_el1_end as int, x);
    lemma_page_mono(x, reach(4) - 1);
    lemma_pages_above(addr.tt_el1_ttbr0_start, 9);
    lemma_pages_above(addr.tt_el1_ttbr1_start, 5);
    assert(is_guard(addr.stack_el1_end, addr.stack_size, g));
    assert(ttbr1_layout(addr)[g] == 0);
}

} // verus!
