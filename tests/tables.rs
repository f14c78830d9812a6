use kernel::memmap::{Addr, Sections};
use kernel::mmu::{
    check_mmfr, init, init_el1, init_el2, init_firm, set_regs, MmuError, FLAG_DATA, FLAG_DEVICE,
    FLAG_ROM, FLAG_SRAM, FLAG_TABLE, FLAG_TEXT, FLAG_USER_DATA,
};
use kernel::table::{
    TTable, FLAG_L3_AF, FLAG_L3_ATTR_MEM, FLAG_L3_ISH, FLAG_L3_SH_RW_N, PAGESIZE,
};

fn planned_a64() -> Addr {
    let mut a = Addr::new();
    a.init(0x40080000);
    a
}

fn sections_a64() -> Sections {
    Sections {
        ram_start: 0x40000000,
        data_start: 0x40010000,
        data_end: 0x40018000,
        bss_start: 0x40020000,
        bss_end: 0x40028000,
        stack_firm_start: 0x40070000,
        stack_firm_end: 0x40030000,
        free_mem_start: 0x40080000,
    }
}

#[test]
fn planner_on_a64() {
    let a = planned_a64();
    assert_eq!(a.no_cache_start, 0x40080000);
    assert_eq!(a.no_cache_end, 0x400C0000);
    assert_eq!(a.tt_firm_start, 0x400C0000);
    assert_eq!(a.tt_firm_end, 0x40150000);
    assert_eq!(a.tt_el1_ttbr0_start, 0x40150000);
    assert_eq!(a.tt_el1_ttbr0_end, 0x401E0000);
    assert_eq!(a.tt_el1_ttbr1_start, 0x401E0000);
    assert_eq!(a.tt_el1_ttbr1_end, 0x40230000);
    assert_eq!(a.stack_size, 0x200000);
    assert_eq!(a.stack_el1_end, 0x40230000);
    assert_eq!(a.stack_el1_start, 0x40A30000);
    assert_eq!(a.stack_el0_end, 0x40A30000);
    assert_eq!(a.stack_el0_start, 0x41230000);
    assert_eq!(a.el0_heap_start, 0x41230000);
    assert_eq!(a.el0_heap_end, 0x45230000);
    assert_eq!(a.rom_start, 0x0);
    assert_eq!(a.rom_end, 0x10000);
    assert_eq!(a.sram_start, 0x10000);
    assert_eq!(a.sram_end, 0x54000);
}

#[test]
fn planner_is_idempotent() {
    let a = planned_a64();
    let mut b = planned_a64();
    b.init(0x40080000);
    assert_eq!(a, b);
}

#[test]
fn table_entry_encoding() {
    let mut t = TTable::new(0x400C0000, 1, 8);
    let flag = FLAG_L3_AF | FLAG_L3_ISH | FLAG_L3_SH_RW_N | FLAG_L3_ATTR_MEM | 0b11;
    t.map(0x40000000, 0x40000000, flag);
    let idx = ((0x40000000u64 >> 29) & 8191) * 8192 + ((0x40000000u64 >> 16) & 8191);
    assert_eq!(t.level3_at(idx as usize), 0x40000703);
    assert_eq!(t.read(0x40000000), 0x40000703);
}

#[test]
fn map_then_unmap_round_trip() {
    let mut t = TTable::new(0x400C0000, 1, 8);
    t.map(0x40010000, 0x12345678, FLAG_DEVICE);
    assert_eq!(t.read(0x40010000), 0x12340000 | FLAG_DEVICE);
    assert_eq!(t.read(0x40000000), 0);
    t.unmap(0x40010000);
    assert_eq!(t.read(0x40010000), 0);
}

#[test]
fn level2_links_level3_pages() {
    let t = TTable::new(0x400C0000, 1, 8);
    assert_eq!(t.level2_len(), 8192);
    assert_eq!(t.level3_len(), 8 * 8192);
    for i in 0..8u64 {
        assert_eq!(t.level2_at(i as usize), (0x400C0000 + PAGESIZE * (1 + i)) | 0b11);
    }
    assert_eq!(t.level2_at(8), 0);
    assert_eq!(t.level2_at(8191), 0);
    let t1 = TTable::new(0x401E0000, 1, 4);
    assert_eq!(t1.level2_at(0), 0x401F0003);
    assert_eq!(t1.level2_at(3), 0x40220003);
    assert_eq!(t1.level2_at(4), 0);
}

#[test]
fn attribute_flags_bits() {
    assert_eq!(FLAG_ROM, 0x783);
    assert_eq!(FLAG_SRAM, 0x703);
    assert_eq!(FLAG_TEXT, 0x7C3);
    assert_eq!(FLAG_DATA, 0x0060_0000_0000_0703);
    assert_eq!(FLAG_USER_DATA, 0x0060_0000_0000_0743);
    assert_eq!(FLAG_TABLE, 0x0060_0000_0000_070B);
    assert_eq!(FLAG_DEVICE, 0x0060_0000_0000_0667);
}

#[test]
fn guard_pages_after_full_init() {
    let a = planned_a64();
    let s = sections_a64();
    let (firm, (t0, t1)) = init(&a, &s, 3, 0x1).unwrap();
    let e = a.stack_el1_end;
    for i in 0..4u64 {
        assert_eq!(t1.read(e + i * 0x200000), 0);
        assert_eq!(t0.read(a.stack_el0_end + i * 0x200000), 0);
        assert_eq!(firm.read(s.stack_firm_end + i * 0x200000), 0);
    }
    assert_eq!(t1.read(e + 0x10000), (e + 0x10000) | FLAG_DATA);
    assert_eq!(t0.read(a.stack_el0_end + 0x10000), (a.stack_el0_end + 0x10000) | FLAG_USER_DATA);
}

#[test]
fn firmware_table_contents() {
    let a = planned_a64();
    let s = sections_a64();
    let t = init_firm(&a, &s);
    assert_eq!(t.base(), 0x400C0000);
    assert_eq!(t.read(0x0), FLAG_ROM);
    assert_eq!(t.read(0x10000), 0x10000 | FLAG_SRAM);
    assert_eq!(t.read(0x50000), 0x50000 | FLAG_SRAM);
    assert_eq!(t.read(0x60000), 0);
    assert_eq!(t.read(0x01000000), 0x01000000 | FLAG_DEVICE);
    assert_eq!(t.read(0x01FF0000), 0x01FF0000 | FLAG_DEVICE);
    assert_eq!(t.read(0x02000000), 0);
    assert_eq!(t.read(0x40000000), 0x40000000 | FLAG_TEXT);
    assert_eq!(t.read(0x40010000), 0x40010000 | FLAG_DATA);
    assert_eq!(t.read(0x40040000), 0x40040000 | FLAG_DATA);
    assert_eq!(t.read(0x40080000), 0x40080000 | FLAG_DATA);
    assert_eq!(t.read(0x400C0000), 0x400C0000 | FLAG_TABLE);
    assert_eq!(t.read(0x40220000), 0x40220000 | FLAG_TABLE);
    assert_eq!(t.read(0x40230000), 0);
    let t2 = init_el2(&a, &s);
    assert_eq!(t2.read(0x0), FLAG_TABLE);
    assert_eq!(t2.read(0x10000), 0x10000 | FLAG_SRAM);
}

#[test]
fn el1_table_contents() {
    let a = planned_a64();
    let s = sections_a64();
    let (t0, t1) = init_el1(&a, &s);
    assert_eq!(t0.base(), 0x40150000);
    assert_eq!(t1.base(), 0x401E0000);
    assert_eq!(t0.read(0x40000000), 0x40000000 | FLAG_TEXT);
    assert_eq!(t0.read(0x40020000), 0x40020000 | FLAG_USER_DATA);
    assert_eq!(t0.read(0x41230000), 0x41230000 | FLAG_USER_DATA);
    assert_eq!(t0.read(0x45220000), 0x45220000 | FLAG_USER_DATA);
    assert_eq!(t0.read(0x45230000), 0);
    assert_eq!(t0.read(0x01000000), 0x01000000 | FLAG_DEVICE);
    assert_eq!(t0.read(0x0), 0);
    assert_eq!(t1.read(0x40150000), 0x40150000 | FLAG_TABLE);
    assert_eq!(t1.read(0x40220000), 0x40220000 | FLAG_TABLE);
    assert_eq!(t1.read(0x400C0000), 0);
    assert_eq!(t1.read(0x40A20000), 0x40A20000 | FLAG_DATA);
}

#[test]
fn mmu_detect_failure() {
    assert_eq!(check_mmfr(0), Err(MmuError::AddressSpace36));
    assert_eq!(MmuError::AddressSpace36.message(), "ERROR: 36 bit address space not supported\n");
    assert_eq!(check_mmfr(0x0100_0001), Err(MmuError::Granule64K));
    assert_eq!(MmuError::Granule64K.message(), "ERROR: 64KiB granule not supported\n");
    assert_eq!(check_mmfr(0x5), Ok(()));
    let a = planned_a64();
    let s = sections_a64();
    assert!(init(&a, &s, 3, 0).is_none());
    assert!(init(&a, &s, 2, 0x0F00_0002).is_none());
    assert!(init(&a, &s, 2, 0x2).is_some());
}

#[test]
fn registers_for_planned_tables() {
    let a = planned_a64();
    let (firm, el1) = set_regs(&a, 0x2, 0, 0xFFFF_FFFF_FFFF_FFFF);
    assert_eq!(firm.mair, 0x4404FF);
    assert_eq!(firm.tcr, 0x8082_7516);
    assert_eq!(firm.ttbr0, 0x400C0001);
    assert_eq!(firm.sctlr, 0x1000_0000_1005);
    assert_eq!(el1.mair, 0x4404FF);
    assert_eq!(el1.tcr, 0x2_F516_7516);
    assert_eq!(el1.ttbr0, 0x40150001);
    assert_eq!(el1.ttbr1, 0x401E0001);
    assert_eq!(el1.sctlr, !0x0208_001Au64);
}

#[test]
fn no_cache_slot_per_cpu() {
    let a = planned_a64();
    assert_eq!(kernel::memmap::no_cache_addr(&a, 0), 0x40080000);
    assert_eq!(kernel::memmap::no_cache_addr(&a, 3), 0x400B0000);
}
