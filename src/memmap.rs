//! Planning of the memory that follows the kernel image.
use vstd::prelude::*;
use crate::platform::{CORE_COUNT, ROM_END, ROM_START, SRAM_END, SRAM_START};
use crate::table::PAGESIZE;

verus! {

/// Number of CPUs that get a stack and a no-cache page.
pub const NUM_CPU: u64 = CORE_COUNT;

/// Level-2 pages of the firmware table (4 TiB of address space).
pub const FIRM_LV2_TABLE_NUM: usize = 1;

/// Level-3 pages of the firmware table (512 MiB each, 4 GiB in all).
pub const FIRM_LV3_TABLE_NUM: usize = 8;

/// Pages of the firmware table.
pub const FIRM_TABLE_NUM: usize = FIRM_LV2_TABLE_NUM + FIRM_LV3_TABLE_NUM;

/// Level-2 pages of the EL1 TTBR0 table.
pub const KERN_TTBR0_LV2_TABLE_NUM: usize = 1;

/// Level-3 pages of the EL1 TTBR0 table (4 GiB).
pub const KERN_TTBR0_LV3_TABLE_NUM: usize = 8;

/// Pages of the EL1 TTBR0 table.
pub const KERN_TTBR0_TABLE_NUM: usize = KERN_TTBR0_LV2_TABLE_NUM + KERN_TTBR0_LV3_TABLE_NUM;

/// Level-2 pages of the EL1 TTBR1 table.
pub const KERN_TTBR1_LV2_TABLE_NUM: usize = 1;

/// Level-3 pages of the EL1 TTBR1 table (2 GiB).
pub const KERN_TTBR1_LV3_TABLE_NUM: usize = 4;

/// Pages of the EL1 TTBR1 table.
pub const KERN_TTBR1_TABLE_NUM: usize = KERN_TTBR1_LV2_TABLE_NUM + KERN_TTBR1_LV3_TABLE_NUM;

/// Pages of stack per CPU (2 MiB).
pub const STACK_PAGES: u64 = 32;

/// Pages of the EL0 heap (64 MiB).
pub const EL0_HEAP_PAGES: u64 = 1024;

/// Pages that the planner lays out after the start of free memory.
pub const PLANNED_PAGES: u64 = NUM_CPU + 9 + 9 + 5 + 2 * STACK_PAGES * NUM_CPU + EL0_HEAP_PAGES;

/// Addresses of the linker-script sections of the kernel image.
#[derive(Clone, Copy, Debug, PartialEq, Eq, Structural)]
pub struct Sections {
    pub ram_start: u64,
    pub data_start: u64,
    pub data_end: u64,
    pub bss_start: u64,
    pub bss_end: u64,
    pub stack_firm_start: u64,
    pub stack_firm_end: u64,
    pub free_mem_start: u64,
}

/// The kernel's memory map. Ranges are `[start, end)`, except the stacks,
/// which grow down from `start` (the higher address) to `end`.
#[derive(Clone, Copy, Debug, PartialEq, Eq, Structural)]
pub struct Addr {
    // must be same as physical
    pub no_cache_start: u64,
    pub no_cache_end: u64,
    pub tt_firm_start: u64,
    pub tt_firm_end: u64,
    pub tt_el1_ttbr0_start: u64,
    pub tt_el1_ttbr0_end: u64,
    pub tt_el1_ttbr1_start: u64,
    pub tt_el1_ttbr1_end: u64,
    pub rom_start: u64,
    pub rom_end: u64,
    pub sram_start: u64,
    pub sram_end: u64,
    pub stack_size: u64,
    // independent from physical
    pub stack_el1_end: u64,
    pub stack_el1_start: u64,
    pub stack_el0_end: u64,
    pub stack_el0_start: u64,
    pub el0_heap_start: u64,
    pub el0_heap_end: u64,
}

/// The address `pages` pages above `start`.
pub open spec fn after(start: u64, pages: int) -> u64 {
    (start + pages * PAGESIZE) as u64
}

/// The memory map laid out from `free`: each region begins where the
/// previous one ends.
pub open spec fn planned(free: u64) -> Addr {
    let n = NUM_CPU as int;
    let s = STACK_PAGES as int;
    Addr {
        no_cache_start: free,
        no_cache_end: after(free, n),
        tt_firm_start: after(free, n),
        tt_firm_end: after(free, n + 9),
        tt_el1_ttbr0_start: after(free, n + 9),
        tt_el1_ttbr0_end: after(free, n + 18),
        tt_el1_ttbr1_start: after(free, n + 18),
        tt_el1_ttbr1_end: after(free, n + 23),
        rom_start: ROM_START,
        rom_end: ROM_END,
        sram_start: SRAM_START,
        sram_end: SRAM_END,
        stack_size: (s * PAGESIZE) as u64,
        stack_el1_end: after(free, n + 23),
        stack_el1_start: after(free, n + 23 + s * n),
        stack_el0_end: after(free, n + 23 + s * n),
        stack_el0_start: after(free, n + 23 + 2 * s * n),
        el0_heap_start: after(free, n + 23 + 2 * s * n),
        el0_heap_end: after(free, n + 23 + 2 * s * n + EL0_HEAP_PAGES),
    }
}

/// Whether the planned map starting at `free` fits below the top of the
/// address space.
pub open spec fn plan_fits(free: u64) -> bool {
    free + PLANNED_PAGES * PAGESIZE <= u64::MAX
}

/// Whether the map planned from `free` fits below the top of the address
/// space.
pub fn check_plan_fits(free: u64) -> (r: bool)
    ensures
        r == plan_fits(free),
{
    free <= u64::MAX - PLANNED_PAGES * PAGESIZE
}

impl Addr {
    /// The map before planning: every field zero.
    pub fn new() -> (r: Addr)
        ensures
            r.no_cache_start == 0 && r.no_cache_end == 0,
            r.tt_firm_start == 0 && r.tt_firm_end == 0,
            r.tt_el1_ttbr0_start == 0 && r.tt_el1_ttbr0_end == 0,
            r.tt_el1_ttbr1_start == 0 && r.tt_el1_ttbr1_end == 0,
            r.rom_start == 0 && r.rom_end == 0,
            r.sram_start == 0 && r.sram_end == 0,
            r.stack_size == 0,
            r.stack_el1_end == 0 && r.stack_el1_start == 0,
            r.stack_el0_end == 0 && r.stack_el0_start == 0,
            r.el0_heap_start == 0 && r.el0_heap_end == 0,
    {
        Addr {
            no_cache_start: 0,
            no_cache_end: 0,
            tt_firm_start: 0,
            tt_firm_end: 0,
            tt_el1_ttbr0_start: 0,
            tt_el1_ttbr0_end: 0,
            tt_el1_ttbr1_start: 0,
            tt_el1_ttbr1_end: 0,
            rom_start: 0,
            rom_end: 0,
            sram_start: 0,
            sram_end: 0,
            stack_size: 0,
            stack_el1_end: 0,
            stack_el1_start: 0,
            stack_el0_end: 0,
            stack_el0_start: 0,
            el0_heap_start: 0,
            el0_heap_end: 0,
        }
    }

    /// Lays the map out from `free_mem_start`, whatever it held before:
    /// one no-cache page per CPU, the firmware table (9 pages), the EL1
    /// TTBR0 table (9 pages), the EL1 TTBR1 table (5 pages), the EL1 stacks,
    /// the EL0 stacks (2 MiB per CPU each) and the 64 MiB EL0 heap. ROM and
    /// SRAM come from the platform.
    pub fn init(&mut self, free_mem_start: u64)
        requires
            plan_fits(free_mem_start),
        ensures
            *final(self) == planned(free_mem_start),
    {
        self.no_cache_start = free_mem_start;
        self.no_cache_end = self.no_cache_start + PAGESIZE * NUM_CPU;

        // translation table for the firmware
        self.tt_firm_start = self.no_cache_end;
        self.tt_firm_end = self.tt_firm_start + PAGESIZE * FIRM_TABLE_NUM as u64;

        // translation table #0 for EL1
        self.tt_el1_ttbr0_start = self.tt_firm_end;
        self.tt_el1_ttbr0_end = self.tt_el1_ttbr0_start + PAGESIZE * KERN_TTBR0_TABLE_NUM as u64;

        // translation table #1 for EL1
        self.tt_el1_ttbr1_start = self.tt_el1_ttbr0_end;
        self.tt_el1_ttbr1_end = self.tt_el1_ttbr1_start + PAGESIZE * KERN_TTBR1_TABLE_NUM as u64;

        // 2 MiB stack for each CPU
        self.stack_size = STACK_PAGES * PAGESIZE;
        let stack_size_total = self.stack_size * NUM_CPU;

        // EL1's stacks
        self.stack_el1_end = self.tt_el1_ttbr1_end;
        self.stack_el1_start = self.stack_el1_end + stack_size_total;

        // EL0's stacks
        self.stack_el0_end = self.stack_el1_start;
        self.stack_el0_start = self.stack_el0_end + stack_size_total;

        // heap memory for EL0
        self.el0_heap_start = self.stack_el0_start;
        self.el0_heap_end = self.el0_heap_start + PAGESIZE * EL0_HEAP_PAGES;

        self.rom_start = ROM_START;
        self.rom_end = ROM_END;

        self.sram_start = SRAM_START;
        self.sram_end = SRAM_END;
    }
}

/// Planning is deterministic: two maps planned from the same start are the
/// same map, whatever either held before.
pub proof fn lemma_plan_deterministic(a: Addr, b: Addr, free: u64)
    requires
        a == planned(free),
        b == planned(free),
    ensures
        a == b,
{
}

/// The address of CPU `core`'s page in the no-cache region.
pub fn no_cache_addr(addr: &Addr, core: u64) -> (r: u64)
    requires
        core < NUM_CPU,
        addr.no_cache_start + NUM_CPU * PAGESIZE <= u64::MAX,
    ensures
        r == addr.no_cache_start + PAGESIZE * core,
{
    addr.no_cache_start + PAGESIZE * core
}

} // verus!
