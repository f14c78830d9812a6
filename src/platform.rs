//! Physical memory layout of the Allwinner A64.
use vstd::prelude::*;

verus! {

/// Start of the memory-mapped device window.
pub const DEVICE_MEM_START: u64 = 0x01000000;

/// End of the memory-mapped device window.
pub const DEVICE_MEM_END: u64 = 0x02000000;

/// Start of the boot ROM.
pub const ROM_START: u64 = 0x00000000;

/// End of the boot ROM.
pub const ROM_END: u64 = 0x00010000;

/// Start of the on-chip SRAM.
pub const SRAM_START: u64 = 0x00010000;

/// End of the on-chip SRAM.
pub const SRAM_END: u64 = 0x00054000;

/// Start of DRAM.
pub const DRAM_BASE: u64 = 0x40000000;

/// GIC distributor.
pub const SUNXI_GICD_BASE: u32 = 0x01c81000;

/// GIC CPU interface.
pub const SUNXI_GICC_BASE: u32 = 0x01c82000;

/// Clock control unit.
pub const SUNXI_CCU_BASE: u32 = 0x01c20000;

/// Number of CPU cores.
pub const CORE_COUNT: u64 = 4;

} // verus!
