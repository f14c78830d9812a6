//! Translation-table construction, memory-map planning, MMU register values
//! and early-boot locks for a multi-core AArch64 kernel.
pub mod lock_model;
pub mod boot;
pub mod layout;
pub mod lock;
pub mod memmap;
pub mod mmu;
pub mod platform;
pub mod regs;
pub mod table;
