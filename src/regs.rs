//! Values written to the MMU's system registers.
use vstd::prelude::*;

verus! {

/// Bits that enabling translation sets in SCTLR: DSSBS (44), I (12), C (2)
/// and M (0).
pub const SCTLR_SET: u64 = 0x1000_0000_1005;

/// Bits that enabling translation clears in SCTLR: EE (25), WXN (19),
/// SA (3) and A (1).
pub const SCTLR_CLEAR: u64 = 0x0208_000A;

/// SA0 (4), cleared in SCTLR_EL1 besides.
pub const SCTLR_SA0: u64 = 0x10;

/// The fixed bits of TCR_EL2 and TCR_EL3: RES1 (31, 23), 64 KiB granule,
/// inner shareable, write-back write-allocate cacheable walks, T0SZ = 22.
pub const TCR_FIRM_FIXED: u64 = 0x8080_7516;

/// The fixed bits of TCR_EL1: the attributes of `TCR_FIRM_FIXED`, less the
/// RES1 bits, for both TTBR0 and TTBR1, T0SZ = T1SZ = 22.
pub const TCR_EL1_FIXED: u64 = 0xF516_7516;

/// MAIR: AttrIdx 0 normal write-back, 1 device nGnRE, 2 non-cacheable.
pub const MAIR_VALUE: u64 = 0x0000_0000_0044_04FF;

/// The physical address range field, ID_AA64MMFR0_EL1[3:0].
pub open spec fn pa_range(mmfr: u64) -> u64 {
    mmfr & 0xF
}

/// Values for the MAIR, TCR, TTBR0 and SCTLR registers of EL2 or EL3.
#[derive(Clone, Copy, Debug, PartialEq, Eq, Structural)]
pub struct FirmRegs {
    pub mair: u64,
    pub tcr: u64,
    pub ttbr0: u64,
    pub sctlr: u64,
}

/// Values for the MAIR, TCR, TTBR0, TTBR1 and SCTLR registers of EL1.
#[derive(Clone, Copy, Debug, PartialEq, Eq, Structural)]
pub struct El1Regs {
    pub mair: u64,
    pub tcr: u64,
    pub ttbr0: u64,
    pub ttbr1: u64,
    pub sctlr: u64,
}

/// The EL2 or EL3 register values for the table at `ttbr`: the fixed
/// MAIR, TCR with the physical address size, TTBR0 with CnP set, and SCTLR
/// with translation and caches enabled.
pub open spec fn firm_regs_of(ttbr: u64, mmfr: u64, sctlr: u64) -> FirmRegs {
    FirmRegs {
        mair: MAIR_VALUE,
        tcr: TCR_FIRM_FIXED | (pa_range(mmfr) << 16u64),
        ttbr0: ttbr | 1,
        sctlr: (sctlr | SCTLR_SET) & !SCTLR_CLEAR,
    }
}

/// The EL1 register values for the tables at `ttbr0` and `ttbr1`: as for
/// the firmware, with both TTBRs, the EL1 TCR, and SA0 cleared as well.
pub open spec fn el1_regs_of(ttbr0: u64, ttbr1: u64, mmfr: u64, sctlr: u64) -> El1Regs {
    El1Regs {
        mair: MAIR_VALUE,
        tcr: TCR_EL1_FIXED | (pa_range(mmfr) << 32u64),
        ttbr0: ttbr0 | 1,
        ttbr1: ttbr1 | 1,
        sctlr: (sctlr | SCTLR_SET) & !SCTLR_CLEAR & !SCTLR_SA0,
    }
}

/// The memory attributes indexed by a descriptor's AttrIdx.
pub fn get_mair() -> (r: u64)
    ensures
        r == MAIR_VALUE,
{
    let r: u64 = (0xFF << 0u64) | // AttrIdx=0: normal, IWBWA, OWBWA, NTR
    (0x04 << 8u64) | // AttrIdx=1: device, nGnRE
    (0x44 << 16u64);  // AttrIdx=2: non cacheable
    assert(r == MAIR_VALUE) by (bit_vector)
        requires r == (0xFFu64 << 0u64) | (0x04u64 << 8u64) | (0x44u64 << 16u64);
    r
}

/// TCR for EL2 and EL3, with the physical address size taken from
/// ID_AA64MMFR0_EL1.
pub fn get_tcr(mmfr: u64) -> (r: u64)
    ensures
        r == TCR_FIRM_FIXED | (pa_range(mmfr) << 16u64),
{
    let b = mmfr & 0xF;
    let r: u64 = 1u64 << 31u64 | // RES1
    1u64 << 23u64 | // RES1
    b << 16u64 | // PS
    1u64 << 14u64 | // 64 KiB granule
    3u64 << 12u64 | // inner shareable
    1u64 << 10u64 | // outer write-back read-allocate write-allocate cacheable
    1u64 << 8u64 | // inner write-back read-allocate write-allocate cacheable
    22;  // T0SZ = 22: 2^42 bytes, level 2 and 3 tables
    assert(r == TCR_FIRM_FIXED | (b << 16u64)) by (bit_vector)
        requires
            b == mmfr & 0xF,
            r == 1u64 << 31u64 | 1u64 << 23u64 | b << 16u64 | 1u64 << 14u64 | 3u64 << 12u64
                | 1u64 << 10u64 | 1u64 << 8u64 | 22u64,
    ;
    r
}

/// TCR for EL1: both halves of the address space alike, with the
/// intermediate physical address size taken from ID_AA64MMFR0_EL1.
pub fn get_tcr_el1(mmfr: u64) -> (r: u64)
    ensures
        r == TCR_EL1_FIXED | (pa_range(mmfr) << 32u64),
{
    let b = mmfr & 0xF;
    let r: u64 = b << 32u64 | // IPS
    3u64 << 30u64 | // 64 KiB granule, TTBR1
    3u64 << 28u64 | // inner shareable, TTBR1
    1u64 << 26u64 | // outer cacheable walks, TTBR1
    1u64 << 24u64 | // inner cacheable walks, TTBR1
    22u64 << 16u64 | // T1SZ = 22
    1u64 << 14u64 | // 64 KiB granule, TTBR0
    3u64 << 12u64 | // inner shareable, TTBR0
    1u64 << 10u64 | // outer cacheable walks, TTBR0
    1u64 << 8u64 | // inner cacheable walks, TTBR0
    22;  // T0SZ = 22
    assert(r == TCR_EL1_FIXED | (b << 32u64)) by (bit_vector)
        requires
            b == mmfr & 0xF,
            r == b << 32u64 | 3u64 << 30u64 | 3u64 << 28u64 | 1u64 << 26u64 | 1u64 << 24u64
                | 22u64 << 16u64 | 1u64 << 14u64 | 3u64 << 12u64 | 1u64 << 10u64 | 1u64 << 8u64
                | 22u64,
    ;
    r
}

/// SCTLR with translation and caches enabled: sets M, C, I and DSSBS,
/// clears A, SA, WXN and EE, keeps every other bit.
pub fn update_sctlr(sctlr: u64) -> (r: u64)
    ensures
        r == (sctlr | SCTLR_SET) & !SCTLR_CLEAR,
{
    let s = sctlr | 1u64 << 44u64 | // DSSBS: speculative loads and stores
    1u64 << 12u64 | // I: instruction cache
    1u64 << 2u64 | // C: data cache
    1;  // M: MMU
    let r = s & !(1u64 << 25u64 | // EE
    1u64 << 19u64 | // WXN
    1u64 << 3u64 | // SA
    1u64 << 1u64);  // A
    assert(r == (sctlr | SCTLR_SET) & !SCTLR_CLEAR) by (bit_vector)
        requires
            s == sctlr | 1u64 << 44u64 | 1u64 << 12u64 | 1u64 << 2u64 | 1u64,
            r == s & !(1u64 << 25u64 | 1u64 << 19u64 | 1u64 << 3u64 | 1u64 << 1u64),
    ;
    r
}

/// Register values that enable translation at EL2 or EL3 with the table at
/// `ttbr`, given ID_AA64MMFR0_EL1 and the current SCTLR.
pub fn firm_regs(ttbr: u64, mmfr: u64, sctlr: u64) -> (r: FirmRegs)
    ensures
        r == firm_regs_of(ttbr, mmfr, sctlr),
{
    FirmRegs {
        mair: get_mair(),
        tcr: get_tcr(mmfr),
        ttbr0: ttbr | 1,
        sctlr: update_sctlr(sctlr),
    }
}

/// Register values that enable translation at EL1 with the tables at
/// `ttbr0` and `ttbr1`, given ID_AA64MMFR0_EL1 and the current SCTLR_EL1.
pub fn el1_regs(ttbr0: u64, ttbr1: u64, mmfr: u64, sctlr: u64) -> (r: El1Regs)
    ensures
        r == el1_regs_of(ttbr0, ttbr1, mmfr, sctlr),
{
    let s = update_sctlr(sctlr);
    assert(1u64 << 4u64 == SCTLR_SA0) by (bit_vector);
    El1Regs {
        mair: get_mair(),
        tcr: get_tcr_el1(mmfr),
        ttbr0: ttbr0 | 1,
        ttbr1: ttbr1 | 1,
        sctlr: s & !(1u64 << 4u64),  // clear SA0
    }
}

/// Whether translation is on, from the current exception level and its
/// SCTLR; none below EL1.
pub fn enabled(el: u64, sctlr: u64) -> (r: Option<bool>)
    ensures
        1 <= el <= 3 ==> r == Some(sctlr & 1 == 1),
        !(1 <= el <= 3) ==> r.is_none(),
{
    if el == 1 || el == 2 || el == 3 {
        Some(sctlr & 1 == 1)
    } else {
        None
    }
}

} // verus!
