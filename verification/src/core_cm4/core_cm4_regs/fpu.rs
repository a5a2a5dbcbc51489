//! Floating point unit (FPU) registers.

use vstd::prelude::*;
use crate::bitfield::is_field;
use crate::volatile_reg32::VolatileReg32;
use crate::core_cm4::constants::FPU_BASE;

verus! {

pub struct FpuRegs {
    /// Floating-point context control register.
    pub fpccr: VolatileReg32,
    /// Floating-point context address register.
    pub fpcar: VolatileReg32,
    /// Floating-point default status control register.
    pub fpdscr: VolatileReg32,
}

impl FpuRegs {
    /// Every register stands at its word offset above `base`, as the
    /// reference manual lays the block out.
    pub open spec fn laid_out_at(&self, base: u32) -> bool {
        &&& self.fpccr.address() == base + 4 * 1
        &&& self.fpcar.address() == base + 4 * 2
        &&& self.fpdscr.address() == base + 4 * 3
    }

    /// The block at its one fixed place in the memory map.
    pub fn init() -> (fpu: FpuRegs)
        ensures
            fpu.laid_out_at(FPU_BASE),
    {
        FpuRegs {
            fpccr: VolatileReg32::new_offset(FPU_BASE, 1),
            fpcar: VolatileReg32::new_offset(FPU_BASE, 2),
            fpdscr: VolatileReg32::new_offset(FPU_BASE, 3),
        }
    }
}

// Floating-Point Context Control Register
// FPCCR: ASPEN bit Position
pub const FPU_FPCCR_ASPEN_POS: u32 = 31;
// FPCCR: ASPEN bit Mask
pub const FPU_FPCCR_ASPEN_MSK: u32 = 1 << FPU_FPCCR_ASPEN_POS;

// FPCCR: LSPEN Position
pub const FPU_FPCCR_LSPEN_POS: u32 = 30;
// FPCCR: LSPEN bit Mask
pub const FPU_FPCCR_LSPEN_MSK: u32 = 1 << FPU_FPCCR_LSPEN_POS;

// FPCCR: MONRDY Position
pub const FPU_FPCCR_MONRDY_POS: u32 = 8;
// FPCCR: MONRDY bit Mask
pub const FPU_FPCCR_MONRDY_MSK: u32 = 1 << FPU_FPCCR_MONRDY_POS;

// FPCCR: BFRDY Position
pub const FPU_FPCCR_BFRDY_POS: u32 = 6;
// FPCCR: BFRDY bit Mask
pub const FPU_FPCCR_BFRDY_MSK: u32 = 1 << FPU_FPCCR_BFRDY_POS;

// FPCCR: MMRDY Position
pub const FPU_FPCCR_MMRDY_POS: u32 = 5;
// FPCCR: MMRDY bit Mask
pub const FPU_FPCCR_MMRDY_MSK: u32 = 1 << FPU_FPCCR_MMRDY_POS;

// FPCCR: HFRDY Position
pub const FPU_FPCCR_HFRDY_POS: u32 = 4;
// FPCCR: HFRDY bit Mask
pub const FPU_FPCCR_HFRDY_MSK: u32 = 1 << FPU_FPCCR_HFRDY_POS;

// FPCCR: processor mode bit Position
pub const FPU_FPCCR_THREAD_POS: u32 = 3;
// FPCCR: processor mode active bit Mask
pub const FPU_FPCCR_THREAD_MSK: u32 = 1 << FPU_FPCCR_THREAD_POS;

// FPCCR: privilege level bit Position
pub const FPU_FPCCR_USER_POS: u32 = 1;
// FPCCR: privilege level bit Mask
pub const FPU_FPCCR_USER_MSK: u32 = 1 << FPU_FPCCR_USER_POS;

// FPCCR: Lazy state preservation active bit Position
pub const FPU_FPCCR_LSPACT_POS: u32 = 0;
// FPCCR: Lazy state preservation active bit Mask
pub const FPU_FPCCR_LSPACT_MSK: u32 = 1 << FPU_FPCCR_LSPACT_POS;

// Floating-Point Context Address Register
// FPCAR: ADDRESS bit Position
pub const FPU_FPCAR_ADDRESS_POS: u32 = 3;
// FPCAR: ADDRESS bit Mask
pub const FPU_FPCAR_ADDRESS_MSK: u32 = 0x1FFFFFFF << FPU_FPCAR_ADDRESS_POS;

// Floating-Point Default Status Control Register
// FPDSCR: AHP bit Position
pub const FPU_FPDSCR_AHP_POS: u32 = 26;
// FPDSCR: AHP bit Mask
pub const FPU_FPDSCR_AHP_MSK: u32 = 1 << FPU_FPDSCR_AHP_POS;

// FPDSCR: DN bit Position
pub const FPU_FPDSCR_DN_POS: u32 = 25;
// FPDSCR: DN bit Mask
pub const FPU_FPDSCR_DN_MSK: u32 = 1 << FPU_FPDSCR_DN_POS;

// FPDSCR: FZ bit Position
pub const FPU_FPDSCR_FZ_POS: u32 = 24;
// FPDSCR: FZ bit Mask
pub const FPU_FPDSCR_FZ_MSK: u32 = 1 << FPU_FPDSCR_FZ_POS;

// FPDSCR: RMode bit Position
pub const FPU_FPDSCR_RMODE_POS: u32 = 22;
// FPDSCR: RMode bit Mask
pub const FPU_FPDSCR_RMODE_MSK: u32 = 3 << FPU_FPDSCR_RMODE_POS;

/// Each mask defined here is a field, and starts at the position that is
/// defined with it.
pub proof fn law_fpu_fields()
    ensures
        is_field(FPU_FPCCR_ASPEN_POS, FPU_FPCCR_ASPEN_MSK),
        is_field(FPU_FPCCR_LSPEN_POS, FPU_FPCCR_LSPEN_MSK),
        is_field(FPU_FPCCR_MONRDY_POS, FPU_FPCCR_MONRDY_MSK),
        is_field(FPU_FPCCR_BFRDY_POS, FPU_FPCCR_BFRDY_MSK),
        is_field(FPU_FPCCR_MMRDY_POS, FPU_FPCCR_MMRDY_MSK),
        is_field(FPU_FPCCR_HFRDY_POS, FPU_FPCCR_HFRDY_MSK),
        is_field(FPU_FPCCR_THREAD_POS, FPU_FPCCR_THREAD_MSK),
        is_field(FPU_FPCCR_USER_POS, FPU_FPCCR_USER_MSK),
        is_field(FPU_FPCCR_LSPACT_POS, FPU_FPCCR_LSPACT_MSK),
        is_field(FPU_FPCAR_ADDRESS_POS, FPU_FPCAR_ADDRESS_MSK),
        is_field(FPU_FPDSCR_AHP_POS, FPU_FPDSCR_AHP_MSK),
        is_field(FPU_FPDSCR_DN_POS, FPU_FPDSCR_DN_MSK),
        is_field(FPU_FPDSCR_FZ_POS, FPU_FPDSCR_FZ_MSK),
        is_field(FPU_FPDSCR_RMODE_POS, FPU_FPDSCR_RMODE_MSK),
{
    assert(is_field(FPU_FPCCR_ASPEN_POS, FPU_FPCCR_ASPEN_MSK)
        && is_field(FPU_FPCCR_LSPEN_POS, FPU_FPCCR_LSPEN_MSK)
        && is_field(FPU_FPCCR_MONRDY_POS, FPU_FPCCR_MONRDY_MSK)
        && is_field(FPU_FPCCR_BFRDY_POS, FPU_FPCCR_BFRDY_MSK)
        && is_field(FPU_FPCCR_MMRDY_POS, FPU_FPCCR_MMRDY_MSK)
        && is_field(FPU_FPCCR_HFRDY_POS, FPU_FPCCR_HFRDY_MSK)
        && is_field(FPU_FPCCR_THREAD_POS, FPU_FPCCR_THREAD_MSK)
        && is_field(FPU_FPCCR_USER_POS, FPU_FPCCR_USER_MSK)
        && is_field(FPU_FPCCR_LSPACT_POS, FPU_FPCCR_LSPACT_MSK)
        && is_field(FPU_FPCAR_ADDRESS_POS, FPU_FPCAR_ADDRESS_MSK)
        && is_field(FPU_FPDSCR_AHP_POS, FPU_FPDSCR_AHP_MSK)
        && is_field(FPU_FPDSCR_DN_POS, FPU_FPDSCR_DN_MSK)
        && is_field(FPU_FPDSCR_FZ_POS, FPU_FPDSCR_FZ_MSK)
        && is_field(FPU_FPDSCR_RMODE_POS, FPU_FPDSCR_RMODE_MSK)) by (bit_vector);
}

} // verus!
