//! System control registers that are not in the SCB.

use vstd::prelude::*;
use crate::bitfield::is_field;
use crate::volatile_reg32::VolatileReg32;
use crate::core_cm4::constants::SCS_BASE;

verus! {

pub struct ScNScbRegs {
    /// Interrupt controller type register (read only).
    pub ictr: VolatileReg32,
    /// Auxiliary control register.
    pub actlr: VolatileReg32,
}

impl ScNScbRegs {
    /// Every register stands at its word offset above `base`, as the
    /// reference manual lays the block out.
    pub open spec fn laid_out_at(&self, base: u32) -> bool {
        &&& self.ictr.address() == base + 4 * 1
        &&& self.actlr.address() == base + 4 * 2
    }

    /// The block at its one fixed place in the memory map.
    pub fn init() -> (scnscb: ScNScbRegs)
        ensures
            scnscb.laid_out_at(SCS_BASE),
    {
        ScNScbRegs {
            ictr: VolatileReg32::new_offset(SCS_BASE, 1),
            actlr: VolatileReg32::new_offset(SCS_BASE, 2),
        }
    }
}

// Interrupt Controller Type Register Definitions
pub const SC_N_SCB_ICTR_INTLINESNUM_POS: u32 = 0;
pub const SC_N_SCB_ICTR_INTLINESNUM_MSK: u32 = 0xF << SC_N_SCB_ICTR_INTLINESNUM_POS;

// Auxiliary Control Register Definitions
pub const SC_N_SCB_ACTLR_DISOOFP_POS: u32 = 9;
pub const SC_N_SCB_ACTLR_DISOOFP_MSK: u32 = 1 << SC_N_SCB_ACTLR_DISOOFP_POS;

pub const SC_N_SCB_ACTLR_DISFPCA_POS: u32 = 8;
pub const SC_N_SCB_ACTLR_DISFPCA_MSK: u32 = 1 << SC_N_SCB_ACTLR_DISFPCA_POS;

pub const SC_N_SCB_ACTLR_DISFOLD_POS: u32 = 2;
pub const SC_N_SCB_ACTLR_DISFOLD_MSK: u32 = 1 << SC_N_SCB_ACTLR_DISFOLD_POS;

pub const SC_N_SCB_ACTLR_DISDEFWBUF_POS: u32 = 1;
pub const SC_N_SCB_ACTLR_DISDEFWBUF_MSK: u32 = 1 << SC_N_SCB_ACTLR_DISDEFWBUF_POS;

pub const SC_N_SCB_ACTLR_DISMCYCINT_POS: u32 = 0;
pub const SC_N_SCB_ACTLR_DISMCYCINT_MSK: u32 = 1 << SC_N_SCB_ACTLR_DISMCYCINT_POS;

/// Each mask defined here is a field, and starts at the position that is
/// defined with it.
pub proof fn law_scnscb_fields()
    ensures
        is_field(SC_N_SCB_ICTR_INTLINESNUM_POS, SC_N_SCB_ICTR_INTLINESNUM_MSK),
        is_field(SC_N_SCB_ACTLR_DISOOFP_POS, SC_N_SCB_ACTLR_DISOOFP_MSK),
        is_field(SC_N_SCB_ACTLR_DISFPCA_POS, SC_N_SCB_ACTLR_DISFPCA_MSK),
        is_field(SC_N_SCB_ACTLR_DISFOLD_POS, SC_N_SCB_ACTLR_DISFOLD_MSK),
        is_field(SC_N_SCB_ACTLR_DISDEFWBUF_POS, SC_N_SCB_ACTLR_DISDEFWBUF_MSK),
        is_field(SC_N_SCB_ACTLR_DISMCYCINT_POS, SC_N_SCB_ACTLR_DISMCYCINT_MSK),
{
    assert(is_field(SC_N_SCB_ICTR_INTLINESNUM_POS, SC_N_SCB_ICTR_INTLINESNUM_MSK)
        && is_field(SC_N_SCB_ACTLR_DISOOFP_POS, SC_N_SCB_ACTLR_DISOOFP_MSK)
        && is_field(SC_N_SCB_ACTLR_DISFPCA_POS, SC_N_SCB_ACTLR_DISFPCA_MSK)
        && is_field(SC_N_SCB_ACTLR_DISFOLD_POS, SC_N_SCB_ACTLR_DISFOLD_MSK)
        && is_field(SC_N_SCB_ACTLR_DISDEFWBUF_POS, SC_N_SCB_ACTLR_DISDEFWBUF_MSK)
        && is_field(SC_N_SCB_ACTLR_DISMCYCINT_POS, SC_N_SCB_ACTLR_DISMCYCINT_MSK)) by (bit_vector);
}

} // verus!
