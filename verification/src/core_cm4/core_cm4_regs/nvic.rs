//! Nested vectored interrupt controller (NVIC) registers.

use vstd::prelude::*;
use crate::bitfield::is_field;
use crate::volatile_reg32::VolatileReg32;
use crate::core_cm4::constants::NVIC_BASE;

verus! {

/// Word offset of the first interrupt set-enable register.
pub const NVIC_ISER_OFFSET: u32 = 0x000;

/// Word offset of the first interrupt clear-enable register.
pub const NVIC_ICER_OFFSET: u32 = 0x020;

/// Word offset of the first interrupt set-pending register.
pub const NVIC_ISPR_OFFSET: u32 = 0x040;

/// Word offset of the first interrupt clear-pending register.
pub const NVIC_ICPR_OFFSET: u32 = 0x060;

/// Word offset of the first interrupt active-bit register.
pub const NVIC_IABR_OFFSET: u32 = 0x080;

/// Word offset of the first interrupt priority register.
pub const NVIC_IPR_OFFSET: u32 = 0x0C0;

/// Word offset of the software trigger interrupt register.
pub const NVIC_STIR_OFFSET: u32 = 0x380;

pub struct NvicRegs {
    /// Interrupt set-enable registers, one bit for each interrupt.
    pub iser: [VolatileReg32; 3],
    /// Interrupt clear-enable registers.
    pub icer: [VolatileReg32; 3],
    /// Interrupt set-pending registers.
    pub ispr: [VolatileReg32; 3],
    /// Interrupt clear-pending registers.
    pub icpr: [VolatileReg32; 3],
    /// Interrupt active-bit registers.
    pub iabr: [VolatileReg32; 3],
    /// Interrupt priority registers, four interrupts to a word.
    pub ipr: [VolatileReg32; 21],
    /// Software trigger interrupt register.
    pub stir: VolatileReg32,
}

/// Register `i` of `bank` stands `first + i` words above `base`.
pub open spec fn bank_laid_out_at<const N: usize>(
    bank: [VolatileReg32; N],
    base: u32,
    first: u32,
) -> bool {
    forall|i: int| 0 <= i < N ==> (#[trigger] bank[i]).address() == base + 4 * (first + i)
}

impl NvicRegs {
    /// Every bank starts at its word offset above `base`, as the reference
    /// manual lays the block out, and holds its registers one after the other.
    pub open spec fn laid_out_at(&self, base: u32) -> bool {
        &&& bank_laid_out_at(self.iser, base, NVIC_ISER_OFFSET)
        &&& bank_laid_out_at(self.icer, base, NVIC_ICER_OFFSET)
        &&& bank_laid_out_at(self.ispr, base, NVIC_ISPR_OFFSET)
        &&& bank_laid_out_at(self.icpr, base, NVIC_ICPR_OFFSET)
        &&& bank_laid_out_at(self.iabr, base, NVIC_IABR_OFFSET)
        &&& bank_laid_out_at(self.ipr, base, NVIC_IPR_OFFSET)
        &&& self.stir.address() == base + 4 * NVIC_STIR_OFFSET
    }

    /// The block at its one fixed place in the memory map.
    pub fn init() -> (nvic: NvicRegs)
        ensures
            nvic.laid_out_at(NVIC_BASE),
    {
        NvicRegs {
            iser: Self::bank3(NVIC_ISER_OFFSET),
            icer: Self::bank3(NVIC_ICER_OFFSET),
            ispr: Self::bank3(NVIC_ISPR_OFFSET),
            icpr: Self::bank3(NVIC_ICPR_OFFSET),
            iabr: Self::bank3(NVIC_IABR_OFFSET),
            ipr: [
                VolatileReg32::new_offset(NVIC_BASE, NVIC_IPR_OFFSET),
                VolatileReg32::new_offset(NVIC_BASE, NVIC_IPR_OFFSET + 1),
                VolatileReg32::new_offset(NVIC_BASE, NVIC_IPR_OFFSET + 2),
                VolatileReg32::new_offset(NVIC_BASE, NVIC_IPR_OFFSET + 3),
                VolatileReg32::new_offset(NVIC_BASE, NVIC_IPR_OFFSET + 4),
                VolatileReg32::new_offset(NVIC_BASE, NVIC_IPR_OFFSET + 5),
                VolatileReg32::new_offset(NVIC_BASE, NVIC_IPR_OFFSET + 6),
                VolatileReg32::new_offset(NVIC_BASE, NVIC_IPR_OFFSET + 7),
                VolatileReg32::new_offset(NVIC_BASE, NVIC_IPR_OFFSET + 8),
                VolatileReg32::new_offset(NVIC_BASE, NVIC_IPR_OFFSET + 9),
                VolatileReg32::new_offset(NVIC_BASE, NVIC_IPR_OFFSET + 10),
                VolatileReg32::new_offset(NVIC_BASE, NVIC_IPR_OFFSET + 11),
                VolatileReg32::new_offset(NVIC_BASE, NVIC_IPR_OFFSET + 12),
                VolatileReg32::new_offset(NVIC_BASE, NVIC_IPR_OFFSET + 13),
                VolatileReg32::new_offset(NVIC_BASE, NVIC_IPR_OFFSET + 14),
                VolatileReg32::new_offset(NVIC_BASE, NVIC_IPR_OFFSET + 15),
                VolatileReg32::new_offset(NVIC_BASE, NVIC_IPR_OFFSET + 16),
                VolatileReg32::new_offset(NVIC_BASE, NVIC_IPR_OFFSET + 17),
                VolatileReg32::new_offset(NVIC_BASE, NVIC_IPR_OFFSET + 18),
                VolatileReg32::new_offset(NVIC_BASE, NVIC_IPR_OFFSET + 19),
                VolatileReg32::new_offset(NVIC_BASE, NVIC_IPR_OFFSET + 20),
            ],
            stir: VolatileReg32::new_offset(NVIC_BASE, NVIC_STIR_OFFSET),
        }
    }

    /// The three registers of the bank that starts `first` words into the block.
    fn bank3(first: u32) -> (bank: [VolatileReg32; 3])
        requires
            first <= NVIC_STIR_OFFSET,
        ensures
            bank_laid_out_at(bank, NVIC_BASE, first),
    {
        [
            VolatileReg32::new_offset(NVIC_BASE, first),
            VolatileReg32::new_offset(NVIC_BASE, first + 1),
            VolatileReg32::new_offset(NVIC_BASE, first + 2),
        ]
    }
}

// Software Triggered Interrupt Register Definitions
pub const NVIC_STIR_INTID_POS: u32 = 0;
pub const NVIC_STIR_INTID_MSK: u32 = 0x1FF << NVIC_STIR_INTID_POS;

/// Each mask defined here is a field, and starts at the position that is
/// defined with it.
pub proof fn law_nvic_fields()
    ensures
        is_field(NVIC_STIR_INTID_POS, NVIC_STIR_INTID_MSK),
{
    assert(is_field(NVIC_STIR_INTID_POS, NVIC_STIR_INTID_MSK)) by (bit_vector);
}

} // verus!
