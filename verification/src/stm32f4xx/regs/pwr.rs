//! Power control (PWR) registers.

use vstd::prelude::*;
use crate::volatile_reg32::VolatileReg32;
use crate::stm32f4xx::constants::PWR_BASE;

verus! {

#[allow(non_camel_case_types)]
pub struct PWR_Regs {
    /// Power control register.
    pub cr: VolatileReg32,
    /// Power control/status register.
    pub csr: VolatileReg32,
}

impl PWR_Regs {
    /// Every register stands at its word offset above `base`, as the
    /// reference manual lays the block out.
    pub open spec fn laid_out_at(&self, base: u32) -> bool {
        &&& self.cr.address() == base
        &&& self.csr.address() == base + 4 * 1
    }

    /// The block at its one fixed place in the memory map.
    pub fn init() -> (pwr: PWR_Regs)
        ensures
            pwr.laid_out_at(PWR_BASE),
    {
        PWR_Regs {
            cr: VolatileReg32::new(PWR_BASE),
            csr: VolatileReg32::new_offset(PWR_BASE, 1),
        }
    }
}

// Bit definition for PWR_CR register
/// Low-Power Deepsleep
pub const PWR_CR_LPDS: u32 = 0x00000001;
/// Power Down Deepsleep
pub const PWR_CR_PDDS: u32 = 0x00000002;
/// Clear Wakeup Flag
pub const PWR_CR_CWUF: u32 = 0x00000004;
/// Clear Standby Flag
pub const PWR_CR_CSBF: u32 = 0x00000008;
/// Power Voltage Detector Enable
pub const PWR_CR_PVDE: u32 = 0x00000010;

/// PLS[2:0] bits (PVD Level Selection)
pub const PWR_CR_PLS: u32 = 0x000000E0;
/// Bit 0
pub const PWR_CR_PLS_0: u32 = 0x00000020;
/// Bit 1
pub const PWR_CR_PLS_1: u32 = 0x00000040;
/// Bit 2
pub const PWR_CR_PLS_2: u32 = 0x00000080;

// PVD level configuration
/// PVD level 0
pub const PWR_CR_PLS_LEV0: u32 = 0x00000000;
/// PVD level 1
pub const PWR_CR_PLS_LEV1: u32 = 0x00000020;
/// PVD level 2
pub const PWR_CR_PLS_LEV2: u32 = 0x00000040;
/// PVD level 3
pub const PWR_CR_PLS_LEV3: u32 = 0x00000060;
/// PVD level 4
pub const PWR_CR_PLS_LEV4: u32 = 0x00000080;
/// PVD level 5
pub const PWR_CR_PLS_LEV5: u32 = 0x000000A0;
/// PVD level 6
pub const PWR_CR_PLS_LEV6: u32 = 0x000000C0;
/// PVD level 7
pub const PWR_CR_PLS_LEV7: u32 = 0x000000E0;

/// Disable Backup Domain write protection
pub const PWR_CR_DBP: u32 = 0x00000100;
/// Flash power down in Stop mode
pub const PWR_CR_FPDS: u32 = 0x00000200;
/// Regulator voltage scaling output selection
pub const PWR_CR_VOS: u32 = 0x00004000;

// Bit definition for PWR_CSR register
/// Wakeup Flag
pub const PWR_CSR_WUF: u32 = 0x00000001;
/// Standby Flag
pub const PWR_CSR_SBF: u32 = 0x00000002;
/// PVD Output
pub const PWR_CSR_PVDO: u32 = 0x00000004;
/// Backup regulator ready
pub const PWR_CSR_BRR: u32 = 0x00000008;
/// Enable WKUP pin
pub const PWR_CSR_EWUP: u32 = 0x00000100;
/// Backup regulator enable
pub const PWR_CSR_BRE: u32 = 0x00000200;
/// Regulator voltage scaling output selection ready
pub const PWR_CSR_VOSRDY: u32 = 0x00004000;

} // verus!
