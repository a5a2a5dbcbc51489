//! Serial peripheral interface (SPI) registers.

use vstd::prelude::*;
use crate::volatile_reg32::VolatileReg32;
use crate::stm32f4xx::constants::{
    I2S2_EXT_BASE,
    I2S3_EXT_BASE,
    SPI1_BASE,
    SPI2_BASE,
    SPI3_BASE,
};

verus! {

#[allow(non_camel_case_types)]
pub struct SPI_Regs {
    /// Control register 1 (not used in I2S mode).
    pub cr1: VolatileReg32,
    /// Control register 2.
    pub cr2: VolatileReg32,
    /// Status register.
    pub sr: VolatileReg32,
    /// Data register.
    pub dr: VolatileReg32,
    /// CRC polynomial register (not used in I2S mode).
    pub crcpr: VolatileReg32,
    /// RX CRC register (not used in I2S mode).
    pub rxcrcr: VolatileReg32,
    /// TX CRC register (not used in I2S mode).
    pub txcrcr: VolatileReg32,
    /// I2S configuration register.
    pub i2scfgr: VolatileReg32,
    /// I2S prescaler register.
    pub i2spr: VolatileReg32,
}

/// One of the SPI blocks, or of the I2S extensions that share the layout.
#[derive(Clone, Copy, Debug, PartialEq, Eq, Structural)]
pub enum SPIInst {
    I2S2ext,
    I2S3ext,
    SPI1,
    SPI2,
    SPI3,
}

impl SPIInst {
    /// Where the block of this instance starts.
    pub open spec fn base(self) -> u32 {
        match self {
            SPIInst::I2S2ext => I2S2_EXT_BASE,
            SPIInst::I2S3ext => I2S3_EXT_BASE,
            SPIInst::SPI1 => SPI1_BASE,
            SPIInst::SPI2 => SPI2_BASE,
            SPIInst::SPI3 => SPI3_BASE,
        }
    }

    pub fn base_address(self) -> (base: u32)
        ensures
            base == self.base(),
    {
        match self {
            SPIInst::I2S2ext => I2S2_EXT_BASE,
            SPIInst::I2S3ext => I2S3_EXT_BASE,
            SPIInst::SPI1 => SPI1_BASE,
            SPIInst::SPI2 => SPI2_BASE,
            SPIInst::SPI3 => SPI3_BASE,
        }
    }
}

impl SPI_Regs {
    /// Every register stands at its word offset above `base`, as the
    /// reference manual lays the block out.
    pub open spec fn laid_out_at(&self, base: u32) -> bool {
        &&& self.cr1.address() == base
        &&& self.cr2.address() == base + 4 * 1
        &&& self.sr.address() == base + 4 * 2
        &&& self.dr.address() == base + 4 * 3
        &&& self.crcpr.address() == base + 4 * 4
        &&& self.rxcrcr.address() == base + 4 * 5
        &&& self.txcrcr.address() == base + 4 * 6
        &&& self.i2scfgr.address() == base + 4 * 7
        &&& self.i2spr.address() == base + 4 * 8
    }

    /// The block of the instance that `inst` names.
    pub fn init(inst: SPIInst) -> (spi: SPI_Regs)
        ensures
            spi.laid_out_at(inst.base()),
    {
        let base: u32 = inst.base_address();
        SPI_Regs {
            cr1: VolatileReg32::new(base),
            cr2: VolatileReg32::new_offset(base, 1),
            sr: VolatileReg32::new_offset(base, 2),
            dr: VolatileReg32::new_offset(base, 3),
            crcpr: VolatileReg32::new_offset(base, 4),
            rxcrcr: VolatileReg32::new_offset(base, 5),
            txcrcr: VolatileReg32::new_offset(base, 6),
            i2scfgr: VolatileReg32::new_offset(base, 7),
            i2spr: VolatileReg32::new_offset(base, 8),
        }
    }
}

// Bit definition for SPI_CR1 register
/// Clock Phase
pub const SPI_CR1_CPHA: u32 = 0x00000001;
/// Clock Polarity
pub const SPI_CR1_CPOL: u32 = 0x00000002;
/// Master Selection
pub const SPI_CR1_MSTR: u32 = 0x00000004;

/// BR[2:0] bits (Baud Rate Control)
pub const SPI_CR1_BR: u32 = 0x00000038;
/// Bit 0
pub const SPI_CR1_BR_0: u32 = 0x00000008;
/// Bit 1
pub const SPI_CR1_BR_1: u32 = 0x00000010;
/// Bit 2
pub const SPI_CR1_BR_2: u32 = 0x00000020;

/// SPI Enable
pub const SPI_CR1_SPE: u32 = 0x00000040;
/// Frame Format
pub const SPI_CR1_LSBFIRST: u32 = 0x00000080;
/// Internal slave select
pub const SPI_CR1_SSI: u32 = 0x00000100;
/// Software slave management
pub const SPI_CR1_SSM: u32 = 0x00000200;
/// Receive only
pub const SPI_CR1_RXONLY: u32 = 0x00000400;
/// Data Frame Format
pub const SPI_CR1_DFF: u32 = 0x00000800;
/// Transmit CRC next
pub const SPI_CR1_CRCNEXT: u32 = 0x00001000;
/// Hardware CRC calculation enable
pub const SPI_CR1_CRCEN: u32 = 0x00002000;
/// Output enable in bidirectional mode
pub const SPI_CR1_BIDIOE: u32 = 0x00004000;
/// Bidirectional data mode enable
pub const SPI_CR1_BIDIMODE: u32 = 0x00008000;

// Bit definition for SPI_CR2 register
/// Rx Buffer DMA Enable
pub const SPI_CR2_RXDMAEN: u32 = 0x00000001;
/// Tx Buffer DMA Enable
pub const SPI_CR2_TXDMAEN: u32 = 0x00000002;
/// SS Output Enable
pub const SPI_CR2_SSOE: u32 = 0x00000004;
/// Error Interrupt Enable
pub const SPI_CR2_ERRIE: u32 = 0x00000020;
/// RX buffer Not Empty Interrupt Enable
pub const SPI_CR2_RXNEIE: u32 = 0x00000040;
/// Tx buffer Empty Interrupt Enable
pub const SPI_CR2_TXEIE: u32 = 0x00000080;

// Bit definition for SPI_SR register
/// Receive buffer Not Empty
pub const SPI_SR_RXNE: u32 = 0x00000001;
/// Transmit buffer Empty
pub const SPI_SR_TXE: u32 = 0x00000002;
/// Channel side
pub const SPI_SR_CHSIDE: u32 = 0x00000004;
/// Underrun flag
pub const SPI_SR_UDR: u32 = 0x00000008;
/// CRC Error flag
pub const SPI_SR_CRCERR: u32 = 0x00000010;
/// Mode fault
pub const SPI_SR_MODF: u32 = 0x00000020;
/// Overrun flag
pub const SPI_SR_OVR: u32 = 0x00000040;
/// Busy flag
pub const SPI_SR_BSY: u32 = 0x00000080;

// Bit definition for SPI_DR register
/// Data Register
pub const SPI_DR_DR: u32 = 0x0000FFFF;

// Bit definition for SPI_CRCPR register
/// CRC polynomial register
pub const SPI_CRCPR_CRCPOLY: u32 = 0x0000FFFF;

// Bit definition for SPI_RXCRCR register
/// Rx CRC Register
pub const SPI_RXCRCR_RXCRC: u32 = 0x0000FFFF;

// Bit definition for SPI_TXCRCR register
/// Tx CRC Register
pub const SPI_TXCRCR_TXCRC: u32 = 0x0000FFFF;

// Bit definition for SPI_I2SCFGR register
/// Channel length (number of bits per audio channel)
pub const SPI_I2SCFGR_CHLEN: u32 = 0x00000001;

/// DATLEN[1:0] bits (Data length to be transferred)
pub const SPI_I2SCFGR_DATLEN: u32 = 0x00000006;
/// Bit 0
pub const SPI_I2SCFGR_DATLEN_0: u32 = 0x00000002;
/// Bit 1
pub const SPI_I2SCFGR_DATLEN_1: u32 = 0x00000004;

/// steady state clock polarity
pub const SPI_I2SCFGR_CKPOL: u32 = 0x00000008;

/// I2SSTD[1:0] bits (I2S standard selection)
pub const SPI_I2SCFGR_I2SSTD: u32 = 0x00000030;
/// Bit 0
pub const SPI_I2SCFGR_I2SSTD_0: u32 = 0x00000010;
/// Bit 1
pub const SPI_I2SCFGR_I2SSTD_1: u32 = 0x00000020;

/// PCM frame synchronization
pub const SPI_I2SCFGR_PCMSYNC: u32 = 0x00000080;

/// I2SCFG[1:0] bits (I2S configuration mode)
pub const SPI_I2SCFGR_I2SCFG: u32 = 0x00000300;
/// Bit 0
pub const SPI_I2SCFGR_I2SCFG_0: u32 = 0x00000100;
/// Bit 1
pub const SPI_I2SCFGR_I2SCFG_1: u32 = 0x00000200;

/// I2S Enable
pub const SPI_I2SCFGR_I2SE: u32 = 0x00000400;
/// I2S mode selection
pub const SPI_I2SCFGR_I2SMOD: u32 = 0x00000800;

// Bit definition for SPI_I2SPR register
/// I2S Linear prescaler
pub const SPI_I2SPR_I2SDIV: u32 = 0x000000FF;
/// Odd factor for the prescaler
pub const SPI_I2SPR_ODD: u32 = 0x00000100;
/// Master Clock Output Enable
pub const SPI_I2SPR_MCKOE: u32 = 0x00000200;

} // verus!
