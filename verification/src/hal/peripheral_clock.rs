//! Peripheral clock gates: one enable bit for each peripheral, in one of the
//! five RCC enable registers.

use vstd::prelude::*;
use crate::bus::{modify_accesses, Access, Mmio, RegisterBus};
use crate::stm32f4xx::constants::RCC_BASE;
use crate::stm32f4xx::regs::rcc::{
    RCC_AHB1ENR_GPIOAEN,
    RCC_AHB1ENR_GPIOBEN,
    RCC_AHB1ENR_GPIOCEN,
    RCC_AHB1ENR_GPIODEN,
    RCC_AHB1ENR_GPIOEEN,
    RCC_AHB1ENR_GPIOFEN,
    RCC_AHB1ENR_GPIOGEN,
    RCC_AHB1ENR_GPIOHEN,
    RCC_AHB1ENR_GPIOIEN,
    RCC_AHB1ENR_CRCEN,
    RCC_AHB1ENR_BKPSRAMEN,
    RCC_AHB1ENR_CCMDATARAMEN,
    RCC_AHB1ENR_DMA1EN,
    RCC_AHB1ENR_DMA2EN,
    RCC_AHB1ENR_ETHMACEN,
    RCC_AHB1ENR_ETHMACTXEN,
    RCC_AHB1ENR_ETHMACRXEN,
    RCC_AHB1ENR_ETHMACPTPEN,
    RCC_AHB1ENR_OTGHSEN,
    RCC_AHB1ENR_OTGHSULPIEN,
    RCC_AHB2ENR_DCMIEN,
    RCC_AHB2ENR_CRYPEN,
    RCC_AHB2ENR_HASHEN,
    RCC_AHB2ENR_RNGEN,
    RCC_AHB2ENR_OTGFSEN,
    RCC_AHB3ENR_FSMCEN,
    RCC_APB1ENR_TIM2EN,
    RCC_APB1ENR_TIM3EN,
    RCC_APB1ENR_TIM4EN,
    RCC_APB1ENR_TIM5EN,
    RCC_APB1ENR_TIM6EN,
    RCC_APB1ENR_TIM7EN,
    RCC_APB1ENR_TIM12EN,
    RCC_APB1ENR_TIM13EN,
    RCC_APB1ENR_TIM14EN,
    RCC_APB1ENR_WWDGEN,
    RCC_APB1ENR_SPI2EN,
    RCC_APB1ENR_SPI3EN,
    RCC_APB1ENR_USART2EN,
    RCC_APB1ENR_USART3EN,
    RCC_APB1ENR_UART4EN,
    RCC_APB1ENR_UART5EN,
    RCC_APB1ENR_I2C1EN,
    RCC_APB1ENR_I2C2EN,
    RCC_APB1ENR_I2C3EN,
    RCC_APB1ENR_CAN1EN,
    RCC_APB1ENR_CAN2EN,
    RCC_APB1ENR_PWREN,
    RCC_APB1ENR_DACEN,
    RCC_APB2ENR_TIM1EN,
    RCC_APB2ENR_TIM8EN,
    RCC_APB2ENR_USART1EN,
    RCC_APB2ENR_USART6EN,
    RCC_APB2ENR_ADC1EN,
    RCC_APB2ENR_ADC2EN,
    RCC_APB2ENR_ADC3EN,
    RCC_APB2ENR_SDIOEN,
    RCC_APB2ENR_SPI1EN,
    RCC_APB2ENR_SYSCFGEN,
    RCC_APB2ENR_TIM9EN,
    RCC_APB2ENR_TIM10EN,
    RCC_APB2ENR_TIM11EN,
    RccRegs,
};
use crate::volatile_reg32::VolatileReg32;

verus! {

/// A peripheral whose clock can be gated.
#[derive(Clone, Copy, Debug, PartialEq, Eq, Structural)]
pub enum PeripheralClock {
    // AHB1
    GpioA,
    GpioB,
    GpioC,
    GpioD,
    GpioE,
    GpioF,
    GpioG,
    GpioH,
    GpioI,
    Crc,
    BkpSram,
    CcmDataRam,
    Dma1,
    Dma2,
    EthMac,
    EthMacTx,
    EthMacRx,
    EthMacPtp,
    OtgHs,
    OtgHsulpi,
    // AHB2
    Dcmi,
    Cryp,
    Hash,
    Rng,
    OtgFs,
    // AHB3
    Fsmc,
    // APB1
    Tim2,
    Tim3,
    Tim4,
    Tim5,
    Tim6,
    Tim7,
    Tim12,
    Tim13,
    Tim14,
    WWdg,
    Spi2,
    Spi3,
    Usart2,
    Usart3,
    Uart4,
    Uart5,
    I2c1,
    I2c2,
    I2c3,
    Can1,
    Can2,
    Pwr,
    Dac,
    // APB2
    Tim1,
    Tim8,
    Usart1,
    Usart6,
    Adc1,
    Adc2,
    Adc3,
    Sdio,
    Spi1,
    SysCfg,
    Tim9,
    Tim10,
    Tim11,
}

/// The five registers that hold enable bits.
#[derive(Clone, Copy, Debug, PartialEq, Eq, Structural)]
pub enum EnableRegister {
    Ahb1,
    Ahb2,
    Ahb3,
    Apb1,
    Apb2,
}

impl EnableRegister {
    /// Word offset of the register in the RCC block.
    pub open spec fn offset(self) -> u32 {
        match self {
            EnableRegister::Ahb1 => 12,
            EnableRegister::Ahb2 => 13,
            EnableRegister::Ahb3 => 14,
            EnableRegister::Apb1 => 16,
            EnableRegister::Apb2 => 17,
        }
    }

    /// Byte address of the register.
    pub open spec fn address(self) -> u32 {
        (RCC_BASE + 4 * self.offset()) as u32
    }
}

/// `word` has exactly one bit set.
pub open spec fn is_single_bit(word: u32) -> bool {
    word != 0 && word & ((word - 1) as u32) == 0
}

impl PeripheralClock {
    /// The register that holds the enable bit of this peripheral.
    pub open spec fn register(self) -> EnableRegister {
        match self {
            PeripheralClock::GpioA
            | PeripheralClock::GpioB
            | PeripheralClock::GpioC
            | PeripheralClock::GpioD
            | PeripheralClock::GpioE
            | PeripheralClock::GpioF
            | PeripheralClock::GpioG
            | PeripheralClock::GpioH
            | PeripheralClock::GpioI
            | PeripheralClock::Crc
            | PeripheralClock::BkpSram
            | PeripheralClock::CcmDataRam
            | PeripheralClock::Dma1
            | PeripheralClock::Dma2
            | PeripheralClock::EthMac
            | PeripheralClock::EthMacTx
            | PeripheralClock::EthMacRx
            | PeripheralClock::EthMacPtp
            | PeripheralClock::OtgHs
            | PeripheralClock::OtgHsulpi => EnableRegister::Ahb1,
            PeripheralClock::Dcmi
            | PeripheralClock::Cryp
            | PeripheralClock::Hash
            | PeripheralClock::Rng
            | PeripheralClock::OtgFs => EnableRegister::Ahb2,
            PeripheralClock::Fsmc => EnableRegister::Ahb3,
            PeripheralClock::Tim2
            | PeripheralClock::Tim3
            | PeripheralClock::Tim4
            | PeripheralClock::Tim5
            | PeripheralClock::Tim6
            | PeripheralClock::Tim7
            | PeripheralClock::Tim12
            | PeripheralClock::Tim13
            | PeripheralClock::Tim14
            | PeripheralClock::WWdg
            | PeripheralClock::Spi2
            | PeripheralClock::Spi3
            | PeripheralClock::Usart2
            | PeripheralClock::Usart3
            | PeripheralClock::Uart4
            | PeripheralClock::Uart5
            | PeripheralClock::I2c1
            | PeripheralClock::I2c2
            | PeripheralClock::I2c3
            | PeripheralClock::Can1
            | PeripheralClock::Can2
            | PeripheralClock::Pwr
            | PeripheralClock::Dac => EnableRegister::Apb1,
            PeripheralClock::Tim1
            | PeripheralClock::Tim8
            | PeripheralClock::Usart1
            | PeripheralClock::Usart6
            | PeripheralClock::Adc1
            | PeripheralClock::Adc2
            | PeripheralClock::Adc3
            | PeripheralClock::Sdio
            | PeripheralClock::Spi1
            | PeripheralClock::SysCfg
            | PeripheralClock::Tim9
            | PeripheralClock::Tim10
            | PeripheralClock::Tim11 => EnableRegister::Apb2,
        }
    }

    /// The enable bit of this peripheral, as a mask on its register.
    pub open spec fn bit(self) -> u32 {
        match self {
            PeripheralClock::GpioA => RCC_AHB1ENR_GPIOAEN,
            PeripheralClock::GpioB => RCC_AHB1ENR_GPIOBEN,
            PeripheralClock::GpioC => RCC_AHB1ENR_GPIOCEN,
            PeripheralClock::GpioD => RCC_AHB1ENR_GPIODEN,
            PeripheralClock::GpioE => RCC_AHB1ENR_GPIOEEN,
            PeripheralClock::GpioF => RCC_AHB1ENR_GPIOFEN,
            PeripheralClock::GpioG => RCC_AHB1ENR_GPIOGEN,
            PeripheralClock::GpioH => RCC_AHB1ENR_GPIOHEN,
            PeripheralClock::GpioI => RCC_AHB1ENR_GPIOIEN,
            PeripheralClock::Crc => RCC_AHB1ENR_CRCEN,
            PeripheralClock::BkpSram => RCC_AHB1ENR_BKPSRAMEN,
            PeripheralClock::CcmDataRam => RCC_AHB1ENR_CCMDATARAMEN,
            PeripheralClock::Dma1 => RCC_AHB1ENR_DMA1EN,
            PeripheralClock::Dma2 => RCC_AHB1ENR_DMA2EN,
            PeripheralClock::EthMac => RCC_AHB1ENR_ETHMACEN,
            PeripheralClock::EthMacTx => RCC_AHB1ENR_ETHMACTXEN,
            PeripheralClock::EthMacRx => RCC_AHB1ENR_ETHMACRXEN,
            PeripheralClock::EthMacPtp => RCC_AHB1ENR_ETHMACPTPEN,
            PeripheralClock::OtgHs => RCC_AHB1ENR_OTGHSEN,
            PeripheralClock::OtgHsulpi => RCC_AHB1ENR_OTGHSULPIEN,
            PeripheralClock::Dcmi => RCC_AHB2ENR_DCMIEN,
            PeripheralClock::Cryp => RCC_AHB2ENR_CRYPEN,
            PeripheralClock::Hash => RCC_AHB2ENR_HASHEN,
            PeripheralClock::Rng => RCC_AHB2ENR_RNGEN,
            PeripheralClock::OtgFs => RCC_AHB2ENR_OTGFSEN,
            PeripheralClock::Fsmc => RCC_AHB3ENR_FSMCEN,
            PeripheralClock::Tim2 => RCC_APB1ENR_TIM2EN,
            PeripheralClock::Tim3 => RCC_APB1ENR_TIM3EN,
            PeripheralClock::Tim4 => RCC_APB1ENR_TIM4EN,
            PeripheralClock::Tim5 => RCC_APB1ENR_TIM5EN,
            PeripheralClock::Tim6 => RCC_APB1ENR_TIM6EN,
            PeripheralClock::Tim7 => RCC_APB1ENR_TIM7EN,
            PeripheralClock::Tim12 => RCC_APB1ENR_TIM12EN,
            PeripheralClock::Tim13 => RCC_APB1ENR_TIM13EN,
            PeripheralClock::Tim14 => RCC_APB1ENR_TIM14EN,
            PeripheralClock::WWdg => RCC_APB1ENR_WWDGEN,
            PeripheralClock::Spi2 => RCC_APB1ENR_SPI2EN,
            PeripheralClock::Spi3 => RCC_APB1ENR_SPI3EN,
            PeripheralClock::Usart2 => RCC_APB1ENR_USART2EN,
            PeripheralClock::Usart3 => RCC_APB1ENR_USART3EN,
            PeripheralClock::Uart4 => RCC_APB1ENR_UART4EN,
            PeripheralClock::Uart5 => RCC_APB1ENR_UART5EN,
            PeripheralClock::I2c1 => RCC_APB1ENR_I2C1EN,
            PeripheralClock::I2c2 => RCC_APB1ENR_I2C2EN,
            PeripheralClock::I2c3 => RCC_APB1ENR_I2C3EN,
            PeripheralClock::Can1 => RCC_APB1ENR_CAN1EN,
            PeripheralClock::Can2 => RCC_APB1ENR_CAN2EN,
            PeripheralClock::Pwr => RCC_APB1ENR_PWREN,
            PeripheralClock::Dac => RCC_APB1ENR_DACEN,
            PeripheralClock::Tim1 => RCC_APB2ENR_TIM1EN,
            PeripheralClock::Tim8 => RCC_APB2ENR_TIM8EN,
            PeripheralClock::Usart1 => RCC_APB2ENR_USART1EN,
            PeripheralClock::Usart6 => RCC_APB2ENR_USART6EN,
            PeripheralClock::Adc1 => RCC_APB2ENR_ADC1EN,
            PeripheralClock::Adc2 => RCC_APB2ENR_ADC2EN,
            PeripheralClock::Adc3 => RCC_APB2ENR_ADC3EN,
            PeripheralClock::Sdio => RCC_APB2ENR_SDIOEN,
            PeripheralClock::Spi1 => RCC_APB2ENR_SPI1EN,
            PeripheralClock::SysCfg => RCC_APB2ENR_SYSCFGEN,
            PeripheralClock::Tim9 => RCC_APB2ENR_TIM9EN,
            PeripheralClock::Tim10 => RCC_APB2ENR_TIM10EN,
            PeripheralClock::Tim11 => RCC_APB2ENR_TIM11EN,
        }
    }

    /// Sets the enable bit of this peripheral, then stalls the pipeline until
    /// the store has completed. Without the stall the peripheral may be
    /// touched before its clock runs.
    pub fn enable<B: RegisterBus>(&self, bus: &mut Mmio<B>)
        ensures
            ({
                let seen = final(bus).loaded(old(bus).history().len());
                final(bus).history() == (old(bus).history() + modify_accesses(
                    self.register().address(),
                    seen,
                    seen | self.bit(),
                )).push(Access::Barrier)
            }),
    {
        self.set_bit(bus, true);
    }

    /// Clears the enable bit of this peripheral. No stall follows.
    pub fn disable<B: RegisterBus>(&self, bus: &mut Mmio<B>)
        ensures
            ({
                let seen = final(bus).loaded(old(bus).history().len());
                final(bus).history() == old(bus).history() + modify_accesses(
                    self.register().address(),
                    seen,
                    seen & !self.bit(),
                )
            }),
    {
        self.set_bit(bus, false);
    }

    fn set_bit<B: RegisterBus>(self, bus: &mut Mmio<B>, set: bool)
        ensures
            ({
                let seen = final(bus).loaded(old(bus).history().len());
                let address = self.register().address();
                final(bus).history() == if set {
                    (old(bus).history() + modify_accesses(address, seen, seen | self.bit())).push(
                        Access::Barrier,
                    )
                } else {
                    old(bus).history() + modify_accesses(address, seen, seen & !self.bit())
                }
            }),
    {
        let bit_pos: u32 = self.get_bit_pos();
        let bit_msk: u32 = !bit_pos;
        let reg: VolatileReg32 = self.enable_reg();
        if set {
            reg.bit_or(bus, bit_pos);
            bus.barrier();
        } else {
            reg.bit_and(bus, bit_msk);
        }
    }

    /// The handle on the register that holds the enable bit.
    fn enable_reg(self) -> (reg: VolatileReg32)
        ensures
            reg.address() == self.register().address(),
    {
        let rcc = RccRegs::init();
        match self {
            PeripheralClock::GpioA
            | PeripheralClock::GpioB
            | PeripheralClock::GpioC
            | PeripheralClock::GpioD
            | PeripheralClock::GpioE
            | PeripheralClock::GpioF
            | PeripheralClock::GpioG
            | PeripheralClock::GpioH
            | PeripheralClock::GpioI
            | PeripheralClock::Crc
            | PeripheralClock::BkpSram
            | PeripheralClock::CcmDataRam
            | PeripheralClock::Dma1
            | PeripheralClock::Dma2
            | PeripheralClock::EthMac
            | PeripheralClock::EthMacTx
            | PeripheralClock::EthMacRx
            | PeripheralClock::EthMacPtp
            | PeripheralClock::OtgHs
            | PeripheralClock::OtgHsulpi => rcc.ahb1enr,
            PeripheralClock::Dcmi
            | PeripheralClock::Cryp
            | PeripheralClock::Hash
            | PeripheralClock::Rng
            | PeripheralClock::OtgFs => rcc.ahb2enr,
            PeripheralClock::Fsmc => rcc.ahb3enr,
            PeripheralClock::Tim2
            | PeripheralClock::Tim3
            | PeripheralClock::Tim4
            | PeripheralClock::Tim5
            | PeripheralClock::Tim6
            | PeripheralClock::Tim7
            | PeripheralClock::Tim12
            | PeripheralClock::Tim13
            | PeripheralClock::Tim14
            | PeripheralClock::WWdg
            | PeripheralClock::Spi2
            | PeripheralClock::Spi3
            | PeripheralClock::Usart2
            | PeripheralClock::Usart3
            | PeripheralClock::Uart4
            | PeripheralClock::Uart5
            | PeripheralClock::I2c1
            | PeripheralClock::I2c2
            | PeripheralClock::I2c3
            | PeripheralClock::Can1
            | PeripheralClock::Can2
            | PeripheralClock::Pwr
            | PeripheralClock::Dac => rcc.apb1enr,
            PeripheralClock::Tim1
            | PeripheralClock::Tim8
            | PeripheralClock::Usart1
            | PeripheralClock::Usart6
            | PeripheralClock::Adc1
            | PeripheralClock::Adc2
            | PeripheralClock::Adc3
            | PeripheralClock::Sdio
            | PeripheralClock::Spi1
            | PeripheralClock::SysCfg
            | PeripheralClock::Tim9
            | PeripheralClock::Tim10
            | PeripheralClock::Tim11 => rcc.apb2enr,
        }
    }

    /// The enable bit of this peripheral, as a mask on its register.
    pub fn get_bit_pos(self) -> (mask: u32)
        ensures
            mask == self.bit(),
            is_single_bit(mask),
    {
        let mask: u32 = match self {
            PeripheralClock::GpioA => RCC_AHB1ENR_GPIOAEN,
            PeripheralClock::GpioB => RCC_AHB1ENR_GPIOBEN,
            PeripheralClock::GpioC => RCC_AHB1ENR_GPIOCEN,
            PeripheralClock::GpioD => RCC_AHB1ENR_GPIODEN,
            PeripheralClock::GpioE => RCC_AHB1ENR_GPIOEEN,
            PeripheralClock::GpioF => RCC_AHB1ENR_GPIOFEN,
            PeripheralClock::GpioG => RCC_AHB1ENR_GPIOGEN,
            PeripheralClock::GpioH => RCC_AHB1ENR_GPIOHEN,
            PeripheralClock::GpioI => RCC_AHB1ENR_GPIOIEN,
            PeripheralClock::Crc => RCC_AHB1ENR_CRCEN,
            PeripheralClock::BkpSram => RCC_AHB1ENR_BKPSRAMEN,
            PeripheralClock::CcmDataRam => RCC_AHB1ENR_CCMDATARAMEN,
            PeripheralClock::Dma1 => RCC_AHB1ENR_DMA1EN,
            PeripheralClock::Dma2 => RCC_AHB1ENR_DMA2EN,
            PeripheralClock::EthMac => RCC_AHB1ENR_ETHMACEN,
            PeripheralClock::EthMacTx => RCC_AHB1ENR_ETHMACTXEN,
            PeripheralClock::EthMacRx => RCC_AHB1ENR_ETHMACRXEN,
            PeripheralClock::EthMacPtp => RCC_AHB1ENR_ETHMACPTPEN,
            PeripheralClock::OtgHs => RCC_AHB1ENR_OTGHSEN,
            PeripheralClock::OtgHsulpi => RCC_AHB1ENR_OTGHSULPIEN,
            PeripheralClock::Dcmi => RCC_AHB2ENR_DCMIEN,
            PeripheralClock::Cryp => RCC_AHB2ENR_CRYPEN,
            PeripheralClock::Hash => RCC_AHB2ENR_HASHEN,
            PeripheralClock::Rng => RCC_AHB2ENR_RNGEN,
            PeripheralClock::OtgFs => RCC_AHB2ENR_OTGFSEN,
            PeripheralClock::Fsmc => RCC_AHB3ENR_FSMCEN,
            PeripheralClock::Tim2 => RCC_APB1ENR_TIM2EN,
            PeripheralClock::Tim3 => RCC_APB1ENR_TIM3EN,
            PeripheralClock::Tim4 => RCC_APB1ENR_TIM4EN,
            PeripheralClock::Tim5 => RCC_APB1ENR_TIM5EN,
            PeripheralClock::Tim6 => RCC_APB1ENR_TIM6EN,
            PeripheralClock::Tim7 => RCC_APB1ENR_TIM7EN,
            PeripheralClock::Tim12 => RCC_APB1ENR_TIM12EN,
            PeripheralClock::Tim13 => RCC_APB1ENR_TIM13EN,
            PeripheralClock::Tim14 => RCC_APB1ENR_TIM14EN,
            PeripheralClock::WWdg => RCC_APB1ENR_WWDGEN,
            PeripheralClock::Spi2 => RCC_APB1ENR_SPI2EN,
            PeripheralClock::Spi3 => RCC_APB1ENR_SPI3EN,
            PeripheralClock::Usart2 => RCC_APB1ENR_USART2EN,
            PeripheralClock::Usart3 => RCC_APB1ENR_USART3EN,
            PeripheralClock::Uart4 => RCC_APB1ENR_UART4EN,
            PeripheralClock::Uart5 => RCC_APB1ENR_UART5EN,
            PeripheralClock::I2c1 => RCC_APB1ENR_I2C1EN,
            PeripheralClock::I2c2 => RCC_APB1ENR_I2C2EN,
            PeripheralClock::I2c3 => RCC_APB1ENR_I2C3EN,
            PeripheralClock::Can1 => RCC_APB1ENR_CAN1EN,
            PeripheralClock::Can2 => RCC_APB1ENR_CAN2EN,
            PeripheralClock::Pwr => RCC_APB1ENR_PWREN,
            PeripheralClock::Dac => RCC_APB1ENR_DACEN,
            PeripheralClock::Tim1 => RCC_APB2ENR_TIM1EN,
            PeripheralClock::Tim8 => RCC_APB2ENR_TIM8EN,
            PeripheralClock::Usart1 => RCC_APB2ENR_USART1EN,
            PeripheralClock::Usart6 => RCC_APB2ENR_USART6EN,
            PeripheralClock::Adc1 => RCC_APB2ENR_ADC1EN,
            PeripheralClock::Adc2 => RCC_APB2ENR_ADC2EN,
            PeripheralClock::Adc3 => RCC_APB2ENR_ADC3EN,
            PeripheralClock::Sdio => RCC_APB2ENR_SDIOEN,
            PeripheralClock::Spi1 => RCC_APB2ENR_SPI1EN,
            PeripheralClock::SysCfg => RCC_APB2ENR_SYSCFGEN,
            PeripheralClock::Tim9 => RCC_APB2ENR_TIM9EN,
            PeripheralClock::Tim10 => RCC_APB2ENR_TIM10EN,
            PeripheralClock::Tim11 => RCC_APB2ENR_TIM11EN,
        };
        proof {
            lemma_power_of_two_is_single_bit(mask);
        }
        mask
    }
}

/// The enable bit of every peripheral is one bit: to enable or to disable a
/// peripheral changes the enable bit of no other.
pub proof fn law_gate_is_one_bit(clock: PeripheralClock)
    ensures
        is_single_bit(clock.bit()),
{
    lemma_power_of_two_is_single_bit(clock.bit());
}

/// `word` is one of the thirty-two powers of two that fit in a word.
pub open spec fn is_power_of_two(word: u32) -> bool {
    ||| word == 0x00000001
    ||| word == 0x00000002
    ||| word == 0x00000004
    ||| word == 0x00000008
    ||| word == 0x00000010
    ||| word == 0x00000020
    ||| word == 0x00000040
    ||| word == 0x00000080
    ||| word == 0x00000100
    ||| word == 0x00000200
    ||| word == 0x00000400
    ||| word == 0x00000800
    ||| word == 0x00001000
    ||| word == 0x00002000
    ||| word == 0x00004000
    ||| word == 0x00008000
    ||| word == 0x00010000
    ||| word == 0x00020000
    ||| word == 0x00040000
    ||| word == 0x00080000
    ||| word == 0x00100000
    ||| word == 0x00200000
    ||| word == 0x00400000
    ||| word == 0x00800000
    ||| word == 0x01000000
    ||| word == 0x02000000
    ||| word == 0x04000000
    ||| word == 0x08000000
    ||| word == 0x10000000
    ||| word == 0x20000000
    ||| word == 0x40000000
    ||| word == 0x80000000
}

/// A power of two has exactly one bit set.
pub proof fn lemma_power_of_two_is_single_bit(word: u32)
    requires
        is_power_of_two(word),
    ensures
        is_single_bit(word),
{
    assert(is_power_of_two(word) ==> is_single_bit(word)) by (bit_vector);
}

} // verus!
