use stm32f4xx_hal::bus::{Access, Mmio};
use stm32f4xx_hal::hal::peripheral_clock::PeripheralClock;
use stm32f4xx_hal::simulated::SimulatedBus;

const AHB1ENR: u32 = 0x4002_3830;
const AHB2ENR: u32 = 0x4002_3834;
const AHB3ENR: u32 = 0x4002_3838;
const APB1ENR: u32 = 0x4002_3840;
const APB2ENR: u32 = 0x4002_3844;

fn barriers(log: &[Access]) -> usize {
    log.iter().filter(|a| **a == Access::Barrier).count()
}

#[test]
fn enable_is_followed_by_one_barrier() {
    let mut bus = Mmio::new(SimulatedBus::new());
    PeripheralClock::Tim7.enable(&mut bus);
    assert_eq!(
        *bus.bus().accesses(),
        vec![
            Access::Load { address: APB1ENR, value: 0 },
            Access::Store { address: APB1ENR, value: 0x0000_0020 },
            Access::Barrier,
        ],
    );
}

#[test]
fn disable_is_followed_by_no_barrier() {
    let mut sim = SimulatedBus::new();
    sim.poke(APB1ENR, 0xFFFF_FFFF);
    let mut bus = Mmio::new(sim);
    PeripheralClock::Tim7.disable(&mut bus);
    assert_eq!(
        *bus.bus().accesses(),
        vec![
            Access::Load { address: APB1ENR, value: 0xFFFF_FFFF },
            Access::Store { address: APB1ENR, value: 0xFFFF_FFDF },
        ],
    );
    assert_eq!(barriers(bus.bus().accesses()), 0);
}

#[test]
fn one_barrier_for_each_enable() {
    let mut bus = Mmio::new(SimulatedBus::new());
    PeripheralClock::GpioD.enable(&mut bus);
    PeripheralClock::GpioD.disable(&mut bus);
    PeripheralClock::Spi1.enable(&mut bus);
    PeripheralClock::Rng.enable(&mut bus);
    PeripheralClock::Rng.disable(&mut bus);
    let log = bus.bus().accesses();
    assert_eq!(barriers(log), 3);
    assert_eq!(log.len(), 3 * 3 + 2 * 2);
    assert!(log[2] == Access::Barrier);
    assert!(log[7] == Access::Barrier);
    assert!(log[10] == Access::Barrier);
}

#[test]
fn enable_keeps_the_other_gates() {
    let mut sim = SimulatedBus::new();
    sim.poke(AHB1ENR, 0x0010_0001);
    let mut bus = Mmio::new(sim);
    PeripheralClock::GpioD.enable(&mut bus);
    assert_eq!(bus.bus().peek(AHB1ENR), 0x0010_0009);
    PeripheralClock::GpioA.disable(&mut bus);
    assert_eq!(bus.bus().peek(AHB1ENR), 0x0010_0008);
}

fn gate(clock: PeripheralClock) -> (u32, u32) {
    let mut bus = Mmio::new(SimulatedBus::new());
    clock.enable(&mut bus);
    match bus.bus().accesses()[1] {
        Access::Store { address, value } => (address, value),
        _ => panic!("the second access of enable is a store"),
    }
}

#[test]
fn gates_of_ahb1() {
    assert_eq!(gate(PeripheralClock::GpioA), (AHB1ENR, 1 << 0));
    assert_eq!(gate(PeripheralClock::GpioB), (AHB1ENR, 1 << 1));
    assert_eq!(gate(PeripheralClock::GpioC), (AHB1ENR, 1 << 2));
    assert_eq!(gate(PeripheralClock::GpioD), (AHB1ENR, 1 << 3));
    assert_eq!(gate(PeripheralClock::GpioE), (AHB1ENR, 1 << 4));
    assert_eq!(gate(PeripheralClock::GpioF), (AHB1ENR, 1 << 5));
    assert_eq!(gate(PeripheralClock::GpioG), (AHB1ENR, 1 << 6));
    assert_eq!(gate(PeripheralClock::GpioH), (AHB1ENR, 1 << 7));
    assert_eq!(gate(PeripheralClock::GpioI), (AHB1ENR, 1 << 8));
    assert_eq!(gate(PeripheralClock::Crc), (AHB1ENR, 1 << 12));
    assert_eq!(gate(PeripheralClock::BkpSram), (AHB1ENR, 1 << 18));
    assert_eq!(gate(PeripheralClock::CcmDataRam), (AHB1ENR, 1 << 20));
    assert_eq!(gate(PeripheralClock::Dma1), (AHB1ENR, 1 << 21));
    assert_eq!(gate(PeripheralClock::Dma2), (AHB1ENR, 1 << 22));
    assert_eq!(gate(PeripheralClock::EthMac), (AHB1ENR, 1 << 25));
    assert_eq!(gate(PeripheralClock::EthMacTx), (AHB1ENR, 1 << 26));
    assert_eq!(gate(PeripheralClock::EthMacRx), (AHB1ENR, 1 << 27));
    assert_eq!(gate(PeripheralClock::EthMacPtp), (AHB1ENR, 1 << 28));
    assert_eq!(gate(PeripheralClock::OtgHs), (AHB1ENR, 1 << 29));
    assert_eq!(gate(PeripheralClock::OtgHsulpi), (AHB1ENR, 1 << 30));
}

#[test]
fn gates_of_ahb2_and_ahb3() {
    assert_eq!(gate(PeripheralClock::Dcmi), (AHB2ENR, 1 << 0));
    assert_eq!(gate(PeripheralClock::Cryp), (AHB2ENR, 1 << 4));
    assert_eq!(gate(PeripheralClock::Hash), (AHB2ENR, 1 << 5));
    assert_eq!(gate(PeripheralClock::Rng), (AHB2ENR, 1 << 6));
    assert_eq!(gate(PeripheralClock::OtgFs), (AHB2ENR, 1 << 7));
    assert_eq!(gate(PeripheralClock::Fsmc), (AHB3ENR, 1 << 0));
}

#[test]
fn gates_of_apb1() {
    assert_eq!(gate(PeripheralClock::Tim2), (APB1ENR, 1 << 0));
    assert_eq!(gate(PeripheralClock::Tim3), (APB1ENR, 1 << 1));
    assert_eq!(gate(PeripheralClock::Tim4), (APB1ENR, 1 << 2));
    assert_eq!(gate(PeripheralClock::Tim5), (APB1ENR, 1 << 3));
    assert_eq!(gate(PeripheralClock::Tim6), (APB1ENR, 1 << 4));
    assert_eq!(gate(PeripheralClock::Tim7), (APB1ENR, 1 << 5));
    assert_eq!(gate(PeripheralClock::Tim12), (APB1ENR, 1 << 6));
    assert_eq!(gate(PeripheralClock::Tim13), (APB1ENR, 1 << 7));
    assert_eq!(gate(PeripheralClock::Tim14), (APB1ENR, 1 << 8));
    assert_eq!(gate(PeripheralClock::WWdg), (APB1ENR, 1 << 11));
    assert_eq!(gate(PeripheralClock::Spi2), (APB1ENR, 1 << 14));
    assert_eq!(gate(PeripheralClock::Spi3), (APB1ENR, 1 << 15));
    assert_eq!(gate(PeripheralClock::Usart2), (APB1ENR, 1 << 17));
    assert_eq!(gate(PeripheralClock::Usart3), (APB1ENR, 1 << 18));
    assert_eq!(gate(PeripheralClock::Uart4), (APB1ENR, 1 << 19));
    assert_eq!(gate(PeripheralClock::Uart5), (APB1ENR, 1 << 20));
    assert_eq!(gate(PeripheralClock::I2c1), (APB1ENR, 1 << 21));
    assert_eq!(gate(PeripheralClock::I2c2), (APB1ENR, 1 << 22));
    assert_eq!(gate(PeripheralClock::I2c3), (APB1ENR, 1 << 23));
    assert_eq!(gate(PeripheralClock::Can1), (APB1ENR, 1 << 25));
    assert_eq!(gate(PeripheralClock::Can2), (APB1ENR, 1 << 26));
    assert_eq!(gate(PeripheralClock::Pwr), (APB1ENR, 1 << 28));
    assert_eq!(gate(PeripheralClock::Dac), (APB1ENR, 1 << 29));
}

#[test]
fn gates_of_apb2() {
    assert_eq!(gate(PeripheralClock::Tim1), (APB2ENR, 1 << 0));
    assert_eq!(gate(PeripheralClock::Tim8), (APB2ENR, 1 << 1));
    assert_eq!(gate(PeripheralClock::Usart1), (APB2ENR, 1 << 4));
    assert_eq!(gate(PeripheralClock::Usart6), (APB2ENR, 1 << 5));
    assert_eq!(gate(PeripheralClock::Adc1), (APB2ENR, 1 << 8));
    assert_eq!(gate(PeripheralClock::Adc2), (APB2ENR, 1 << 9));
    assert_eq!(gate(PeripheralClock::Adc3), (APB2ENR, 1 << 10));
    assert_eq!(gate(PeripheralClock::Sdio), (APB2ENR, 1 << 11));
    assert_eq!(gate(PeripheralClock::Spi1), (APB2ENR, 1 << 12));
    assert_eq!(gate(PeripheralClock::SysCfg), (APB2ENR, 1 << 14));
    assert_eq!(gate(PeripheralClock::Tim9), (APB2ENR, 1 << 16));
    assert_eq!(gate(PeripheralClock::Tim10), (APB2ENR, 1 << 17));
    assert_eq!(gate(PeripheralClock::Tim11), (APB2ENR, 1 << 18));
}

#[test]
fn get_bit_pos_is_the_mask_of_the_gate() {
    assert_eq!(PeripheralClock::GpioD.get_bit_pos(), 0x0000_0008);
    assert_eq!(PeripheralClock::Pwr.get_bit_pos(), 0x1000_0000);
    assert_eq!(PeripheralClock::OtgHsulpi.get_bit_pos(), 0x4000_0000);
}
