use stm32f4xx_hal::bus::{Access, Mmio};
use stm32f4xx_hal::hal::gpio::{Pin, PinMode, PinOutputType, PinPullUpDown, PinSpeed};
use stm32f4xx_hal::hal::peripheral_clock::PeripheralClock;
use stm32f4xx_hal::simulated::SimulatedBus;
use stm32f4xx_hal::stm32f4xx::regs::gpio::GpioPort;

const GPIOD: u32 = 0x4002_0C00;
const GPIOD_MODER: u32 = GPIOD;
const GPIOD_OTYPER: u32 = GPIOD + 0x04;
const GPIOD_OSPEEDR: u32 = GPIOD + 0x08;
const GPIOD_PUPDR: u32 = GPIOD + 0x0C;
const GPIOD_IDR: u32 = GPIOD + 0x10;
const GPIOD_ODR: u32 = GPIOD + 0x14;
const GPIOD_BSRR: u32 = GPIOD + 0x18;
const GPIOD_AFRL: u32 = GPIOD + 0x20;
const GPIOD_AFRH: u32 = GPIOD + 0x24;

#[test]
fn init_starts_as_input() {
    let pin = Pin::init(GpioPort::PortD, 12);
    assert!(pin.port() == GpioPort::PortD);
    assert_eq!(pin.pin_num(), 12);
    assert!(pin.mode() == PinMode::Input);
}

#[test]
fn every_port_has_its_clock() {
    assert!(GpioPort::PortA.get_clock() == PeripheralClock::GpioA);
    assert!(GpioPort::PortB.get_clock() == PeripheralClock::GpioB);
    assert!(GpioPort::PortC.get_clock() == PeripheralClock::GpioC);
    assert!(GpioPort::PortD.get_clock() == PeripheralClock::GpioD);
    assert!(GpioPort::PortE.get_clock() == PeripheralClock::GpioE);
    assert!(GpioPort::PortF.get_clock() == PeripheralClock::GpioF);
    assert!(GpioPort::PortG.get_clock() == PeripheralClock::GpioG);
    assert!(GpioPort::PortH.get_clock() == PeripheralClock::GpioH);
    assert!(GpioPort::PortI.get_clock() == PeripheralClock::GpioI);
}

#[test]
fn set_high_on_pin_12_is_one_store_of_bit_12() {
    let mut bus = Mmio::new(SimulatedBus::new());
    Pin::init(GpioPort::PortD, 12).set(&mut bus, true);
    assert_eq!(
        *bus.bus().accesses(),
        vec![Access::Store { address: GPIOD_BSRR, value: 1 << 12 }],
    );
    assert_eq!(bus.bus().peek(GPIOD_ODR), 0);
}

#[test]
fn set_low_on_pin_12_is_one_store_of_bit_28() {
    let mut bus = Mmio::new(SimulatedBus::new());
    Pin::init(GpioPort::PortD, 12).set(&mut bus, false);
    assert_eq!(
        *bus.bus().accesses(),
        vec![Access::Store { address: GPIOD_BSRR, value: 1 << 28 }],
    );
}

#[test]
fn set_on_the_first_and_the_last_pin() {
    let mut bus = Mmio::new(SimulatedBus::new());
    Pin::init(GpioPort::PortA, 0).set(&mut bus, true);
    Pin::init(GpioPort::PortA, 0).set(&mut bus, false);
    Pin::init(GpioPort::PortI, 15).set(&mut bus, true);
    Pin::init(GpioPort::PortI, 15).set(&mut bus, false);
    assert_eq!(
        *bus.bus().accesses(),
        vec![
            Access::Store { address: 0x4002_0018, value: 0x0000_0001 },
            Access::Store { address: 0x4002_0018, value: 0x0001_0000 },
            Access::Store { address: 0x4002_2018, value: 0x0000_8000 },
            Access::Store { address: 0x4002_2018, value: 0x8000_0000 },
        ],
    );
}

#[test]
fn get_reads_the_bit_of_the_pin() {
    let mut sim = SimulatedBus::new();
    sim.poke(GPIOD_IDR, 0x0000_1000);
    let mut bus = Mmio::new(sim);
    assert_eq!(Pin::init(GpioPort::PortD, 12).get(&mut bus), 1);
    assert_eq!(Pin::init(GpioPort::PortD, 11).get(&mut bus), 0);
    assert_eq!(Pin::init(GpioPort::PortD, 13).get(&mut bus), 0);
    assert_eq!(
        *bus.bus().accesses(),
        vec![Access::Load { address: GPIOD_IDR, value: 0x0000_1000 }; 3],
    );
}

#[test]
fn toggle_from_low_drives_high() {
    let mut bus = Mmio::new(SimulatedBus::new());
    assert_eq!(Pin::init(GpioPort::PortD, 13).toggle(&mut bus), 1);
    assert_eq!(
        *bus.bus().accesses(),
        vec![
            Access::Load { address: GPIOD_IDR, value: 0 },
            Access::Store { address: GPIOD_BSRR, value: 1 << 13 },
        ],
    );
}

#[test]
fn toggle_from_high_drives_low() {
    let mut sim = SimulatedBus::new();
    sim.poke(GPIOD_IDR, 0xFFFF);
    let mut bus = Mmio::new(sim);
    assert_eq!(Pin::init(GpioPort::PortD, 13).toggle(&mut bus), 0);
    assert_eq!(
        *bus.bus().accesses(),
        vec![
            Access::Load { address: GPIOD_IDR, value: 0xFFFF },
            Access::Store { address: GPIOD_BSRR, value: 1 << 29 },
        ],
    );
}

#[test]
fn setup_mode_replaces_the_field_of_the_pin_only() {
    let mut sim = SimulatedBus::new();
    sim.poke(GPIOD_MODER, 0xFFFF_FFFF);
    let mut bus = Mmio::new(sim);
    let mut pin = Pin::init(GpioPort::PortD, 12);
    pin.setup_mode(&mut bus, PinMode::Output);
    assert!(pin.mode() == PinMode::Output);
    assert_eq!(
        *bus.bus().accesses(),
        vec![
            Access::Load { address: GPIOD_MODER, value: 0xFFFF_FFFF },
            Access::Store { address: GPIOD_MODER, value: 0xFDFF_FFFF },
        ],
    );
    pin.setup_mode(&mut bus, PinMode::AltFunc);
    assert_eq!(bus.bus().peek(GPIOD_MODER), 0xFEFF_FFFF);
    pin.setup_mode(&mut bus, PinMode::Input);
    assert_eq!(bus.bus().peek(GPIOD_MODER), 0xFCFF_FFFF);
    pin.setup_mode(&mut bus, PinMode::Analog);
    assert_eq!(bus.bus().peek(GPIOD_MODER), 0xFFFF_FFFF);
}

#[test]
fn four_leds_as_outputs() {
    let mut bus = Mmio::new(SimulatedBus::new());
    for n in 12..16u8 {
        Pin::init(GpioPort::PortD, n).setup_mode(&mut bus, PinMode::Output);
    }
    assert_eq!(bus.bus().peek(GPIOD_MODER), 0x5500_0000);
}

#[test]
fn setup_output_type_sets_or_clears_one_bit() {
    let mut sim = SimulatedBus::new();
    sim.poke(GPIOD_OTYPER, 0x0000_8001);
    let mut bus = Mmio::new(sim);
    let pin = Pin::init(GpioPort::PortD, 12);
    pin.setup_output_type(&mut bus, PinOutputType::OpenDrain);
    assert_eq!(bus.bus().peek(GPIOD_OTYPER), 0x0000_9001);
    pin.setup_output_type(&mut bus, PinOutputType::PushPull);
    assert_eq!(bus.bus().peek(GPIOD_OTYPER), 0x0000_8001);
    assert_eq!(
        *bus.bus().accesses(),
        vec![
            Access::Load { address: GPIOD_OTYPER, value: 0x0000_8001 },
            Access::Store { address: GPIOD_OTYPER, value: 0x0000_9001 },
            Access::Load { address: GPIOD_OTYPER, value: 0x0000_9001 },
            Access::Store { address: GPIOD_OTYPER, value: 0x0000_8001 },
        ],
    );
}

#[test]
fn setup_speed_replaces_the_field() {
    let mut bus = Mmio::new(SimulatedBus::new());
    let pin = Pin::init(GpioPort::PortD, 15);
    pin.setup_speed(&mut bus, PinSpeed::VeryHigh);
    assert_eq!(bus.bus().peek(GPIOD_OSPEEDR), 0xC000_0000);
    pin.setup_speed(&mut bus, PinSpeed::Medium);
    assert_eq!(bus.bus().peek(GPIOD_OSPEEDR), 0x4000_0000);
    pin.setup_speed(&mut bus, PinSpeed::High);
    assert_eq!(bus.bus().peek(GPIOD_OSPEEDR), 0x8000_0000);
    pin.setup_speed(&mut bus, PinSpeed::Low);
    assert_eq!(bus.bus().peek(GPIOD_OSPEEDR), 0);
}

#[test]
fn setup_pull_up_down_replaces_the_field() {
    let mut sim = SimulatedBus::new();
    sim.poke(GPIOD_PUPDR, 0x0000_000F);
    let mut bus = Mmio::new(sim);
    let pin = Pin::init(GpioPort::PortD, 1);
    pin.setup_pull_up_down(&mut bus, PinPullUpDown::PullUp);
    assert_eq!(bus.bus().peek(GPIOD_PUPDR), 0x0000_0007);
    pin.setup_pull_up_down(&mut bus, PinPullUpDown::PullDown);
    assert_eq!(bus.bus().peek(GPIOD_PUPDR), 0x0000_000B);
    pin.setup_pull_up_down(&mut bus, PinPullUpDown::NoPullUpDown);
    assert_eq!(bus.bus().peek(GPIOD_PUPDR), 0x0000_0003);
}

#[test]
fn setup_alt_func_uses_the_low_register_below_pin_8() {
    let mut bus = Mmio::new(SimulatedBus::new());
    Pin::init(GpioPort::PortD, 7).setup_alt_func(&mut bus, 5);
    Pin::init(GpioPort::PortD, 0).setup_alt_func(&mut bus, 0xA);
    assert_eq!(bus.bus().peek(GPIOD_AFRL), 0x5000_000A);
    assert_eq!(bus.bus().peek(GPIOD_AFRH), 0);
}

#[test]
fn setup_alt_func_uses_the_high_register_from_pin_8() {
    let mut bus = Mmio::new(SimulatedBus::new());
    Pin::init(GpioPort::PortD, 8).setup_alt_func(&mut bus, 5);
    Pin::init(GpioPort::PortD, 15).setup_alt_func(&mut bus, 7);
    assert_eq!(bus.bus().peek(GPIOD_AFRH), 0x7000_0005);
    assert_eq!(bus.bus().peek(GPIOD_AFRL), 0);
}

#[test]
fn setup_alt_func_keeps_bits_that_are_set() {
    let mut sim = SimulatedBus::new();
    sim.poke(GPIOD_AFRH, 0x000F_0000);
    let mut bus = Mmio::new(sim);
    Pin::init(GpioPort::PortD, 12).setup_alt_func(&mut bus, 5);
    assert_eq!(bus.bus().peek(GPIOD_AFRH), 0x000F_0000);
}

#[test]
fn configure_writes_the_four_registers_in_order() {
    let mut sim = SimulatedBus::new();
    sim.poke(GPIOD_MODER, 0x0300_0003);
    sim.poke(GPIOD_OTYPER, 0x0000_0001);
    sim.poke(GPIOD_OSPEEDR, 0x0000_0003);
    sim.poke(GPIOD_PUPDR, 0x0300_0003);
    let mut bus = Mmio::new(sim);
    let mut pin = Pin::init(GpioPort::PortD, 12);
    pin.configure(
        &mut bus,
        PinMode::Output,
        PinOutputType::OpenDrain,
        PinSpeed::High,
        PinPullUpDown::PullUp,
    );
    assert!(pin.mode() == PinMode::Output);
    assert_eq!(
        *bus.bus().accesses(),
        vec![
            Access::Load { address: GPIOD_MODER, value: 0x0300_0003 },
            Access::Store { address: GPIOD_MODER, value: 0x0100_0003 },
            Access::Load { address: GPIOD_OTYPER, value: 0x0000_0001 },
            Access::Store { address: GPIOD_OTYPER, value: 0x0000_1001 },
            Access::Load { address: GPIOD_OSPEEDR, value: 0x0000_0003 },
            Access::Store { address: GPIOD_OSPEEDR, value: 0x0200_0003 },
            Access::Load { address: GPIOD_PUPDR, value: 0x0300_0003 },
            Access::Store { address: GPIOD_PUPDR, value: 0x0100_0003 },
        ],
    );
}

#[test]
fn enable_clock_opens_the_gate_of_the_port() {
    let mut bus = Mmio::new(SimulatedBus::new());
    Pin::init(GpioPort::PortD, 12).enable_clock(&mut bus);
    assert_eq!(
        *bus.bus().accesses(),
        vec![
            Access::Load { address: 0x4002_3830, value: 0 },
            Access::Store { address: 0x4002_3830, value: 0x0000_0008 },
            Access::Barrier,
        ],
    );
}
