use stm32f4xx_hal::bus::{Access, RegisterBus};
use stm32f4xx_hal::simulated::SimulatedBus;

#[test]
fn every_word_starts_as_zero() {
    let sim = SimulatedBus::new();
    assert_eq!(sim.peek(0), 0);
    assert_eq!(sim.peek(0x4002_3800), 0);
    assert_eq!(sim.peek(0xFFFF_FFFC), 0);
    assert!(sim.accesses().is_empty());
}

#[test]
fn poke_is_seen_and_not_recorded() {
    let mut sim = SimulatedBus::new();
    sim.poke(0x10, 7);
    sim.poke(0x14, 9);
    sim.poke(0x10, 8);
    assert_eq!(sim.peek(0x10), 8);
    assert_eq!(sim.peek(0x14), 9);
    assert_eq!(sim.peek(0x18), 0);
    assert!(sim.accesses().is_empty());
}

#[test]
fn loads_stores_and_barriers_are_recorded_in_order() {
    let mut sim = SimulatedBus::new();
    sim.store(0x10, 0xAA);
    assert_eq!(sim.load(0x10), 0xAA);
    sim.barrier();
    assert_eq!(sim.load(0x14), 0);
    sim.store(0x10, 0xBB);
    assert_eq!(
        *sim.accesses(),
        vec![
            Access::Store { address: 0x10, value: 0xAA },
            Access::Load { address: 0x10, value: 0xAA },
            Access::Barrier,
            Access::Load { address: 0x14, value: 0 },
            Access::Store { address: 0x10, value: 0xBB },
        ],
    );
    assert_eq!(sim.peek(0x10), 0xBB);
}

#[test]
fn driven_bits_hide_what_is_stored() {
    let mut sim = SimulatedBus::new();
    sim.drive(0x20, 0x0000_00F0, 0x0000_00A0);
    assert_eq!(sim.peek(0x20), 0x0000_00A0);
    sim.store(0x20, 0xFFFF_FFFF);
    assert_eq!(sim.load(0x20), 0xFFFF_FFAF);
    sim.store(0x20, 0);
    assert_eq!(sim.load(0x20), 0x0000_00A0);
    sim.drive(0x20, 0, 0);
    assert_eq!(sim.load(0x20), 0);
}

#[test]
fn driven_bits_outside_the_mask_do_not_show() {
    let mut sim = SimulatedBus::new();
    sim.drive(0x20, 0x0000_000F, 0xFFFF_FFFF);
    assert_eq!(sim.peek(0x20), 0x0000_000F);
    assert_eq!(sim.peek(0x24), 0);
}
