use stm32f4xx_hal::bus::{Access, Mmio, RegisterBus};
use stm32f4xx_hal::core_cm4::core_cm4_regs::fpu::FpuRegs;
use stm32f4xx_hal::core_cm4::core_cm4_regs::mpu::MpuRegs;
use stm32f4xx_hal::core_cm4::core_cm4_regs::nvic::NvicRegs;
use stm32f4xx_hal::core_cm4::core_cm4_regs::scb::ScbRegs;
use stm32f4xx_hal::core_cm4::core_cm4_regs::scnscb::ScNScbRegs;
use stm32f4xx_hal::core_cm4::core_cm4_regs::sys_tick::SysTickRegs;
use stm32f4xx_hal::simulated::SimulatedBus;
use stm32f4xx_hal::stm32f4xx::regs::flash::FlashRegs;
use stm32f4xx_hal::stm32f4xx::regs::gpio::{GpioPort, GpioRegs};
use stm32f4xx_hal::stm32f4xx::regs::pwr::PWR_Regs;
use stm32f4xx_hal::stm32f4xx::regs::rcc::RccRegs;
use stm32f4xx_hal::stm32f4xx::regs::spi::{SPIInst, SPI_Regs};
use stm32f4xx_hal::stm32f4xx::regs::tim::{TimInst, TimRegs};
use stm32f4xx_hal::volatile_reg32::VolatileReg32;

fn addresses(regs: &[&VolatileReg32]) -> Vec<u32> {
    regs.iter().map(|r| r.addr()).collect()
}

fn at_offsets(base: u32, words: &[u32]) -> Vec<u32> {
    words.iter().map(|w| base + 4 * w).collect()
}

#[test]
fn new_binds_the_address() {
    assert_eq!(VolatileReg32::new(0x4002_3800).addr(), 0x4002_3800);
}

#[test]
fn new_offset_counts_in_words() {
    assert_eq!(VolatileReg32::new_offset(0x4002_3800, 0).addr(), 0x4002_3800);
    assert_eq!(VolatileReg32::new_offset(0x4002_3800, 1).addr(), 0x4002_3804);
    assert_eq!(VolatileReg32::new_offset(0x4002_3800, 33).addr(), 0x4002_3884);
    assert_eq!(VolatileReg32::new_offset(0xFFFF_FFF8, 1).addr(), 0xFFFF_FFFC);
}

#[test]
fn rcc_layout() {
    let r = RccRegs::init();
    let got = addresses(&[
        &r.cr, &r.pllcfgr, &r.cfgr, &r.cir, &r.ahb1rstr, &r.ahb2rstr, &r.ahb3rstr, &r.apb1rstr,
        &r.apb2rstr, &r.ahb1enr, &r.ahb2enr, &r.ahb3enr, &r.apb1enr, &r.apb2enr, &r.ahb1lpenr,
        &r.ahb2lpenr, &r.ahb3lpenr, &r.apb1lpenr, &r.apb2lpenr, &r.bdcr, &r.csr, &r.sscgr,
        &r.plli2scfgr,
    ]);
    let want = at_offsets(
        0x4002_3800,
        &[0, 1, 2, 3, 4, 5, 6, 8, 9, 12, 13, 14, 16, 17, 20, 21, 22, 24, 25, 28, 29, 32, 33],
    );
    assert_eq!(got, want);
    assert_eq!(r.apb1enr.addr(), 0x4002_3840);
    assert_eq!(r.plli2scfgr.addr(), 0x4002_3884);
}

fn gpio_addresses(port: GpioPort) -> Vec<u32> {
    let g = GpioRegs::init(port);
    addresses(&[
        &g.moder, &g.otyper, &g.ospeedr, &g.pupdr, &g.idr, &g.odr, &g.bsrr, &g.lckr, &g.afrl,
        &g.afrh,
    ])
}

#[test]
fn gpio_layout_for_every_port() {
    let ports = [
        (GpioPort::PortA, 0x4002_0000u32),
        (GpioPort::PortB, 0x4002_0400),
        (GpioPort::PortC, 0x4002_0800),
        (GpioPort::PortD, 0x4002_0C00),
        (GpioPort::PortE, 0x4002_1000),
        (GpioPort::PortF, 0x4002_1400),
        (GpioPort::PortG, 0x4002_1800),
        (GpioPort::PortH, 0x4002_1C00),
        (GpioPort::PortI, 0x4002_2000),
    ];
    for (port, base) in ports {
        assert_eq!(port.base_address(), base);
        assert_eq!(gpio_addresses(port), at_offsets(base, &[0, 1, 2, 3, 4, 5, 6, 7, 8, 9]));
    }
}

fn tim_addresses(inst: TimInst) -> Vec<u32> {
    let t: TimRegs = TimInst::init(inst);
    addresses(&[
        &t.cr1, &t.cr2, &t.smcr, &t.dier, &t.sr, &t.egr, &t.ccmr1, &t.ccmr2, &t.ccer, &t.cnt,
        &t.psc, &t.arr, &t.rcr, &t.ccr1, &t.ccr2, &t.ccr3, &t.ccr4, &t.bdtr, &t.dcr, &t.dmar,
        &t.or,
    ])
}

#[test]
fn tim_layout_for_every_timer() {
    let timers = [
        (TimInst::TIM1, 0x4001_0000u32),
        (TimInst::TIM2, 0x4000_0000),
        (TimInst::TIM3, 0x4000_0400),
        (TimInst::TIM4, 0x4000_0800),
        (TimInst::TIM5, 0x4000_0C00),
        (TimInst::TIM6, 0x4000_1000),
        (TimInst::TIM7, 0x4000_1400),
        (TimInst::TIM8, 0x4001_0400),
        (TimInst::TIM9, 0x4001_4000),
        (TimInst::TIM10, 0x4001_4400),
        (TimInst::TIM11, 0x4001_4800),
        (TimInst::TIM12, 0x4000_1800),
        (TimInst::TIM13, 0x4000_1C00),
        (TimInst::TIM14, 0x4000_2000),
    ];
    let words: Vec<u32> = (0..21).collect();
    for (inst, base) in timers {
        assert_eq!(inst.base_address(), base);
        assert_eq!(tim_addresses(inst), at_offsets(base, &words));
    }
}

#[test]
fn spi_layout_for_every_instance() {
    let instances = [
        (SPIInst::I2S2ext, 0x4000_3400u32),
        (SPIInst::I2S3ext, 0x4000_4000),
        (SPIInst::SPI1, 0x4001_3000),
        (SPIInst::SPI2, 0x4000_3800),
        (SPIInst::SPI3, 0x4000_3C00),
    ];
    for (inst, base) in instances {
        let s = SPI_Regs::init(inst);
        let got = addresses(&[
            &s.cr1, &s.cr2, &s.sr, &s.dr, &s.crcpr, &s.rxcrcr, &s.txcrcr, &s.i2scfgr, &s.i2spr,
        ]);
        assert_eq!(got, at_offsets(base, &[0, 1, 2, 3, 4, 5, 6, 7, 8]));
    }
}

#[test]
fn pwr_and_flash_layout() {
    let p = PWR_Regs::init();
    assert_eq!(addresses(&[&p.cr, &p.csr]), vec![0x4000_7000, 0x4000_7004]);
    let f = FlashRegs::init();
    assert_eq!(
        addresses(&[&f.acr, &f.keyr, &f.optkeyr, &f.sr, &f.cr, &f.optcr]),
        at_offsets(0x4002_3C00, &[0, 1, 2, 3, 4, 5]),
    );
}

#[test]
fn scb_layout() {
    let s = ScbRegs::init();
    let got = addresses(&[
        &s.cpuid, &s.icsr, &s.vtor, &s.aircr, &s.scr, &s.ccr, &s.shp1, &s.shp2, &s.shp3,
        &s.shcsr, &s.cfsr, &s.hfsr, &s.dfsr, &s.mmfar, &s.bfar, &s.afsr, &s.pfr0, &s.pfr1,
        &s.dfr, &s.adr, &s.mmfr0, &s.mmfr1, &s.mmfr2, &s.mmfr3, &s.isar0, &s.isar1, &s.isar2,
        &s.isar3, &s.isar4, &s.cpacr,
    ]);
    let mut words: Vec<u32> = (0..29).collect();
    words.push(34);
    assert_eq!(got, at_offsets(0xE000_ED00, &words));
    assert_eq!(s.vtor.addr(), 0xE000_ED08);
    assert_eq!(s.cpacr.addr(), 0xE000_ED88);
}

#[test]
fn small_core_blocks_layout() {
    let c = ScNScbRegs::init();
    assert_eq!(addresses(&[&c.ictr, &c.actlr]), vec![0xE000_E004, 0xE000_E008]);
    let t = SysTickRegs::init();
    assert_eq!(
        addresses(&[&t.ctrl, &t.load, &t.val, &t.calib]),
        at_offsets(0xE000_E010, &[0, 1, 2, 3]),
    );
    let f = FpuRegs::init();
    assert_eq!(
        addresses(&[&f.fpccr, &f.fpcar, &f.fpdscr]),
        vec![0xE000_EF34, 0xE000_EF38, 0xE000_EF3C],
    );
    let m = MpuRegs::init();
    let got = addresses(&[
        &m.mpu_type, &m.ctrl, &m.rnr, &m.rbar, &m.rasr, &m.rbar_a1, &m.rasr_a1, &m.rbar_a2,
        &m.rasr_a2, &m.rbar_a3, &m.rasr_a3,
    ]);
    let words: Vec<u32> = (0..11).collect();
    assert_eq!(got, at_offsets(0xE000_ED90, &words));
}

#[test]
fn nvic_layout() {
    let n = NvicRegs::init();
    for i in 0..3u32 {
        let k = i as usize;
        assert_eq!(n.iser[k].addr(), 0xE000_E100 + 4 * i);
        assert_eq!(n.icer[k].addr(), 0xE000_E180 + 4 * i);
        assert_eq!(n.ispr[k].addr(), 0xE000_E200 + 4 * i);
        assert_eq!(n.icpr[k].addr(), 0xE000_E280 + 4 * i);
        assert_eq!(n.iabr[k].addr(), 0xE000_E300 + 4 * i);
    }
    for i in 0..21u32 {
        assert_eq!(n.ipr[i as usize].addr(), 0xE000_E400 + 4 * i);
    }
    assert_eq!(n.stir.addr(), 0xE000_EF00);
}

#[test]
fn get_and_set_are_one_access_each() {
    let mut bus = Mmio::new(SimulatedBus::new());
    let reg = VolatileReg32::new(0x4002_3830);
    reg.set(&mut bus, 0xDEAD_BEEF);
    assert_eq!(reg.get(&mut bus), 0xDEAD_BEEF);
    let sim = bus.release();
    assert_eq!(
        *sim.accesses(),
        vec![
            Access::Store { address: 0x4002_3830, value: 0xDEAD_BEEF },
            Access::Load { address: 0x4002_3830, value: 0xDEAD_BEEF },
        ],
    );
}

#[test]
fn bit_or_then_bit_and_on_the_gpiod_enable_bit() {
    let mut bus = Mmio::new(SimulatedBus::new());
    let ahb1enr = RccRegs::init().ahb1enr;
    assert_eq!(ahb1enr.get(&mut bus), 0x0000_0000);
    ahb1enr.bit_or(&mut bus, 0x0000_0008);
    assert_eq!(ahb1enr.get(&mut bus), 0x0000_0008);
    ahb1enr.bit_and(&mut bus, 0xFFFF_FFF7);
    assert_eq!(ahb1enr.get(&mut bus), 0x0000_0000);
}

#[test]
fn modify_is_a_load_and_then_a_store() {
    let mut sim = SimulatedBus::new();
    sim.poke(0x100, 0xF0F0_0000);
    let mut bus = Mmio::new(sim);
    VolatileReg32::new(0x100).bit_or(&mut bus, 0x0000_00FF);
    assert_eq!(
        *bus.bus().accesses(),
        vec![
            Access::Load { address: 0x100, value: 0xF0F0_0000 },
            Access::Store { address: 0x100, value: 0xF0F0_00FF },
        ],
    );
}

#[test]
fn bit_operations_keep_the_other_bits() {
    let mut sim = SimulatedBus::new();
    sim.poke(0x100, 0xA5A5_5A5A);
    sim.poke(0x104, 0x1234_5678);
    let mut bus = Mmio::new(sim);
    let reg = VolatileReg32::new(0x100);
    reg.bit_or(&mut bus, 0x0000_FF00);
    assert_eq!(bus.bus().peek(0x100), 0xA5A5_FF5A);
    reg.bit_and(&mut bus, 0xFFFF_0FFF);
    assert_eq!(bus.bus().peek(0x100), 0xA5A5_0F5A);
    reg.bit_xor(&mut bus, 0xFF00_000F);
    assert_eq!(bus.bus().peek(0x100), 0x5AA5_0F55);
    assert_eq!(bus.bus().peek(0x104), 0x1234_5678);
}

#[test]
fn add_and_sub_wrap() {
    let mut sim = SimulatedBus::new();
    sim.poke(0x200, 0xFFFF_FFFE);
    let mut bus = Mmio::new(sim);
    let reg = VolatileReg32::new(0x200);
    reg.add(&mut bus, 1);
    assert_eq!(bus.bus().peek(0x200), 0xFFFF_FFFF);
    reg.add(&mut bus, 3);
    assert_eq!(bus.bus().peek(0x200), 2);
    reg.sub(&mut bus, 5);
    assert_eq!(bus.bus().peek(0x200), 0xFFFF_FFFD);
    reg.sub(&mut bus, 0xFFFF_FFFD);
    assert_eq!(bus.bus().peek(0x200), 0);
}

struct Stuck {
    answer: u32,
    stores: Vec<(u32, u32)>,
}

impl RegisterBus for Stuck {
    fn load(&mut self, _address: u32) -> u32 {
        self.answer
    }

    fn store(&mut self, address: u32, value: u32) {
        self.stores.push((address, value));
    }

    fn barrier(&mut self) {}
}

#[test]
fn modify_stores_what_the_load_returned_with_the_change() {
    let mut bus = Mmio::new(Stuck { answer: 0x0F0F_0F0F, stores: Vec::new() });
    let reg = VolatileReg32::new(0x40);
    reg.bit_or(&mut bus, 0xF000_0000);
    reg.bit_and(&mut bus, 0x0000_FFFF);
    reg.bit_xor(&mut bus, 0xFFFF_FFFF);
    reg.add(&mut bus, 0xF0F0_F0F1);
    reg.sub(&mut bus, 0x0F0F_0F10);
    assert_eq!(
        bus.release().stores,
        vec![
            (0x40, 0xFF0F_0F0F),
            (0x40, 0x0000_0F0F),
            (0x40, 0xF0F0_F0F0),
            (0x40, 0x0000_0000),
            (0x40, 0xFFFF_FFFF),
        ],
    );
}
