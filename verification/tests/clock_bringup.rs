use stm32f4xx_hal::bus::{Access, Mmio};
use stm32f4xx_hal::clock::{
    set_sys_clock, ClockOutcome, ClockPlan, ClockStage, SysClock, HSE_STARTUP_TIMEOUT,
};
use stm32f4xx_hal::poll::{PollStatus, PollUntil, WaitBudget};
use stm32f4xx_hal::simulated::SimulatedBus;
use stm32f4xx_hal::system::{system_init, InitStage, SystemInit};
use stm32f4xx_hal::volatile_reg32::VolatileReg32;

const RCC_CR: u32 = 0x4002_3800;
const RCC_PLLCFGR: u32 = 0x4002_3804;
const RCC_CFGR: u32 = 0x4002_3808;
const RCC_CIR: u32 = 0x4002_380C;
const RCC_APB1ENR: u32 = 0x4002_3840;
const PWR_CR: u32 = 0x4000_7000;
const FLASH_ACR: u32 = 0x4002_3C00;
const SCB_VTOR: u32 = 0xE000_ED08;
const SCB_CPACR: u32 = 0xE000_ED88;
const FLASH_BASE: u32 = 0x0800_0000;

const HSERDY: u32 = 0x0002_0000;
const PLLRDY: u32 = 0x0200_0000;
const SWS: u32 = 0x0000_000C;
const SWS_PLL: u32 = 0x0000_0008;

/// Hardware on which the oscillator, the PLL and the switch are there at once.
fn willing() -> SimulatedBus {
    let mut sim = SimulatedBus::new();
    sim.drive(RCC_CR, HSERDY | PLLRDY, HSERDY | PLLRDY);
    sim.drive(RCC_CFGR, SWS, SWS_PLL);
    sim
}

fn stores(log: &[Access]) -> Vec<(u32, u32)> {
    log.iter()
        .filter_map(|a| match a {
            Access::Store { address, value } => Some((*address, *value)),
            _ => None,
        })
        .collect()
}

fn loads_of(log: &[Access], wanted: u32) -> usize {
    log.iter().filter(|a| matches!(a, Access::Load { address, .. } if *address == wanted)).count()
}

fn run_clock(bus: &mut Mmio<SimulatedBus>, clock: &mut SysClock, most: usize) -> (ClockStage, usize) {
    let mut steps = 0;
    let mut stage = clock.stage();
    while steps < most && !matches!(stage, ClockStage::Done(_)) {
        stage = set_sys_clock(bus, clock);
        steps += 1;
    }
    (stage, steps)
}

fn run_init(bus: &mut Mmio<SimulatedBus>, init: &mut SystemInit, most: usize) -> (InitStage, usize) {
    let mut steps = 0;
    let mut stage = init.stage();
    while steps < most && !matches!(stage, InitStage::Done(_)) {
        stage = system_init(bus, init);
        steps += 1;
    }
    (stage, steps)
}

#[test]
fn standard_plan() {
    let plan = ClockPlan::standard();
    assert_eq!((plan.pll_m, plan.pll_n, plan.pll_p, plan.pll_q), (8, 336, 2, 7));
    assert!(plan.hse_wait == WaitBudget::Bounded(0x500));
    assert!(plan.pll_wait == WaitBudget::Unbounded);
    assert!(plan.switch_wait == WaitBudget::Unbounded);
    assert!(plan.is_valid());
    assert_eq!(HSE_STARTUP_TIMEOUT, 0x500);
}

#[test]
fn word_of_the_standard_plan() {
    let word = ClockPlan::standard().pll_word();
    assert_eq!(word, 0x0740_5408);
    assert_eq!(word & 0x3F, 8);
    assert_eq!((word >> 6) & 0x1FF, 336);
    assert_eq!((word >> 16) & 0x3, 0);
    assert_eq!((word >> 22) & 0x1, 1);
    assert_eq!((word >> 24) & 0xF, 7);
}

#[test]
fn word_at_the_edges_of_the_fields() {
    let plan = ClockPlan::new(63, 511, 8, 15).unwrap();
    assert_eq!(plan.pll_word(), 0x0F43_7FFF);
    let plan = ClockPlan::new(0, 0, 2, 0).unwrap();
    assert_eq!(plan.pll_word(), 0x0040_0000);
    let plan = ClockPlan::new(0, 0, 4, 0).unwrap();
    assert_eq!(plan.pll_word(), 0x0041_0000);
    let plan = ClockPlan::new(0, 0, 6, 0).unwrap();
    assert_eq!(plan.pll_word(), 0x0042_0000);
}

#[test]
fn new_refuses_factors_that_do_not_fit() {
    assert!(ClockPlan::new(8, 336, 2, 7) == Some(ClockPlan::standard()));
    assert!(ClockPlan::new(64, 336, 2, 7).is_none());
    assert!(ClockPlan::new(8, 512, 2, 7).is_none());
    assert!(ClockPlan::new(8, 336, 0, 7).is_none());
    assert!(ClockPlan::new(8, 336, 1, 7).is_none());
    assert!(ClockPlan::new(8, 336, 3, 7).is_none());
    assert!(ClockPlan::new(8, 336, 10, 7).is_none());
    assert!(ClockPlan::new(8, 336, 2, 16).is_none());
}

#[test]
fn poll_finds_the_pattern() {
    let mut sim = SimulatedBus::new();
    sim.poke(0x50, 0x0000_00A5);
    let mut bus = Mmio::new(sim);
    let reg = VolatileReg32::new(0x50);
    let mut wait = PollUntil::new(reg, 0xF0, 0xA0, WaitBudget::Bounded(0));
    assert!(wait.poll(&mut bus) == PollStatus::Ready);
    assert_eq!(wait.retries, 0);
    assert_eq!(*bus.bus().accesses(), vec![Access::Load { address: 0x50, value: 0xA5 }]);
}

#[test]
fn bounded_poll_gives_up_after_its_retries() {
    let mut bus = Mmio::new(SimulatedBus::new());
    let reg = VolatileReg32::new(0x50);
    let mut wait = PollUntil::new(reg, 1, 1, WaitBudget::Bounded(3));
    assert!(wait.poll(&mut bus) == PollStatus::Pending);
    assert!(wait.poll(&mut bus) == PollStatus::Pending);
    assert!(wait.poll(&mut bus) == PollStatus::Pending);
    assert_eq!(wait.retries, 3);
    assert!(wait.poll(&mut bus) == PollStatus::TimedOut);
    assert_eq!(wait.retries, 3);
    assert_eq!(bus.bus().accesses().len(), 4);
}

#[test]
fn poll_without_retries_times_out_at_once() {
    let mut bus = Mmio::new(SimulatedBus::new());
    let mut wait = PollUntil::new(VolatileReg32::new(0x50), 1, 1, WaitBudget::Bounded(0));
    assert!(wait.poll(&mut bus) == PollStatus::TimedOut);
}

#[test]
fn unbounded_poll_never_gives_up() {
    let mut bus = Mmio::new(SimulatedBus::new());
    let mut wait = PollUntil::new(VolatileReg32::new(0x50), 1, 1, WaitBudget::Unbounded);
    for _ in 0..10_000 {
        assert!(wait.poll(&mut bus) == PollStatus::Pending);
    }
    assert_eq!(wait.retries, 0);
    assert_eq!(bus.bus().accesses().len(), 10_000);
}

#[test]
fn late_ready_is_found() {
    let mut bus = Mmio::new(SimulatedBus::new());
    let mut wait = PollUntil::new(VolatileReg32::new(0x50), 1, 1, WaitBudget::Bounded(5));
    assert!(wait.poll(&mut bus) == PollStatus::Pending);
    assert!(wait.poll(&mut bus) == PollStatus::Pending);
    let mut sim = bus.release();
    sim.poke(0x50, 1);
    let mut bus = Mmio::new(sim);
    assert!(wait.poll(&mut bus) == PollStatus::Ready);
    assert_eq!(wait.retries, 2);
}

#[test]
fn clock_comes_up_on_willing_hardware() {
    let mut bus = Mmio::new(willing());
    let mut clock = SysClock::new(ClockPlan::standard());
    assert!(clock.stage() == ClockStage::Start);
    assert!(set_sys_clock(&mut bus, &mut clock) == ClockStage::AwaitHse);
    assert!(set_sys_clock(&mut bus, &mut clock) == ClockStage::AwaitPll);
    assert!(set_sys_clock(&mut bus, &mut clock) == ClockStage::AwaitSwitch);
    assert!(set_sys_clock(&mut bus, &mut clock) == ClockStage::Done(ClockOutcome::Pll));
    assert_eq!(
        *bus.bus().accesses(),
        vec![
            // the external oscillator is switched on
            Access::Load { address: RCC_CR, value: 0x0202_0000 },
            Access::Store { address: RCC_CR, value: 0x0203_0000 },
            // one poll, and the load that decides
            Access::Load { address: RCC_CR, value: 0x0203_0000 },
            Access::Load { address: RCC_CR, value: 0x0203_0000 },
            // power interface clock, voltage scale
            Access::Load { address: RCC_APB1ENR, value: 0 },
            Access::Store { address: RCC_APB1ENR, value: 0x1000_0000 },
            Access::Load { address: PWR_CR, value: 0 },
            Access::Store { address: PWR_CR, value: 0x0000_4000 },
            // prescalers: AHB by 1, APB2 by 2, APB1 by 4
            Access::Load { address: RCC_CFGR, value: 0x0000_0008 },
            Access::Store { address: RCC_CFGR, value: 0x0000_0008 },
            Access::Load { address: RCC_CFGR, value: 0x0000_0008 },
            Access::Store { address: RCC_CFGR, value: 0x0000_8008 },
            Access::Load { address: RCC_CFGR, value: 0x0000_8008 },
            Access::Store { address: RCC_CFGR, value: 0x0000_9408 },
            // the PLL is configured, then switched on
            Access::Store { address: RCC_PLLCFGR, value: 0x0740_5408 },
            Access::Load { address: RCC_CR, value: 0x0203_0000 },
            Access::Store { address: RCC_CR, value: 0x0303_0000 },
            // one poll for the lock
            Access::Load { address: RCC_CR, value: 0x0303_0000 },
            // flash, then the switch
            Access::Store { address: FLASH_ACR, value: 0x0000_0605 },
            Access::Load { address: RCC_CFGR, value: 0x0000_9408 },
            Access::Store { address: RCC_CFGR, value: 0x0000_9408 },
            Access::Load { address: RCC_CFGR, value: 0x0000_9408 },
            Access::Store { address: RCC_CFGR, value: 0x0000_940A },
            // one poll for the switch
            Access::Load { address: RCC_CFGR, value: 0x0000_940A },
        ],
    );
}

#[test]
fn done_does_nothing() {
    let mut bus = Mmio::new(willing());
    let mut clock = SysClock::new(ClockPlan::standard());
    let (stage, steps) = run_clock(&mut bus, &mut clock, 100);
    assert!(stage == ClockStage::Done(ClockOutcome::Pll));
    assert_eq!(steps, 4);
    let before = bus.bus().accesses().len();
    assert!(set_sys_clock(&mut bus, &mut clock) == ClockStage::Done(ClockOutcome::Pll));
    assert_eq!(bus.bus().accesses().len(), before);
}

#[test]
fn start_up_order_on_willing_hardware() {
    let mut bus = Mmio::new(willing());
    let mut init = SystemInit::new(ClockPlan::standard(), FLASH_BASE);
    let (stage, steps) = run_init(&mut bus, &mut init, 100);
    assert!(stage == InitStage::Done(ClockOutcome::Pll));
    assert_eq!(steps, 5);
    assert_eq!(
        stores(bus.bus().accesses()),
        vec![
            (SCB_CPACR, 0x00F0_0000),
            (RCC_CR, 0x0202_0001),
            (RCC_CFGR, 0x0000_0000),
            (RCC_CR, 0x0202_0001),
            (RCC_PLLCFGR, 0x2400_3010),
            (RCC_CR, 0x0202_0001),
            (RCC_CIR, 0x0000_0000),
            (RCC_CR, 0x0203_0001),
            (RCC_APB1ENR, 0x1000_0000),
            (PWR_CR, 0x0000_4000),
            (RCC_CFGR, 0x0000_0008),
            (RCC_CFGR, 0x0000_8008),
            (RCC_CFGR, 0x0000_9408),
            (RCC_PLLCFGR, 0x0740_5408),
            (RCC_CR, 0x0303_0001),
            (FLASH_ACR, 0x0000_0605),
            (RCC_CFGR, 0x0000_9408),
            (RCC_CFGR, 0x0000_940A),
            (SCB_VTOR, 0x0800_0000),
        ],
    );
}

#[test]
fn first_step_puts_the_clock_tree_back() {
    let mut sim = SimulatedBus::new();
    sim.poke(RCC_CR, 0x010D_0000);
    sim.poke(RCC_CFGR, 0x0000_940A);
    sim.poke(RCC_PLLCFGR, 0x0740_5408);
    sim.poke(RCC_CIR, 0x0000_1F00);
    sim.poke(SCB_CPACR, 0x0000_0003);
    let mut bus = Mmio::new(sim);
    let mut init = SystemInit::new(ClockPlan::standard(), FLASH_BASE);
    assert!(system_init(&mut bus, &mut init) == InitStage::Clock);
    assert_eq!(bus.bus().peek(SCB_CPACR), 0x00F0_0003);
    assert_eq!(bus.bus().peek(RCC_CR), 0x0000_0001);
    assert_eq!(bus.bus().peek(RCC_CFGR), 0);
    assert_eq!(bus.bus().peek(RCC_PLLCFGR), 0x2400_3010);
    assert_eq!(bus.bus().peek(RCC_CIR), 0);
    assert_eq!(bus.bus().accesses().len(), 11);
}

#[test]
fn hse_wait_gives_up_after_its_budget() {
    let mut bus = Mmio::new(SimulatedBus::new());
    let mut clock = SysClock::new(ClockPlan::standard());
    let (stage, steps) = run_clock(&mut bus, &mut clock, 10_000);
    assert!(stage == ClockStage::Done(ClockOutcome::HseNotReady));
    // one step to switch the oscillator on, then one for each poll
    assert_eq!(steps, 1 + 0x500 + 1);
    let log = bus.bus().accesses();
    // the load of the switch-on, 0x500 + 1 polls, the load that decides
    assert_eq!(loads_of(log, RCC_CR), 1 + 0x501 + 1);
    assert_eq!(log.len(), 2 + 0x501 + 1);
    assert_eq!(stores(log), vec![(RCC_CR, 0x0001_0000)]);
}

#[test]
fn hse_wait_is_still_going_after_its_last_retry() {
    let mut bus = Mmio::new(SimulatedBus::new());
    let mut clock = SysClock::new(ClockPlan::standard());
    let (stage, steps) = run_clock(&mut bus, &mut clock, 1 + 0x500);
    assert!(stage == ClockStage::AwaitHse);
    assert_eq!(steps, 1 + 0x500);
}

#[test]
fn start_up_falls_back_when_the_oscillator_stays_away() {
    let mut bus = Mmio::new(SimulatedBus::new());
    let mut init = SystemInit::new(ClockPlan::standard(), FLASH_BASE);
    let (stage, steps) = run_init(&mut bus, &mut init, 10_000);
    assert!(stage == InitStage::Done(ClockOutcome::HseNotReady));
    assert_eq!(steps, 1 + 1 + 0x500 + 1);
    let log = bus.bus().accesses();
    assert_eq!(
        stores(log),
        vec![
            (SCB_CPACR, 0x00F0_0000),
            (RCC_CR, 0x0000_0001),
            (RCC_CFGR, 0x0000_0000),
            (RCC_CR, 0x0000_0001),
            (RCC_PLLCFGR, 0x2400_3010),
            (RCC_CR, 0x0000_0001),
            (RCC_CIR, 0x0000_0000),
            (RCC_CR, 0x0001_0001),
            (SCB_VTOR, 0x0800_0000),
        ],
    );
    assert_eq!(bus.bus().peek(FLASH_ACR), 0);
    assert_eq!(bus.bus().peek(RCC_PLLCFGR), 0x2400_3010);
}

#[test]
fn short_hse_budget() {
    let mut plan = ClockPlan::standard();
    plan.hse_wait = WaitBudget::Bounded(2);
    let mut bus = Mmio::new(SimulatedBus::new());
    let mut clock = SysClock::new(plan);
    let (stage, steps) = run_clock(&mut bus, &mut clock, 100);
    assert!(stage == ClockStage::Done(ClockOutcome::HseNotReady));
    assert_eq!(steps, 1 + 2 + 1);
    assert_eq!(
        *bus.bus().accesses(),
        vec![
            Access::Load { address: RCC_CR, value: 0 },
            Access::Store { address: RCC_CR, value: 0x0001_0000 },
            Access::Load { address: RCC_CR, value: 0x0001_0000 },
            Access::Load { address: RCC_CR, value: 0x0001_0000 },
            Access::Load { address: RCC_CR, value: 0x0001_0000 },
            Access::Load { address: RCC_CR, value: 0x0001_0000 },
        ],
    );
}

#[test]
fn pll_wait_hangs_by_default() {
    let mut sim = SimulatedBus::new();
    sim.drive(RCC_CR, HSERDY, HSERDY);
    let mut bus = Mmio::new(sim);
    let mut clock = SysClock::new(ClockPlan::standard());
    let (stage, steps) = run_clock(&mut bus, &mut clock, 50_000);
    assert!(stage == ClockStage::AwaitPll);
    assert_eq!(steps, 50_000);
    assert_eq!(bus.bus().peek(FLASH_ACR), 0);
}

#[test]
fn pll_wait_with_a_budget_gives_up() {
    let mut plan = ClockPlan::standard();
    plan.pll_wait = WaitBudget::Bounded(3);
    let mut sim = SimulatedBus::new();
    sim.drive(RCC_CR, HSERDY, HSERDY);
    let mut bus = Mmio::new(sim);
    let mut clock = SysClock::new(plan);
    let (stage, steps) = run_clock(&mut bus, &mut clock, 100);
    assert!(stage == ClockStage::Done(ClockOutcome::PllNotReady));
    assert_eq!(steps, 2 + 4);
    assert_eq!(bus.bus().peek(FLASH_ACR), 0);
    assert_eq!(bus.bus().peek(RCC_CFGR), 0x0000_9400);
}

#[test]
fn switch_wait_hangs_by_default() {
    let mut sim = SimulatedBus::new();
    sim.drive(RCC_CR, HSERDY | PLLRDY, HSERDY | PLLRDY);
    let mut bus = Mmio::new(sim);
    let mut clock = SysClock::new(ClockPlan::standard());
    let (stage, steps) = run_clock(&mut bus, &mut clock, 50_000);
    assert!(stage == ClockStage::AwaitSwitch);
    assert_eq!(steps, 50_000);
    assert_eq!(bus.bus().peek(RCC_CFGR), 0x0000_9402);
}

#[test]
fn switch_wait_with_a_budget_gives_up() {
    let mut plan = ClockPlan::standard();
    plan.switch_wait = WaitBudget::Bounded(1);
    let mut sim = SimulatedBus::new();
    sim.drive(RCC_CR, HSERDY | PLLRDY, HSERDY | PLLRDY);
    let mut bus = Mmio::new(sim);
    let mut init = SystemInit::new(plan, 0x2000_0000);
    let (stage, steps) = run_init(&mut bus, &mut init, 100);
    assert!(stage == InitStage::Done(ClockOutcome::SwitchNotDone));
    assert_eq!(steps, 1 + 3 + 2);
    assert_eq!(bus.bus().peek(SCB_VTOR), 0x2000_0000);
}

#[test]
fn oscillator_that_needs_a_while() {
    let mut bus = Mmio::new(SimulatedBus::new());
    let mut clock = SysClock::new(ClockPlan::standard());
    let (stage, steps) = run_clock(&mut bus, &mut clock, 1 + 7);
    assert!(stage == ClockStage::AwaitHse);
    assert_eq!(steps, 8);
    let mut sim = bus.release();
    sim.drive(RCC_CR, HSERDY | PLLRDY, HSERDY | PLLRDY);
    sim.drive(RCC_CFGR, SWS, SWS_PLL);
    let mut bus = Mmio::new(sim);
    let (stage, steps) = run_clock(&mut bus, &mut clock, 100);
    assert!(stage == ClockStage::Done(ClockOutcome::Pll));
    assert_eq!(steps, 3);
    assert_eq!(loads_of(bus.bus().accesses(), RCC_CR), 1 + 7 + 1 + 1 + 1 + 1);
}
