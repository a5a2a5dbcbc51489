//! What runs once after reset, before anything else touches a peripheral:
//! the floating point unit is opened, the clock tree is put back to its
//! reset state and brought up, and the vector table is placed.

use vstd::prelude::*;
use crate::bus::{Access, Mmio, RegisterBus};
use crate::clock::{
    keep_bits, set_bits, set_sys_clock, ClockOutcome, ClockPlan, ClockStage, ClockView, SysClock,
    RCC_CFGR, RCC_CR, RCC_PLLCFGR,
};
use crate::poll::PollStatus;
use crate::core_cm4::constants::SCB_BASE;
use crate::core_cm4::core_cm4_regs::scb::ScbRegs;
use crate::stm32f4xx::constants::RCC_BASE;
use crate::stm32f4xx::regs::rcc::{RccRegs, RCC_CR_HSERDY, RCC_CR_HSION};

verus! {

/// Address of the RCC clock interrupt register.
pub const RCC_CIR: u32 = RCC_BASE + 4 * 3;

/// Address of the vector table offset register.
pub const SCB_VTOR: u32 = SCB_BASE + 4 * 2;

/// Address of the coprocessor access control register.
pub const SCB_CPACR: u32 = SCB_BASE + 4 * 34;

/// Full access to the coprocessors 10 and 11, which are the floating point
/// unit.
pub const SCB_CPACR_FPU_FULL_ACCESS: u32 = 0x00F0_0000;

/// Clock control with the external oscillator, the clock security system
/// and the PLL switched off, and every other bit kept.
pub const RCC_CR_WITHOUT_HSE_CSS_PLL: u32 = 0xFEF6_FFFF;

/// Clock control with the bypass of the external oscillator switched off,
/// and every other bit kept.
pub const RCC_CR_WITHOUT_HSE_BYPASS: u32 = 0xFFFB_FFFF;

/// What the PLL configuration register holds after a reset.
pub const RCC_PLLCFGR_AFTER_RESET: u32 = 0x2400_3010;

/// Where a start-up stands.
#[derive(Clone, Copy, Debug, PartialEq, Eq, Structural)]
pub enum InitStage {
    /// Nothing was done yet.
    Start,
    /// The clock tree is back in its reset state, and the clock is being
    /// brought up.
    Clock,
    /// The clock bring-up ended as given, and the vector table is placed.
    Done(ClockOutcome),
}

/// What the loads of the first step returned.
pub struct ResetSeen {
    /// Coprocessor access control, as seen when the floating point unit
    /// was opened.
    pub cpacr: u32,
    /// Clock control, as seen when the internal oscillator was switched on.
    pub hsi_on: u32,
    /// Clock control, as seen when external oscillator, clock security and
    /// PLL were switched off.
    pub off: u32,
    /// Clock control, as seen when the bypass was switched off.
    pub bypass: u32,
}

/// A start-up as contracts see it.
pub struct InitView {
    pub clock: ClockView,
    /// Where the vector table is placed: the base of flash or of RAM.
    pub vector_table: u32,
    pub stage: InitStage,
    pub seen: ResetSeen,
}

impl InitView {
    /// A start-up that has done nothing yet.
    pub open spec fn initial(plan: ClockPlan, vector_table: u32) -> InitView {
        InitView {
            clock: ClockView::initial(plan),
            vector_table,
            stage: InitStage::Start,
            seen: ResetSeen { cpacr: 0, hsi_on: 0, off: 0, bypass: 0 },
        }
    }

    /// The stage fits the stage of the clock bring-up.
    pub open spec fn wf(self) -> bool {
        &&& self.clock.wf()
        &&& match self.stage {
            InitStage::Start => self.clock.stage == ClockStage::Start,
            InitStage::Clock => !(self.clock.stage is Done),
            InitStage::Done(outcome) => self.clock.stage == ClockStage::Done(outcome),
        }
    }

    /// The accesses of the first step: the floating point unit is opened;
    /// the internal oscillator is switched on; the clock configuration is
    /// zeroed; external oscillator, clock security and PLL are switched off;
    /// the PLL configuration gets its reset value; the bypass is switched
    /// off; the clock interrupts are disabled.
    pub open spec fn reset(self) -> Seq<Access> {
        set_bits(SCB_CPACR, self.seen.cpacr, SCB_CPACR_FPU_FULL_ACCESS) + set_bits(
            RCC_CR,
            self.seen.hsi_on,
            RCC_CR_HSION,
        ) + seq![Access::Store { address: RCC_CFGR, value: 0 }] + keep_bits(
            RCC_CR,
            self.seen.off,
            RCC_CR_WITHOUT_HSE_CSS_PLL,
        ) + seq![Access::Store { address: RCC_PLLCFGR, value: RCC_PLLCFGR_AFTER_RESET }]
            + keep_bits(RCC_CR, self.seen.bypass, RCC_CR_WITHOUT_HSE_BYPASS) + seq![
            Access::Store { address: RCC_CIR, value: 0 },
        ]
    }

    /// Every access that the start-up has made, in order.
    pub open spec fn trace(self) -> Seq<Access> {
        match self.stage {
            InitStage::Start => Seq::empty(),
            InitStage::Clock => self.reset() + self.clock.trace(),
            InitStage::Done(_) => (self.reset() + self.clock.trace()).push(
                Access::Store { address: SCB_VTOR, value: self.vector_table },
            ),
        }
    }

    /// The start-up after one more step, in which the loads returned what
    /// `history` shows from position `from` on.
    pub open spec fn next(self, history: Seq<Access>, from: int) -> InitView {
        match self.stage {
            InitStage::Start => InitView {
                stage: InitStage::Clock,
                seen: ResetSeen {
                    cpacr: history[from]->Load_value,
                    hsi_on: history[from + 2]->Load_value,
                    off: history[from + 5]->Load_value,
                    bypass: history[from + 8]->Load_value,
                },
                ..self
            },
            InitStage::Clock => {
                let clock = self.clock.next(history, from);
                InitView {
                    clock,
                    stage: match clock.stage {
                        ClockStage::Done(outcome) => InitStage::Done(outcome),
                        _ => InitStage::Clock,
                    },
                    ..self
                }
            },
            InitStage::Done(_) => self,
        }
    }
}

/// The start-up, as far as it has come.
pub struct SystemInit {
    clock: SysClock,
    vector_table: u32,
    stage: InitStage,
    seen: Ghost<ResetSeen>,
}

impl View for SystemInit {
    type V = InitView;

    closed spec fn view(&self) -> InitView {
        InitView {
            clock: self.clock@,
            vector_table: self.vector_table,
            stage: self.stage,
            seen: self.seen@,
        }
    }
}

impl SystemInit {
    /// A start-up that brings the clock up by `plan` and places the vector
    /// table at `vector_table`, and that has done nothing yet.
    pub fn new(plan: ClockPlan, vector_table: u32) -> (init: SystemInit)
        requires
            plan.valid(),
        ensures
            init@ == InitView::initial(plan, vector_table),
            init@.wf(),
    {
        SystemInit {
            clock: SysClock::new(plan),
            vector_table,
            stage: InitStage::Start,
            seen: Ghost(ResetSeen { cpacr: 0, hsi_on: 0, off: 0, bypass: 0 }),
        }
    }

    pub fn stage(&self) -> (stage: InitStage)
        ensures
            stage == self@.stage,
    {
        self.stage
    }
}

/// One step of the start-up. Call again while the stage that comes back is
/// not `Done`.
///
/// The first step opens the floating point unit and puts the clock tree
/// back to its reset state. Each later step is one step of the clock
/// bring-up; the step in which that ends, however it ends, places the
/// vector table. `Done` does nothing.
pub fn system_init<B: RegisterBus>(bus: &mut Mmio<B>, init: &mut SystemInit) -> (stage: InitStage)
    requires
        old(init)@.wf(),
    ensures
        final(init)@.wf(),
        final(init)@ == old(init)@.next(final(bus).history(), old(bus).history().len() as int),
        old(init)@.trace().is_prefix_of(final(init)@.trace()),
        final(bus).history() == old(bus).history() + final(init)@.trace().skip(
            old(init)@.trace().len() as int,
        ),
        stage == final(init)@.stage,
{
    match init.stage {
        InitStage::Start => init.reset_clock_tree(bus),
        InitStage::Clock => init.advance_clock(bus),
        InitStage::Done(_) => {
            assert(init@.trace().skip(init@.trace().len() as int) =~= Seq::<Access>::empty());
            assert(bus.history() + Seq::<Access>::empty() =~= bus.history());
        },
    }
    init.stage
}

impl SystemInit {
    fn reset_clock_tree<B: RegisterBus>(&mut self, bus: &mut Mmio<B>)
        requires
            old(self)@.wf(),
            old(self)@.stage == InitStage::Start,
        ensures
            final(self)@.wf(),
            final(self)@ == old(self)@.next(final(bus).history(), old(bus).history().len() as int),
            old(self)@.trace().is_prefix_of(final(self)@.trace()),
            final(bus).history() == old(bus).history() + final(self)@.trace().skip(
                old(self)@.trace().len() as int,
            ),
    {
        let ghost history0 = bus.history();
        let ghost from = history0.len();
        let rcc = RccRegs::init();
        let scb = ScbRegs::init();

        // Full access to the floating point unit.
        scb.cpacr.bit_or(bus, SCB_CPACR_FPU_FULL_ACCESS);
        let ghost cpacr = bus.loaded(from);

        // The clock tree goes back to what a reset leaves.
        rcc.cr.bit_or(bus, RCC_CR_HSION);
        let ghost hsi_on = bus.loaded(from + 2);
        rcc.cfgr.set(bus, 0x0000_0000);
        rcc.cr.bit_and(bus, RCC_CR_WITHOUT_HSE_CSS_PLL);
        let ghost off = bus.loaded(from + 5);
        rcc.pllcfgr.set(bus, RCC_PLLCFGR_AFTER_RESET);
        rcc.cr.bit_and(bus, RCC_CR_WITHOUT_HSE_BYPASS);
        let ghost bypass = bus.loaded(from + 8);
        rcc.cir.set(bus, 0x0000_0000);

        self.stage = InitStage::Clock;
        self.seen = Ghost(ResetSeen { cpacr, hsi_on, off, bypass });
        proof {
            let emitted = self@.reset();
            assert(self@.trace() =~= old(self)@.trace() + emitted);
            assert(bus.history() =~= history0 + emitted);
            assert(self@.trace().skip(old(self)@.trace().len() as int) =~= emitted);
        }
    }

    fn advance_clock<B: RegisterBus>(&mut self, bus: &mut Mmio<B>)
        requires
            old(self)@.wf(),
            old(self)@.stage == InitStage::Clock,
        ensures
            final(self)@.wf(),
            final(self)@ == old(self)@.next(final(bus).history(), old(bus).history().len() as int),
            old(self)@.trace().is_prefix_of(final(self)@.trace()),
            final(bus).history() == old(bus).history() + final(self)@.trace().skip(
                old(self)@.trace().len() as int,
            ),
    {
        let ghost history0 = bus.history();
        let ghost from = history0.len() as int;
        let ghost clock0 = self.clock@;
        let stage = set_sys_clock(bus, &mut self.clock);
        let ghost history1 = bus.history();
        let ghost clock1 = self.clock@;
        let ghost grown = clock1.trace().skip(clock0.trace().len() as int);
        proof {
            assert(clock1.trace() =~= clock0.trace() + grown);
        }
        match stage {
            ClockStage::Done(outcome) => {
                let scb = ScbRegs::init();
                scb.vtor.set(bus, self.vector_table);
                self.stage = InitStage::Done(outcome);
                proof {
                    let place = Access::Store { address: SCB_VTOR, value: self.vector_table };
                    let emitted = grown.push(place);
                    lemma_next_reads_what_was_there(clock0, history1, bus.history(), from);
                    assert(self@.trace() =~= old(self)@.trace() + emitted);
                    assert(bus.history() =~= history0 + emitted);
                    assert(self@.trace().skip(old(self)@.trace().len() as int) =~= emitted);
                }
            },
            _ => {
                proof {
                    assert(self@.trace() =~= old(self)@.trace() + grown);
                    assert(self@.trace().skip(old(self)@.trace().len() as int) =~= grown);
                }
            },
        }
    }
}

/// A step of the clock bring-up reads the history only where the step
/// itself wrote it: what is added to the history later does not change
/// what the step was.
proof fn lemma_next_reads_what_was_there(
    clock: ClockView,
    history: Seq<Access>,
    longer: Seq<Access>,
    from: int,
)
    requires
        clock.wf(),
        0 <= from,
        history.is_prefix_of(longer),
        history.len() >= from + clock.next(history, from).trace().len() - clock.trace().len(),
        clock.trace().is_prefix_of(clock.next(history, from).trace()),
    ensures
        clock.next(longer, from) == clock.next(history, from),
{
    let after = clock.next(history, from);
    let grown = after.trace().len() - clock.trace().len();
    assert forall|i: int| 0 <= i < history.len() implies longer[i] == history[i] by {}
    match clock.stage {
        ClockStage::Start => {
            assert(after.trace().len() == 2 + after.seen.hse_polls.len());
        },
        ClockStage::AwaitHse => {
            let first = history[from]->Load_value;
            assert(after.seen.hse_polls.len() == clock.seen.hse_polls.len() + 1);
            if clock.wait.verdict(first) != PollStatus::Pending {
                let check = history[from + 1]->Load_value;
                if check & RCC_CR_HSERDY != 0 {
                    assert(after.pll_setup().len() == 13);
                    assert(after.trace().len() == clock.trace().len() + 15);
                } else {
                    assert(after.trace().len() == clock.trace().len() + 2);
                }
            }
        },
        ClockStage::AwaitPll => {
            let first = history[from]->Load_value;
            assert(after.seen.pll_polls.len() == clock.seen.pll_polls.len() + 1);
            if clock.wait.verdict(first) == PollStatus::Ready {
                assert(after.switch_setup().len() == 5);
                assert(after.trace().len() == clock.trace().len() + 6);
            }
        },
        ClockStage::AwaitSwitch => {
            assert(after.seen.switch_polls.len() == clock.seen.switch_polls.len() + 1);
        },
        ClockStage::Done(_) => {},
    }
}

/// A start-up that ended made the accesses of the first step, then those
/// of the clock bring-up, then the one store that places the vector table,
/// and no others. The clock bring-up ended as the start-up says.
pub proof fn law_startup_order(init: InitView, outcome: ClockOutcome)
    requires
        init.wf(),
        init.stage == InitStage::Done(outcome),
    ensures
        init.clock.wf(),
        init.clock.stage == ClockStage::Done(outcome),
        init.trace() == set_bits(SCB_CPACR, init.seen.cpacr, SCB_CPACR_FPU_FULL_ACCESS) + set_bits(
            RCC_CR,
            init.seen.hsi_on,
            RCC_CR_HSION,
        ) + seq![Access::Store { address: RCC_CFGR, value: 0 }] + keep_bits(
            RCC_CR,
            init.seen.off,
            RCC_CR_WITHOUT_HSE_CSS_PLL,
        ) + seq![Access::Store { address: RCC_PLLCFGR, value: RCC_PLLCFGR_AFTER_RESET }]
            + keep_bits(RCC_CR, init.seen.bypass, RCC_CR_WITHOUT_HSE_BYPASS) + seq![
            Access::Store { address: RCC_CIR, value: 0 },
        ] + init.clock.trace() + seq![
            Access::Store { address: SCB_VTOR, value: init.vector_table },
        ],
{
    assert(init.trace() =~= init.reset() + init.clock.trace() + seq![
        Access::Store { address: SCB_VTOR, value: init.vector_table },
    ]);
}

} // verus!
