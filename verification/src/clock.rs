//! Bringing the system clock up: external oscillator, PLL, flash wait
//! states, clock switch. The order matters, and so does every wait.
//!
//! The sequence is a state machine. One call of [`set_sys_clock`] makes the
//! accesses up to the next poll and returns; the caller calls again while
//! the stage it gets back is not `Done`. A wait whose budget is unbounded is
//! a stage that no number of calls leaves while the hardware is not ready.

use vstd::prelude::*;
use crate::bus::{modify_accesses, Access, Mmio, RegisterBus};
use crate::poll::{polls, PollStatus, PollUntil, WaitBudget};
use crate::stm32f4xx::constants::{FLASH_R_BASE, PWR_BASE, RCC_BASE};
use crate::stm32f4xx::regs::flash::{
    FlashRegs,
    FLASH_ACR_DCEN,
    FLASH_ACR_ICEN,
    FLASH_ACR_LATENCY_5WS,
};
use crate::stm32f4xx::regs::pwr::{PWR_Regs, PWR_CR_VOS};
use crate::stm32f4xx::regs::rcc::{
    RccRegs,
    RCC_APB1ENR_PWREN,
    RCC_CFGR_HPRE_DIV1,
    RCC_CFGR_PPRE1_DIV4,
    RCC_CFGR_PPRE2_DIV2,
    RCC_CFGR_SW,
    RCC_CFGR_SWS,
    RCC_CFGR_SWS_PLL,
    RCC_CFGR_SW_PLL,
    RCC_CR_HSEON,
    RCC_CR_HSERDY,
    RCC_CR_PLLON,
    RCC_CR_PLLRDY,
    RCC_PLLCFGR_PLLSRC_HSE,
};
use crate::volatile_reg32::VolatileReg32;

verus! {

/// Address of the RCC clock control register.
pub const RCC_CR: u32 = RCC_BASE;

/// Address of the RCC PLL configuration register.
pub const RCC_PLLCFGR: u32 = RCC_BASE + 4 * 1;

/// Address of the RCC clock configuration register.
pub const RCC_CFGR: u32 = RCC_BASE + 4 * 2;

/// Address of the RCC APB1 peripheral clock enable register.
pub const RCC_APB1ENR: u32 = RCC_BASE + 4 * 16;

/// Address of the power control register.
pub const PWR_CR: u32 = PWR_BASE;

/// Address of the flash access control register.
pub const FLASH_ACR: u32 = FLASH_R_BASE;

/// How many retries the external oscillator is given to become ready.
pub const HSE_STARTUP_TIMEOUT: u32 = 0x0500;

/// What is stored to the flash access control register: both caches on and
/// five wait states, as the clock of 168 MHz asks at full voltage.
pub const FLASH_ACR_AT_FULL_SPEED: u32 = FLASH_ACR_ICEN | FLASH_ACR_DCEN | FLASH_ACR_LATENCY_5WS;

/// The factors of the PLL and the budget of each wait.
#[derive(Clone, Copy, Debug, PartialEq, Eq, Structural)]
pub struct ClockPlan {
    /// Divider of the PLL input, 6 bits.
    pub pll_m: u32,
    /// Multiplier of the PLL, 9 bits.
    pub pll_n: u32,
    /// Divider of the system clock output: 2, 4, 6 or 8.
    pub pll_p: u32,
    /// Divider of the USB, SDIO and RNG clock output, 4 bits.
    pub pll_q: u32,
    /// How long to wait for the external oscillator.
    pub hse_wait: WaitBudget,
    /// How long to wait for the PLL to lock.
    pub pll_wait: WaitBudget,
    /// How long to wait for the clock switch.
    pub switch_wait: WaitBudget,
}

impl ClockPlan {
    /// Each factor fits the field that holds it.
    pub open spec fn valid(self) -> bool {
        &&& self.pll_m <= 0x3F
        &&& self.pll_n <= 0x1FF
        &&& (self.pll_p == 2 || self.pll_p == 4 || self.pll_p == 6 || self.pll_p == 8)
        &&& self.pll_q <= 0xF
    }

    /// The word for the PLL configuration register: M from bit 0, N from
    /// bit 6, P, as half of it less one, from bit 16, the external
    /// oscillator as source in bit 22, Q from bit 24.
    pub open spec fn word(self) -> u32 {
        self.pll_m | (self.pll_n << 6) | ((((self.pll_p >> 1) - 1) as u32) << 16)
            | RCC_PLLCFGR_PLLSRC_HSE | (self.pll_q << 24)
    }

    /// The plan for 168 MHz from a crystal of 8 MHz. The external oscillator
    /// gets `HSE_STARTUP_TIMEOUT` retries; the other two waits never give up.
    pub fn standard() -> (plan: ClockPlan)
        ensures
            plan == (ClockPlan {
                pll_m: 8,
                pll_n: 336,
                pll_p: 2,
                pll_q: 7,
                hse_wait: WaitBudget::Bounded(HSE_STARTUP_TIMEOUT),
                pll_wait: WaitBudget::Unbounded,
                switch_wait: WaitBudget::Unbounded,
            }),
            plan.valid(),
    {
        ClockPlan {
            pll_m: 8,
            pll_n: 336,
            pll_p: 2,
            pll_q: 7,
            hse_wait: WaitBudget::Bounded(HSE_STARTUP_TIMEOUT),
            pll_wait: WaitBudget::Unbounded,
            switch_wait: WaitBudget::Unbounded,
        }
    }

    /// The plan with these factors and the waits of the standard plan, if
    /// each factor fits its field.
    pub fn new(pll_m: u32, pll_n: u32, pll_p: u32, pll_q: u32) -> (plan: Option<ClockPlan>)
        ensures
            plan == if (ClockPlan { pll_m, pll_n, pll_p, pll_q, ..Self::standard_budgets() }).valid() {
                Some(ClockPlan { pll_m, pll_n, pll_p, pll_q, ..Self::standard_budgets() })
            } else {
                None
            },
    {
        let plan = ClockPlan {
            pll_m,
            pll_n,
            pll_p,
            pll_q,
            hse_wait: WaitBudget::Bounded(HSE_STARTUP_TIMEOUT),
            pll_wait: WaitBudget::Unbounded,
            switch_wait: WaitBudget::Unbounded,
        };
        if plan.is_valid() {
            Some(plan)
        } else {
            None
        }
    }

    /// A plan that holds the waits of the standard plan.
    pub open spec fn standard_budgets() -> ClockPlan {
        ClockPlan {
            pll_m: 0,
            pll_n: 0,
            pll_p: 0,
            pll_q: 0,
            hse_wait: WaitBudget::Bounded(HSE_STARTUP_TIMEOUT),
            pll_wait: WaitBudget::Unbounded,
            switch_wait: WaitBudget::Unbounded,
        }
    }

    pub fn is_valid(&self) -> (valid: bool)
        ensures
            valid == self.valid(),
    {
        self.pll_m <= 0x3F && self.pll_n <= 0x1FF && (self.pll_p == 2 || self.pll_p == 4
            || self.pll_p == 6 || self.pll_p == 8) && self.pll_q <= 0xF
    }

    /// The word for the PLL configuration register.
    pub fn pll_word(&self) -> (word: u32)
        requires
            self.valid(),
        ensures
            word == self.word(),
    {
        let p: u32 = self.pll_p;
        assert(p == 2 || p == 4 || p == 6 || p == 8 ==> (p >> 1) >= 1) by (bit_vector);
        self.pll_m | (self.pll_n << 6) | (((self.pll_p >> 1) - 1) << 16) | RCC_PLLCFGR_PLLSRC_HSE
            | (self.pll_q << 24)
    }
}

/// Each factor of a valid plan is read back from its field of the word, and
/// the word names the external oscillator as the source.
pub proof fn law_word_holds_the_factors(plan: ClockPlan)
    requires
        plan.valid(),
    ensures
        plan.word() & 0x3F == plan.pll_m,
        (plan.word() >> 6) & 0x1FF == plan.pll_n,
        (plan.word() >> 16) & 0x3 == plan.pll_p / 2 - 1,
        (plan.word() >> 22) & 0x1 == 1,
        (plan.word() >> 24) & 0xF == plan.pll_q,
{
    let m = plan.pll_m;
    let n = plan.pll_n;
    let p = plan.pll_p;
    let q = plan.pll_q;
    let half: u32 = (((p >> 1) - 1) as u32);
    assert(p == 2 || p == 4 || p == 6 || p == 8 ==> ((p >> 1) - 1) as u32 == p / 2 - 1 && ((p >> 1)
        - 1) as u32 <= 3) by (bit_vector);
    let word = m | (n << 6) | (half << 16) | 0x00400000u32 | (q << 24);
    assert(m <= 0x3F && n <= 0x1FF && half <= 3 && q <= 0xF ==> {
        &&& (m | (n << 6) | (half << 16) | 0x00400000u32 | (q << 24)) & 0x3F == m
        &&& ((m | (n << 6) | (half << 16) | 0x00400000u32 | (q << 24)) >> 6) & 0x1FF == n
        &&& ((m | (n << 6) | (half << 16) | 0x00400000u32 | (q << 24)) >> 16) & 0x3 == half
        &&& ((m | (n << 6) | (half << 16) | 0x00400000u32 | (q << 24)) >> 22) & 0x1 == 1
        &&& ((m | (n << 6) | (half << 16) | 0x00400000u32 | (q << 24)) >> 24) & 0xF == q
    }) by (bit_vector);
}

/// The word of the standard plan.
pub proof fn law_standard_word()
    ensures
        (ClockPlan {
            pll_m: 8,
            pll_n: 336,
            pll_p: 2,
            pll_q: 7,
            ..ClockPlan::standard_budgets()
        }).word() == 0x0740_5408,
{
    assert(8u32 | (336u32 << 6) | ((((2u32 >> 1) - 1) as u32) << 16) | 0x00400000u32 | (7u32 << 24)
        == 0x0740_5408) by (bit_vector);
}

/// How a bring-up ended.
#[derive(Clone, Copy, Debug, PartialEq, Eq, Structural)]
pub enum ClockOutcome {
    /// The system runs on the PLL.
    Pll,
    /// The external oscillator did not become ready. Nothing was configured
    /// after the wait: the system runs on the internal oscillator, at a
    /// frequency that no prescaler or wait state was chosen for.
    HseNotReady,
    /// The PLL did not lock within its budget. The system runs on the
    /// internal oscillator, with the prescalers chosen for the PLL.
    PllNotReady,
    /// The switch to the PLL was asked for and not seen within its budget.
    SwitchNotDone,
}

/// Where a bring-up stands.
#[derive(Clone, Copy, Debug, PartialEq, Eq, Structural)]
pub enum ClockStage {
    /// Nothing was done yet.
    Start,
    /// The external oscillator is on, and polled for being ready.
    AwaitHse,
    /// Voltage, prescalers and PLL are set, the PLL is on, and polled for
    /// its lock.
    AwaitPll,
    /// Flash is set, the switch is asked for, and polled for.
    AwaitSwitch,
    /// The bring-up ended.
    Done(ClockOutcome),
}

/// What the loads of a bring-up returned, as far as it has come.
pub struct ClockSeen {
    /// Clock control, as seen when the external oscillator was switched on.
    pub hse_on: u32,
    /// Clock control, as seen by each poll for the external oscillator.
    pub hse_polls: Seq<u32>,
    /// Clock control, as seen by the load that decides whether the
    /// external oscillator is ready.
    pub hse_check: u32,
    /// APB1 enable, as seen when the power interface clock was enabled.
    pub pwr_en: u32,
    /// Power control, as seen when the voltage scale was set.
    pub vos: u32,
    /// Clock configuration, as seen when the AHB prescaler was set.
    pub hpre: u32,
    /// Clock configuration, as seen when the APB2 prescaler was set.
    pub ppre2: u32,
    /// Clock configuration, as seen when the APB1 prescaler was set.
    pub ppre1: u32,
    /// Clock control, as seen when the PLL was switched on.
    pub pll_on: u32,
    /// Clock control, as seen by each poll for the PLL.
    pub pll_polls: Seq<u32>,
    /// Clock configuration, as seen when the clock source was cleared.
    pub sw_clear: u32,
    /// Clock configuration, as seen when the PLL was selected.
    pub sw_set: u32,
    /// Clock configuration, as seen by each poll for the switch.
    pub switch_polls: Seq<u32>,
}

/// The wait for the external oscillator, before its first poll.
pub open spec fn hse_wait_of(plan: ClockPlan) -> PollUntil {
    PollUntil::fresh(VolatileReg32::at(RCC_CR), RCC_CR_HSERDY, RCC_CR_HSERDY, plan.hse_wait)
}

/// The wait for the PLL, before its first poll.
pub open spec fn pll_wait_of(plan: ClockPlan) -> PollUntil {
    PollUntil::fresh(VolatileReg32::at(RCC_CR), RCC_CR_PLLRDY, RCC_CR_PLLRDY, plan.pll_wait)
}

/// The wait for the clock switch, before its first poll.
pub open spec fn switch_wait_of(plan: ClockPlan) -> PollUntil {
    PollUntil::fresh(VolatileReg32::at(RCC_CFGR), RCC_CFGR_SWS, RCC_CFGR_SWS_PLL, plan.switch_wait)
}

/// A wait that goes on: every poll so far missed, and the budget is not
/// overdrawn.
pub open spec fn waiting(wait: PollUntil, fresh: PollUntil, seen: Seq<u32>) -> bool {
    &&& wait == PollUntil { retries: wait.retries, ..fresh }
    &&& forall|i: int| 0 <= i < seen.len() ==> !fresh.hit(#[trigger] seen[i])
    &&& match fresh.budget {
        WaitBudget::Bounded(limit) => wait.retries == seen.len() && seen.len() <= limit,
        WaitBudget::Unbounded => wait.retries == 0,
    }
}

/// A wait that ended: every poll but the last missed, and the last one hit
/// or was the one after the last retry that the budget allows.
pub open spec fn finished(fresh: PollUntil, seen: Seq<u32>) -> bool {
    &&& seen.len() >= 1
    &&& forall|i: int| 0 <= i < seen.len() - 1 ==> !fresh.hit(#[trigger] seen[i])
    &&& (fresh.hit(seen.last()) || fresh.budget == WaitBudget::Bounded((seen.len() - 1) as u32))
    &&& fresh.budget matches WaitBudget::Bounded(limit) ==> seen.len() <= limit + 1
}

/// A read-modify-write that sets the bits of `mask`.
pub open spec fn set_bits(address: u32, seen: u32, mask: u32) -> Seq<Access> {
    modify_accesses(address, seen, seen | mask)
}

/// A read-modify-write that keeps the bits of `mask` and clears the others.
pub open spec fn keep_bits(address: u32, seen: u32, mask: u32) -> Seq<Access> {
    modify_accesses(address, seen, seen & mask)
}

/// A bring-up as contracts see it.
pub struct ClockView {
    pub plan: ClockPlan,
    pub stage: ClockStage,
    /// The wait of the current stage. It means nothing in a stage that
    /// does not wait.
    pub wait: PollUntil,
    pub seen: ClockSeen,
}

impl ClockView {
    /// A bring-up that has done nothing yet.
    pub open spec fn initial(plan: ClockPlan) -> ClockView {
        ClockView {
            plan,
            stage: ClockStage::Start,
            wait: hse_wait_of(plan),
            seen: ClockSeen {
                hse_on: 0,
                hse_polls: Seq::empty(),
                hse_check: 0,
                pwr_en: 0,
                vos: 0,
                hpre: 0,
                ppre2: 0,
                ppre1: 0,
                pll_on: 0,
                pll_polls: Seq::empty(),
                sw_clear: 0,
                sw_set: 0,
                switch_polls: Seq::empty(),
            },
        }
    }

    /// The external oscillator was found ready.
    pub open spec fn hse_passed(self) -> bool {
        &&& finished(hse_wait_of(self.plan), self.seen.hse_polls)
        &&& self.seen.hse_check & RCC_CR_HSERDY != 0
    }

    /// The PLL was found locked.
    pub open spec fn pll_passed(self) -> bool {
        &&& finished(pll_wait_of(self.plan), self.seen.pll_polls)
        &&& pll_wait_of(self.plan).hit(self.seen.pll_polls.last())
    }

    /// The stage fits what was seen: a stage is reached only through the
    /// waits before it, each ended as the stage says.
    pub open spec fn wf(self) -> bool {
        &&& self.plan.valid()
        &&& match self.stage {
            ClockStage::Start => true,
            ClockStage::AwaitHse => waiting(
                self.wait,
                hse_wait_of(self.plan),
                self.seen.hse_polls,
            ),
            ClockStage::Done(ClockOutcome::HseNotReady) => {
                &&& finished(hse_wait_of(self.plan), self.seen.hse_polls)
                &&& self.seen.hse_check & RCC_CR_HSERDY == 0
            },
            ClockStage::AwaitPll => {
                &&& self.hse_passed()
                &&& waiting(self.wait, pll_wait_of(self.plan), self.seen.pll_polls)
            },
            ClockStage::Done(ClockOutcome::PllNotReady) => {
                &&& self.hse_passed()
                &&& finished(pll_wait_of(self.plan), self.seen.pll_polls)
                &&& !pll_wait_of(self.plan).hit(self.seen.pll_polls.last())
            },
            ClockStage::AwaitSwitch => {
                &&& self.hse_passed()
                &&& self.pll_passed()
                &&& waiting(self.wait, switch_wait_of(self.plan), self.seen.switch_polls)
            },
            ClockStage::Done(ClockOutcome::SwitchNotDone) => {
                &&& self.hse_passed()
                &&& self.pll_passed()
                &&& finished(switch_wait_of(self.plan), self.seen.switch_polls)
                &&& !switch_wait_of(self.plan).hit(self.seen.switch_polls.last())
            },
            ClockStage::Done(ClockOutcome::Pll) => {
                &&& self.hse_passed()
                &&& self.pll_passed()
                &&& finished(switch_wait_of(self.plan), self.seen.switch_polls)
                &&& switch_wait_of(self.plan).hit(self.seen.switch_polls.last())
            },
        }
    }

    /// The accesses up to the end of the wait for the external oscillator:
    /// the oscillator is switched on, then polled.
    pub open spec fn hse_started(self) -> Seq<Access> {
        set_bits(RCC_CR, self.seen.hse_on, RCC_CR_HSEON) + polls(RCC_CR, self.seen.hse_polls)
    }

    /// The accesses up to the load that decides whether the external
    /// oscillator is ready.
    pub open spec fn hse_checked(self) -> Seq<Access> {
        self.hse_started().push(Access::Load { address: RCC_CR, value: self.seen.hse_check })
    }

    /// What is done between the two waits: the power interface is clocked,
    /// the voltage scale set, the three prescalers set, the PLL configured
    /// and then switched on.
    pub open spec fn pll_setup(self) -> Seq<Access> {
        set_bits(RCC_APB1ENR, self.seen.pwr_en, RCC_APB1ENR_PWREN) + set_bits(
            PWR_CR,
            self.seen.vos,
            PWR_CR_VOS,
        ) + set_bits(RCC_CFGR, self.seen.hpre, RCC_CFGR_HPRE_DIV1) + set_bits(
            RCC_CFGR,
            self.seen.ppre2,
            RCC_CFGR_PPRE2_DIV2,
        ) + set_bits(RCC_CFGR, self.seen.ppre1, RCC_CFGR_PPRE1_DIV4) + seq![
            Access::Store { address: RCC_PLLCFGR, value: self.plan.word() },
        ] + set_bits(RCC_CR, self.seen.pll_on, RCC_CR_PLLON)
    }

    /// The accesses up to the end of the wait for the PLL.
    pub open spec fn pll_started(self) -> Seq<Access> {
        self.hse_checked() + self.pll_setup() + polls(RCC_CR, self.seen.pll_polls)
    }

    /// What is done once the PLL is locked: flash gets its caches and wait
    /// states, then the clock source is cleared and set to the PLL.
    pub open spec fn switch_setup(self) -> Seq<Access> {
        seq![Access::Store { address: FLASH_ACR, value: FLASH_ACR_AT_FULL_SPEED }] + keep_bits(
            RCC_CFGR,
            self.seen.sw_clear,
            !RCC_CFGR_SW,
        ) + set_bits(RCC_CFGR, self.seen.sw_set, RCC_CFGR_SW_PLL)
    }

    /// The accesses up to the end of the wait for the clock switch.
    pub open spec fn switched(self) -> Seq<Access> {
        self.pll_started() + self.switch_setup() + polls(RCC_CFGR, self.seen.switch_polls)
    }

    /// Every access that the bring-up has made, in order.
    pub open spec fn trace(self) -> Seq<Access> {
        match self.stage {
            ClockStage::Start => Seq::empty(),
            ClockStage::AwaitHse => self.hse_started(),
            ClockStage::Done(ClockOutcome::HseNotReady) => self.hse_checked(),
            ClockStage::AwaitPll | ClockStage::Done(ClockOutcome::PllNotReady) => self.pll_started(),
            ClockStage::AwaitSwitch
            | ClockStage::Done(ClockOutcome::SwitchNotDone)
            | ClockStage::Done(ClockOutcome::Pll) => self.switched(),
        }
    }

    /// The bring-up after one more step, in which the loads returned what
    /// `history` shows from position `from` on.
    pub open spec fn next(self, history: Seq<Access>, from: int) -> ClockView {
        let first = history[from]->Load_value;
        match self.stage {
            ClockStage::Start => ClockView {
                stage: ClockStage::AwaitHse,
                wait: hse_wait_of(self.plan),
                seen: ClockSeen { hse_on: first, hse_polls: Seq::empty(), ..self.seen },
                ..self
            },
            ClockStage::AwaitHse => {
                let seen = ClockSeen { hse_polls: self.seen.hse_polls.push(first), ..self.seen };
                if self.wait.verdict(first) == PollStatus::Pending {
                    ClockView { wait: self.wait.advanced(first), seen, ..self }
                } else {
                    let check = history[from + 1]->Load_value;
                    if check & RCC_CR_HSERDY != 0 {
                        ClockView {
                            stage: ClockStage::AwaitPll,
                            wait: pll_wait_of(self.plan),
                            seen: ClockSeen {
                                hse_check: check,
                                pwr_en: history[from + 2]->Load_value,
                                vos: history[from + 4]->Load_value,
                                hpre: history[from + 6]->Load_value,
                                ppre2: history[from + 8]->Load_value,
                                ppre1: history[from + 10]->Load_value,
                                pll_on: history[from + 13]->Load_value,
                                pll_polls: Seq::empty(),
                                ..seen
                            },
                            ..self
                        }
                    } else {
                        ClockView {
                            stage: ClockStage::Done(ClockOutcome::HseNotReady),
                            seen: ClockSeen { hse_check: check, ..seen },
                            ..self
                        }
                    }
                }
            },
            ClockStage::AwaitPll => {
                let seen = ClockSeen { pll_polls: self.seen.pll_polls.push(first), ..self.seen };
                match self.wait.verdict(first) {
                    PollStatus::Pending => ClockView {
                        wait: self.wait.advanced(first),
                        seen,
                        ..self
                    },
                    PollStatus::TimedOut => ClockView {
                        stage: ClockStage::Done(ClockOutcome::PllNotReady),
                        seen,
                        ..self
                    },
                    PollStatus::Ready => ClockView {
                        stage: ClockStage::AwaitSwitch,
                        wait: switch_wait_of(self.plan),
                        seen: ClockSeen {
                            sw_clear: history[from + 2]->Load_value,
                            sw_set: history[from + 4]->Load_value,
                            switch_polls: Seq::empty(),
                            ..seen
                        },
                        ..self
                    },
                }
            },
            ClockStage::AwaitSwitch => {
                let seen = ClockSeen {
                    switch_polls: self.seen.switch_polls.push(first),
                    ..self.seen
                };
                match self.wait.verdict(first) {
                    PollStatus::Pending => ClockView {
                        wait: self.wait.advanced(first),
                        seen,
                        ..self
                    },
                    PollStatus::TimedOut => ClockView {
                        stage: ClockStage::Done(ClockOutcome::SwitchNotDone),
                        seen,
                        ..self
                    },
                    PollStatus::Ready => ClockView {
                        stage: ClockStage::Done(ClockOutcome::Pll),
                        seen,
                        ..self
                    },
                }
            },
            ClockStage::Done(_) => self,
        }
    }
}

/// The bring-up of the system clock, as far as it has come.
pub struct SysClock {
    plan: ClockPlan,
    stage: ClockStage,
    wait: PollUntil,
    seen: Ghost<ClockSeen>,
}

impl View for SysClock {
    type V = ClockView;

    closed spec fn view(&self) -> ClockView {
        ClockView { plan: self.plan, stage: self.stage, wait: self.wait, seen: self.seen@ }
    }
}

impl SysClock {
    /// A bring-up that follows `plan` and has done nothing yet.
    pub fn new(plan: ClockPlan) -> (clock: SysClock)
        requires
            plan.valid(),
        ensures
            clock@ == ClockView::initial(plan),
            clock@.wf(),
    {
        let rcc = RccRegs::init();
        proof {
            rcc.cr.lemma_one_for_each_address();
        }
        SysClock {
            plan,
            stage: ClockStage::Start,
            wait: PollUntil::new(rcc.cr, RCC_CR_HSERDY, RCC_CR_HSERDY, plan.hse_wait),
            seen: Ghost(ClockView::initial(plan).seen),
        }
    }

    pub fn stage(&self) -> (stage: ClockStage)
        ensures
            stage == self@.stage,
    {
        self.stage
    }

    pub fn plan(&self) -> (plan: ClockPlan)
        ensures
            plan == self@.plan,
    {
        self.plan
    }
}

/// One step of the bring-up: the accesses up to and with the next poll.
/// Call again while the stage that comes back is not `Done`.
///
/// The stage `Start` switches the external oscillator on. Each stage that
/// waits polls once; when its wait has ended, the same step does what
/// follows the wait, up to the next wait. `Done` does nothing.
pub fn set_sys_clock<B: RegisterBus>(bus: &mut Mmio<B>, clock: &mut SysClock) -> (stage:
    ClockStage)
    requires
        old(clock)@.wf(),
    ensures
        final(clock)@.wf(),
        final(clock)@ == old(clock)@.next(final(bus).history(), old(bus).history().len() as int),
        old(clock)@.trace().is_prefix_of(final(clock)@.trace()),
        final(bus).history() == old(bus).history() + final(clock)@.trace().skip(
            old(clock)@.trace().len() as int,
        ),
        stage == final(clock)@.stage,
{
    match clock.stage {
        ClockStage::Start => clock.start_hse(bus),
        ClockStage::AwaitHse => clock.poll_hse(bus),
        ClockStage::AwaitPll => clock.poll_pll(bus),
        ClockStage::AwaitSwitch => clock.poll_switch(bus),
        ClockStage::Done(_) => {
            assert(clock@.trace().skip(clock@.trace().len() as int) =~= Seq::<Access>::empty());
            assert(bus.history() + Seq::<Access>::empty() =~= bus.history());
        },
    }
    clock.stage
}

/// Both runs grew by the same accesses: the second is then a prefix of
/// what it became, and the first grew by what was added to the second.
proof fn lemma_grown(
    history0: Seq<Access>,
    history1: Seq<Access>,
    trace0: Seq<Access>,
    trace1: Seq<Access>,
    emitted: Seq<Access>,
)
    requires
        history1 == history0 + emitted,
        trace1 == trace0 + emitted,
    ensures
        trace0.is_prefix_of(trace1),
        history1 == history0 + trace1.skip(trace0.len() as int),
{
    assert(trace1.skip(trace0.len() as int) =~= emitted);
}

/// One more poll is one more load at the end.
proof fn lemma_one_more_poll(address: u32, seen: Seq<u32>, value: u32)
    ensures
        polls(address, seen.push(value)) == polls(address, seen).push(
            Access::Load { address, value },
        ),
{
    assert(polls(address, seen.push(value)) =~= polls(address, seen).push(
        Access::Load { address, value },
    ));
}

impl SysClock {
    fn start_hse<B: RegisterBus>(&mut self, bus: &mut Mmio<B>)
        requires
            old(self)@.wf(),
            old(self)@.stage == ClockStage::Start,
        ensures
            final(self)@.wf(),
            final(self)@ == old(self)@.next(final(bus).history(), old(bus).history().len() as int),
            old(self)@.trace().is_prefix_of(final(self)@.trace()),
            final(bus).history() == old(bus).history() + final(self)@.trace().skip(
                old(self)@.trace().len() as int,
            ),
    {
        let ghost history0 = bus.history();
        let rcc = RccRegs::init();
        proof {
            rcc.cr.lemma_one_for_each_address();
        }
        rcc.cr.bit_or(bus, RCC_CR_HSEON);
        let ghost first = bus.loaded(history0.len());
        self.wait = PollUntil::new(rcc.cr, RCC_CR_HSERDY, RCC_CR_HSERDY, self.plan.hse_wait);
        self.stage = ClockStage::AwaitHse;
        self.seen = Ghost(ClockSeen { hse_on: first, hse_polls: Seq::empty(), ..self.seen@ });
        proof {
            let emitted = set_bits(RCC_CR, first, RCC_CR_HSEON);
            assert(polls(RCC_CR, Seq::<u32>::empty()) =~= Seq::<Access>::empty());
            assert(self@.trace() =~= old(self)@.trace() + emitted);
            lemma_grown(history0, bus.history(), old(self)@.trace(), self@.trace(), emitted);
        }
    }

    fn poll_hse<B: RegisterBus>(&mut self, bus: &mut Mmio<B>)
        requires
            old(self)@.wf(),
            old(self)@.stage == ClockStage::AwaitHse,
        ensures
            final(self)@.wf(),
            final(self)@ == old(self)@.next(final(bus).history(), old(bus).history().len() as int),
            old(self)@.trace().is_prefix_of(final(self)@.trace()),
            final(bus).history() == old(bus).history() + final(self)@.trace().skip(
                old(self)@.trace().len() as int,
            ),
    {
        let ghost history0 = bus.history();
        let ghost from = history0.len();
        let rcc = RccRegs::init();
        proof {
            rcc.cr.lemma_one_for_each_address();
        }
        let status = self.wait.poll(bus);
        let ghost first = bus.loaded(from);
        let ghost seen = ClockSeen { hse_polls: self.seen@.hse_polls.push(first), ..self.seen@ };
        let ghost poll = Access::Load { address: RCC_CR, value: first };
        proof {
            lemma_one_more_poll(RCC_CR, self.seen@.hse_polls, first);
        }
        match status {
            PollStatus::Pending => {
                self.seen = Ghost(seen);
                proof {
                    let emitted = seq![poll];
                    assert(self@.trace() =~= old(self)@.trace() + emitted);
                    assert(bus.history() =~= history0 + emitted);
                    lemma_grown(history0, bus.history(), old(self)@.trace(), self@.trace(), emitted);
                }
            },
            _ => {
                let check: u32 = rcc.cr.get(bus);
                let ghost decide = Access::Load { address: RCC_CR, value: check };
                assert(finished(hse_wait_of(self.plan), seen.hse_polls));
                if check & RCC_CR_HSERDY != 0 {
                    let pwr = PWR_Regs::init();
                    // Regulator voltage output scale 1, for a system clock up to 168 MHz.
                    rcc.apb1enr.bit_or(bus, RCC_APB1ENR_PWREN);
                    let ghost pwr_en = bus.loaded(from + 2);
                    pwr.cr.bit_or(bus, PWR_CR_VOS);
                    let ghost vos = bus.loaded(from + 4);
                    // HCLK = SYSCLK / 1
                    rcc.cfgr.bit_or(bus, RCC_CFGR_HPRE_DIV1);
                    let ghost hpre = bus.loaded(from + 6);
                    // PCLK2 = HCLK / 2
                    rcc.cfgr.bit_or(bus, RCC_CFGR_PPRE2_DIV2);
                    let ghost ppre2 = bus.loaded(from + 8);
                    // PCLK1 = HCLK / 4
                    rcc.cfgr.bit_or(bus, RCC_CFGR_PPRE1_DIV4);
                    let ghost ppre1 = bus.loaded(from + 10);
                    rcc.pllcfgr.set(bus, self.plan.pll_word());
                    rcc.cr.bit_or(bus, RCC_CR_PLLON);
                    let ghost pll_on = bus.loaded(from + 13);
                    self.wait = PollUntil::new(
                        rcc.cr,
                        RCC_CR_PLLRDY,
                        RCC_CR_PLLRDY,
                        self.plan.pll_wait,
                    );
                    self.stage = ClockStage::AwaitPll;
                    self.seen = Ghost(
                        ClockSeen {
                            hse_check: check,
                            pwr_en,
                            vos,
                            hpre,
                            ppre2,
                            ppre1,
                            pll_on,
                            pll_polls: Seq::empty(),
                            ..seen
                        },
                    );
                    proof {
                        let emitted = seq![poll, decide] + self@.pll_setup();
                        assert(polls(RCC_CR, Seq::<u32>::empty()) =~= Seq::<Access>::empty());
                        assert(self@.trace() =~= old(self)@.trace() + emitted);
                        assert(bus.history() =~= history0 + emitted);
                        lemma_grown(
                            history0,
                            bus.history(),
                            old(self)@.trace(),
                            self@.trace(),
                            emitted,
                        );
                    }
                } else {
                    // The external oscillator did not start. Nothing more is
                    // configured: the clock stays as the reset left it.
                    self.stage = ClockStage::Done(ClockOutcome::HseNotReady);
                    self.seen = Ghost(ClockSeen { hse_check: check, ..seen });
                    proof {
                        let emitted = seq![poll, decide];
                        assert(self@.trace() =~= old(self)@.trace() + emitted);
                        assert(bus.history() =~= history0 + emitted);
                        lemma_grown(
                            history0,
                            bus.history(),
                            old(self)@.trace(),
                            self@.trace(),
                            emitted,
                        );
                    }
                }
            },
        }
    }

    fn poll_pll<B: RegisterBus>(&mut self, bus: &mut Mmio<B>)
        requires
            old(self)@.wf(),
            old(self)@.stage == ClockStage::AwaitPll,
        ensures
            final(self)@.wf(),
            final(self)@ == old(self)@.next(final(bus).history(), old(bus).history().len() as int),
            old(self)@.trace().is_prefix_of(final(self)@.trace()),
            final(bus).history() == old(bus).history() + final(self)@.trace().skip(
                old(self)@.trace().len() as int,
            ),
    {
        let ghost history0 = bus.history();
        let ghost from = history0.len();
        let status = self.wait.poll(bus);
        let ghost first = bus.loaded(from);
        let ghost seen = ClockSeen { pll_polls: self.seen@.pll_polls.push(first), ..self.seen@ };
        let ghost poll = Access::Load { address: RCC_CR, value: first };
        proof {
            VolatileReg32::at(RCC_CR).lemma_one_for_each_address();
            lemma_one_more_poll(RCC_CR, self.seen@.pll_polls, first);
        }
        match status {
            PollStatus::Pending => {
                self.seen = Ghost(seen);
                proof {
                    let emitted = seq![poll];
                    assert(self@.trace() =~= old(self)@.trace() + emitted);
                    assert(bus.history() =~= history0 + emitted);
                    lemma_grown(history0, bus.history(), old(self)@.trace(), self@.trace(), emitted);
                }
            },
            PollStatus::TimedOut => {
                self.stage = ClockStage::Done(ClockOutcome::PllNotReady);
                self.seen = Ghost(seen);
                proof {
                    let emitted = seq![poll];
                    assert(self@.trace() =~= old(self)@.trace() + emitted);
                    assert(bus.history() =~= history0 + emitted);
                    lemma_grown(history0, bus.history(), old(self)@.trace(), self@.trace(), emitted);
                }
            },
            PollStatus::Ready => {
                let rcc = RccRegs::init();
                let flash = FlashRegs::init();
                proof {
                    rcc.cfgr.lemma_one_for_each_address();
                }
                // Instruction cache, data cache and wait states.
                flash.acr.set(bus, FLASH_ACR_AT_FULL_SPEED);
                // The PLL becomes the source of the system clock.
                rcc.cfgr.bit_and(bus, !RCC_CFGR_SW);
                let ghost sw_clear = bus.loaded(from + 2);
                rcc.cfgr.bit_or(bus, RCC_CFGR_SW_PLL);
                let ghost sw_set = bus.loaded(from + 4);
                self.wait = PollUntil::new(
                    rcc.cfgr,
                    RCC_CFGR_SWS,
                    RCC_CFGR_SWS_PLL,
                    self.plan.switch_wait,
                );
                self.stage = ClockStage::AwaitSwitch;
                self.seen = Ghost(
                    ClockSeen { sw_clear, sw_set, switch_polls: Seq::empty(), ..seen },
                );
                proof {
                    let emitted = seq![poll] + self@.switch_setup();
                    assert(polls(RCC_CFGR, Seq::<u32>::empty()) =~= Seq::<Access>::empty());
                    assert(self@.trace() =~= old(self)@.trace() + emitted);
                    assert(bus.history() =~= history0 + emitted);
                    lemma_grown(history0, bus.history(), old(self)@.trace(), self@.trace(), emitted);
                }
            },
        }
    }

    fn poll_switch<B: RegisterBus>(&mut self, bus: &mut Mmio<B>)
        requires
            old(self)@.wf(),
            old(self)@.stage == ClockStage::AwaitSwitch,
        ensures
            final(self)@.wf(),
            final(self)@ == old(self)@.next(final(bus).history(), old(bus).history().len() as int),
            old(self)@.trace().is_prefix_of(final(self)@.trace()),
            final(bus).history() == old(bus).history() + final(self)@.trace().skip(
                old(self)@.trace().len() as int,
            ),
    {
        let ghost history0 = bus.history();
        let ghost from = history0.len();
        let status = self.wait.poll(bus);
        let ghost first = bus.loaded(from);
        let ghost seen = ClockSeen {
            switch_polls: self.seen@.switch_polls.push(first),
            ..self.seen@
        };
        let ghost poll = Access::Load { address: RCC_CFGR, value: first };
        proof {
            VolatileReg32::at(RCC_CFGR).lemma_one_for_each_address();
            lemma_one_more_poll(RCC_CFGR, self.seen@.switch_polls, first);
        }
        match status {
            PollStatus::Pending => {},
            PollStatus::TimedOut => {
                self.stage = ClockStage::Done(ClockOutcome::SwitchNotDone);
            },
            PollStatus::Ready => {
                self.stage = ClockStage::Done(ClockOutcome::Pll);
            },
        }
        self.seen = Ghost(seen);
        proof {
            let emitted = seq![poll];
            assert(self@.trace() =~= old(self)@.trace() + emitted);
            assert(bus.history() =~= history0 + emitted);
            lemma_grown(history0, bus.history(), old(self)@.trace(), self@.trace(), emitted);
        }
    }
}

/// A bring-up that ended on the PLL made these accesses, in this order, and
/// no others: the external oscillator is switched on and polled until it
/// is ready; power, prescalers and PLL factors are set before the PLL is
/// switched on; the PLL is polled until it is locked; flash is set before
/// the clock source is switched; the switch is polled until it is seen.
pub proof fn law_order_on_pll(clock: ClockView)
    requires
        clock.wf(),
        clock.stage == ClockStage::Done(ClockOutcome::Pll),
    ensures
        clock.trace() == set_bits(RCC_CR, clock.seen.hse_on, RCC_CR_HSEON) + polls(
            RCC_CR,
            clock.seen.hse_polls,
        ) + seq![Access::Load { address: RCC_CR, value: clock.seen.hse_check }] + set_bits(
            RCC_APB1ENR,
            clock.seen.pwr_en,
            RCC_APB1ENR_PWREN,
        ) + set_bits(PWR_CR, clock.seen.vos, PWR_CR_VOS) + set_bits(
            RCC_CFGR,
            clock.seen.hpre,
            RCC_CFGR_HPRE_DIV1,
        ) + set_bits(RCC_CFGR, clock.seen.ppre2, RCC_CFGR_PPRE2_DIV2) + set_bits(
            RCC_CFGR,
            clock.seen.ppre1,
            RCC_CFGR_PPRE1_DIV4,
        ) + seq![Access::Store { address: RCC_PLLCFGR, value: clock.plan.word() }] + set_bits(
            RCC_CR,
            clock.seen.pll_on,
            RCC_CR_PLLON,
        ) + polls(RCC_CR, clock.seen.pll_polls) + seq![
            Access::Store { address: FLASH_ACR, value: FLASH_ACR_AT_FULL_SPEED },
        ] + keep_bits(RCC_CFGR, clock.seen.sw_clear, !RCC_CFGR_SW) + set_bits(
            RCC_CFGR,
            clock.seen.sw_set,
            RCC_CFGR_SW_PLL,
        ) + polls(RCC_CFGR, clock.seen.switch_polls),
        clock.seen.hse_check & RCC_CR_HSERDY != 0,
        clock.seen.pll_polls.last() & RCC_CR_PLLRDY == RCC_CR_PLLRDY,
        clock.seen.switch_polls.last() & RCC_CFGR_SWS == RCC_CFGR_SWS_PLL,
{
    assert(clock.trace() =~= set_bits(RCC_CR, clock.seen.hse_on, RCC_CR_HSEON) + polls(
        RCC_CR,
        clock.seen.hse_polls,
    ) + seq![Access::Load { address: RCC_CR, value: clock.seen.hse_check }] + set_bits(
        RCC_APB1ENR,
        clock.seen.pwr_en,
        RCC_APB1ENR_PWREN,
    ) + set_bits(PWR_CR, clock.seen.vos, PWR_CR_VOS) + set_bits(
        RCC_CFGR,
        clock.seen.hpre,
        RCC_CFGR_HPRE_DIV1,
    ) + set_bits(RCC_CFGR, clock.seen.ppre2, RCC_CFGR_PPRE2_DIV2) + set_bits(
        RCC_CFGR,
        clock.seen.ppre1,
        RCC_CFGR_PPRE1_DIV4,
    ) + seq![Access::Store { address: RCC_PLLCFGR, value: clock.plan.word() }] + set_bits(
        RCC_CR,
        clock.seen.pll_on,
        RCC_CR_PLLON,
    ) + polls(RCC_CR, clock.seen.pll_polls) + seq![
        Access::Store { address: FLASH_ACR, value: FLASH_ACR_AT_FULL_SPEED },
    ] + keep_bits(RCC_CFGR, clock.seen.sw_clear, !RCC_CFGR_SW) + set_bits(
        RCC_CFGR,
        clock.seen.sw_set,
        RCC_CFGR_SW_PLL,
    ) + polls(RCC_CFGR, clock.seen.switch_polls));
}

/// The wait for the external oscillator is bounded by its budget: while it
/// goes on, no more polls were made than the budget has retries, and it
/// never makes more than one poll beyond them.
pub proof fn law_hse_wait_is_bounded(clock: ClockView, limit: u32)
    requires
        clock.wf(),
        clock.plan.hse_wait == WaitBudget::Bounded(limit),
    ensures
        clock.stage == ClockStage::AwaitHse ==> clock.seen.hse_polls.len() <= limit,
        clock.stage != ClockStage::Start ==> clock.seen.hse_polls.len() <= limit + 1,
{
}

/// If the external oscillator never shows ready, its wait ends after
/// exactly as many retries as the budget has, which is one poll more, and
/// the bring-up ends there: after the load that decides, nothing is
/// accessed, and the PLL is not touched.
pub proof fn law_hse_never_ready(clock: ClockView, limit: u32)
    requires
        clock.wf(),
        clock.plan.hse_wait == WaitBudget::Bounded(limit),
        clock.stage != ClockStage::Start,
        clock.stage != ClockStage::AwaitHse,
        forall|i: int|
            0 <= i < clock.seen.hse_polls.len() ==> (#[trigger] clock.seen.hse_polls[i])
                & RCC_CR_HSERDY == 0,
        clock.seen.hse_check & RCC_CR_HSERDY == 0,
    ensures
        clock.seen.hse_polls.len() == limit + 1,
        clock.stage == ClockStage::Done(ClockOutcome::HseNotReady),
        clock.trace() == set_bits(RCC_CR, clock.seen.hse_on, RCC_CR_HSEON) + polls(
            RCC_CR,
            clock.seen.hse_polls,
        ) + seq![Access::Load { address: RCC_CR, value: clock.seen.hse_check }],
{
    assert(finished(hse_wait_of(clock.plan), clock.seen.hse_polls));
    assert(!hse_wait_of(clock.plan).hit(clock.seen.hse_polls.last()));
    assert(clock.trace() =~= set_bits(RCC_CR, clock.seen.hse_on, RCC_CR_HSEON) + polls(
        RCC_CR,
        clock.seen.hse_polls,
    ) + seq![Access::Load { address: RCC_CR, value: clock.seen.hse_check }]);
}

} // verus!
