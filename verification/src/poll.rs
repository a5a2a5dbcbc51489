//! Waiting for the hardware: a register is loaded again and again until some
//! of its bits show an expected pattern, or until the wait has lasted too
//! long.

use vstd::prelude::*;
use crate::bus::{Access, Mmio, RegisterBus};
use crate::volatile_reg32::VolatileReg32;

verus! {

/// How long a wait may last.
#[derive(Clone, Copy, Debug, PartialEq, Eq, Structural)]
pub enum WaitBudget {
    /// The wait gives up when this many retries were made in vain.
    Bounded(u32),
    /// The wait never gives up.
    Unbounded,
}

/// What one poll found.
#[derive(Clone, Copy, Debug, PartialEq, Eq, Structural)]
pub enum PollStatus {
    /// The register showed the expected pattern.
    Ready,
    /// Not yet. Poll again.
    Pending,
    /// Not yet, and the budget is spent.
    TimedOut,
}

/// A wait on one register, and how far it has come.
#[derive(Clone, Copy, Debug, PartialEq, Eq, Structural)]
pub struct PollUntil {
    /// The register that is polled.
    pub register: VolatileReg32,
    /// The bits that are looked at.
    pub mask: u32,
    /// What those bits must show.
    pub expected: u32,
    /// How long the wait may last.
    pub budget: WaitBudget,
    /// The retries made so far. An unbounded wait does not count them.
    pub retries: u32,
}

/// One load of the register at `address` for each word of `seen`, in order.
pub open spec fn polls(address: u32, seen: Seq<u32>) -> Seq<Access> {
    Seq::new(seen.len(), |i: int| Access::Load { address, value: seen[i] })
}

impl PollUntil {
    /// A load that returned `seen` shows the expected pattern.
    pub open spec fn hit(self, seen: u32) -> bool {
        seen & self.mask == self.expected
    }

    /// What a poll that loads `seen` finds.
    pub open spec fn verdict(self, seen: u32) -> PollStatus {
        if self.hit(seen) {
            PollStatus::Ready
        } else {
            match self.budget {
                WaitBudget::Bounded(limit) if self.retries >= limit => PollStatus::TimedOut,
                _ => PollStatus::Pending,
            }
        }
    }

    /// The wait after a poll that loads `seen`: a poll that is followed by
    /// a retry counts against a bounded budget.
    pub open spec fn advanced(self, seen: u32) -> PollUntil {
        if self.verdict(seen) == PollStatus::Pending && self.budget is Bounded {
            PollUntil { retries: (self.retries + 1) as u32, ..self }
        } else {
            self
        }
    }

    /// The wait after one poll for each word of `seen`, in order.
    pub open spec fn advanced_by(self, seen: Seq<u32>) -> PollUntil
        decreases seen.len(),
    {
        if seen.len() == 0 {
            self
        } else {
            self.advanced_by(seen.drop_last()).advanced(seen.last())
        }
    }

    /// A wait that has not polled yet.
    pub open spec fn fresh(
        register: VolatileReg32,
        mask: u32,
        expected: u32,
        budget: WaitBudget,
    ) -> PollUntil {
        PollUntil { register, mask, expected, budget, retries: 0 }
    }

    pub fn new(register: VolatileReg32, mask: u32, expected: u32, budget: WaitBudget) -> (wait:
        PollUntil)
        ensures
            wait == Self::fresh(register, mask, expected, budget),
    {
        PollUntil { register, mask, expected, budget, retries: 0 }
    }

    /// Loads the register once and says what that load found.
    pub fn poll<B: RegisterBus>(&mut self, bus: &mut Mmio<B>) -> (status: PollStatus)
        ensures
            ({
                let seen = final(bus).loaded(old(bus).history().len());
                &&& final(bus).history() == old(bus).history().push(
                    Access::Load { address: old(self).register.address(), value: seen },
                )
                &&& status == old(self).verdict(seen)
                &&& *final(self) == old(self).advanced(seen)
            }),
    {
        let seen: u32 = self.register.get(bus);
        if seen & self.mask == self.expected {
            PollStatus::Ready
        } else {
            match self.budget {
                WaitBudget::Bounded(limit) => {
                    if self.retries >= limit {
                        PollStatus::TimedOut
                    } else {
                        self.retries = self.retries + 1;
                        PollStatus::Pending
                    }
                },
                WaitBudget::Unbounded => PollStatus::Pending,
            }
        }
    }
}

/// A bounded wait on a register that never shows the pattern gives up after
/// exactly as many retries as its budget allows: each poll up to that number
/// asks for another, and the next one times out.
pub proof fn law_bounded_wait_gives_up(wait: PollUntil, limit: u32, seen: Seq<u32>)
    requires
        wait.budget == WaitBudget::Bounded(limit),
        wait.retries == 0,
        seen.len() == limit + 1,
        forall|i: int| 0 <= i < seen.len() ==> !wait.hit(#[trigger] seen[i]),
    ensures
        forall|k: int|
            0 <= k < limit ==> (#[trigger] wait.advanced_by(seen.take(k))).verdict(seen[k])
                == PollStatus::Pending,
        wait.advanced_by(seen.take(limit as int)).verdict(seen[limit as int])
            == PollStatus::TimedOut,
        wait.advanced_by(seen).retries == limit,
{
    assert forall|k: int| 0 <= k <= limit + 1 implies (#[trigger] wait.advanced_by(seen.take(k)))
        == (PollUntil { retries: (if k <= limit { k } else { limit as int }) as u32, ..wait }) by {
        lemma_misses_count(wait, limit, seen, k);
    }
    assert(seen.take(limit + 1) =~= seen);
}

/// After `k` polls that all missed, a bounded wait has made `k` retries, or
/// as many as its budget allows if that is fewer.
proof fn lemma_misses_count(wait: PollUntil, limit: u32, seen: Seq<u32>, k: int)
    requires
        wait.budget == WaitBudget::Bounded(limit),
        wait.retries == 0,
        0 <= k <= seen.len(),
        forall|i: int| 0 <= i < seen.len() ==> !wait.hit(#[trigger] seen[i]),
    ensures
        wait.advanced_by(seen.take(k)) == (PollUntil {
            retries: (if k <= limit { k } else { limit as int }) as u32,
            ..wait
        }),
    decreases k,
{
    if k > 0 {
        lemma_misses_count(wait, limit, seen, k - 1);
        assert(seen.take(k).drop_last() =~= seen.take(k - 1));
        assert(seen.take(k).last() == seen[k - 1]);
    }
}

} // verus!
