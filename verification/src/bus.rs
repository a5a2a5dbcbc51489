//! The access capability: the one way in which this crate touches a register.

use vstd::prelude::*;

verus! {

/// One access that the processor makes on the peripheral bus.
#[derive(Clone, Copy, Debug, PartialEq, Eq, Structural)]
pub enum Access {
    /// A word was read from `address`, and the hardware answered `value`.
    Load { address: u32, value: u32 },
    /// `value` was written to `address`.
    Store { address: u32, value: u32 },
    /// All earlier accesses were forced to complete.
    Barrier,
}

/// A read-modify-write: one load that saw `seen`, then one store of `written`.
pub open spec fn modify_accesses(address: u32, seen: u32, written: u32) -> Seq<Access> {
    seq![Access::Load { address, value: seen }, Access::Store { address, value: written }]
}

/// What carries the accesses out: real memory-mapped hardware, or a stand-in.
///
/// Nothing is promised of an implementation. A register may change between
/// two loads, and a load need not return what was stored before it.
pub trait RegisterBus {
    /// One load of the word at `address` that is neither elided nor reordered.
    fn load(&mut self, address: u32) -> u32;

    /// One store to the word at `address` that is neither elided nor reordered.
    fn store(&mut self, address: u32, value: u32);

    /// Returns once every earlier access has completed.
    fn barrier(&mut self);
}

/// The peripheral-access capability. It owns the bus, hands every access on
/// to it in program order, and keeps the history of what it handed on.
pub struct Mmio<B: RegisterBus> {
    bus: B,
    history: Ghost<Seq<Access>>,
}

impl<B: RegisterBus> Mmio<B> {
    /// The accesses made through this capability, oldest first.
    pub closed spec fn history(&self) -> Seq<Access> {
        self.history@
    }

    /// The value that the access at position `index` of the history loaded.
    pub open spec fn loaded(&self, index: nat) -> u32 {
        self.history()[index as int]->Load_value
    }

    /// The bus that carries the accesses out.
    pub closed spec fn carrier(&self) -> B {
        self.bus
    }

    /// The capability over `bus`, with nothing accessed yet.
    pub fn new(bus: B) -> (mmio: Self)
        ensures
            mmio.history() == Seq::<Access>::empty(),
            mmio.carrier() == bus,
    {
        Mmio { bus, history: Ghost(Seq::empty()) }
    }

    /// The bus, to look at.
    pub fn bus(&self) -> (bus: &B)
        ensures
            *bus == self.carrier(),
    {
        &self.bus
    }

    /// Gives the bus back.
    pub fn release(self) -> (bus: B)
        ensures
            bus == self.carrier(),
    {
        self.bus
    }

    /// Hands one load on to the bus.
    pub fn load(&mut self, address: u32) -> (value: u32)
        ensures
            final(self).history() == old(self).history().push(Access::Load { address, value }),
    {
        let value = self.bus.load(address);
        proof {
            self.history@ = self.history@.push(Access::Load { address, value });
        }
        value
    }

    /// Hands one store on to the bus.
    pub fn store(&mut self, address: u32, value: u32)
        ensures
            final(self).history() == old(self).history().push(Access::Store { address, value }),
    {
        self.bus.store(address, value);
        proof {
            self.history@ = self.history@.push(Access::Store { address, value });
        }
    }

    /// Hands one barrier on to the bus.
    pub fn barrier(&mut self)
        ensures
            final(self).history() == old(self).history().push(Access::Barrier),
    {
        self.bus.barrier();
        proof {
            self.history@ = self.history@.push(Access::Barrier);
        }
    }
}

/// The word that a plain memory holds at `address`. A word that was never
/// stored to is 0.
pub open spec fn word_at(memory: Map<u32, u32>, address: u32) -> u32 {
    if memory.dom().contains(address) {
        memory[address]
    } else {
        0
    }
}

/// What a plain memory holds after `access`: a store replaces one word, a
/// load or a barrier changes nothing.
pub open spec fn after(memory: Map<u32, u32>, access: Access) -> Map<u32, u32> {
    match access {
        Access::Store { address, value } => memory.insert(address, value),
        _ => memory,
    }
}

/// What a plain memory holds after `accesses`, made in order.
pub open spec fn replay(memory: Map<u32, u32>, accesses: Seq<Access>) -> Map<u32, u32>
    decreases accesses.len(),
{
    if accesses.len() == 0 {
        memory
    } else {
        after(replay(memory, accesses.drop_last()), accesses.last())
    }
}

/// `accesses` is what a program sees on a plain memory that starts as
/// `memory`: each load returns the word that the stores before it left.
pub open spec fn coherent(memory: Map<u32, u32>, accesses: Seq<Access>) -> bool
    decreases accesses.len(),
{
    if accesses.len() == 0 {
        true
    } else {
        &&& coherent(memory, accesses.drop_last())
        &&& accesses.last() matches Access::Load { address, value } ==> value == word_at(
            replay(memory, accesses.drop_last()),
            address,
        )
    }
}

/// One more access: the memory moves by that access, and the longer run is
/// coherent when the shorter one is and the new access, if a load, returns
/// what the memory holds.
pub proof fn lemma_one_more_access(memory: Map<u32, u32>, accesses: Seq<Access>, last: Access)
    ensures
        replay(memory, accesses.push(last)) == after(replay(memory, accesses), last),
        coherent(memory, accesses.push(last)) <==> {
            &&& coherent(memory, accesses)
            &&& last matches Access::Load { address, value } ==> value == word_at(
                replay(memory, accesses),
                address,
            )
        },
{
    assert(accesses.push(last).drop_last() =~= accesses);
}

/// A read-modify-write on a plain memory sees the word that was there and
/// replaces it; every other word stays.
pub proof fn lemma_modify_on_plain_memory(
    memory: Map<u32, u32>,
    address: u32,
    seen: u32,
    written: u32,
)
    ensures
        coherent(memory, modify_accesses(address, seen, written)) <==> seen == word_at(
            memory,
            address,
        ),
        replay(memory, modify_accesses(address, seen, written)) == memory.insert(address, written),
{
    let load = Access::Load { address, value: seen };
    let store = Access::Store { address, value: written };
    let first = Seq::<Access>::empty().push(load);
    assert(modify_accesses(address, seen, written) =~= first.push(store));
    lemma_one_more_access(memory, Seq::<Access>::empty(), load);
    lemma_one_more_access(memory, first, store);
}

} // verus!
