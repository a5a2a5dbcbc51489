//! One 32-bit hardware register at a fixed address.

use vstd::prelude::*;
use crate::bus::{
    coherent, lemma_modify_on_plain_memory, lemma_one_more_access, modify_accesses, replay,
    word_at, Access, Mmio, RegisterBus,
};

verus! {

/// A handle on the register at one address. The address is fixed when the
/// handle is made, and no arithmetic is offered on the handle afterwards.
#[derive(Clone, Copy, Debug, PartialEq, Eq, Structural)]
pub struct VolatileReg32 {
    address: u32,
}

impl VolatileReg32 {
    /// The byte address of the register.
    pub closed spec fn address(&self) -> u32 {
        self.address
    }

    /// The handle on the register at `address`.
    pub closed spec fn at(address: u32) -> VolatileReg32 {
        VolatileReg32 { address }
    }

    /// A handle is nothing but its address: there is one for each address.
    pub proof fn lemma_one_for_each_address(self)
        ensures
            self == Self::at(self.address()),
            forall|address: u32| (#[trigger] Self::at(address)).address() == address,
    {
    }

    pub fn new(address: u32) -> (reg: VolatileReg32)
        ensures
            reg.address() == address,
    {
        VolatileReg32 { address }
    }

    /// The register `offset` words above `base`.
    pub fn new_offset(base: u32, offset: u32) -> (reg: VolatileReg32)
        requires
            base + 4 * offset <= u32::MAX,
        ensures
            reg.address() == base + 4 * offset,
    {
        VolatileReg32 { address: base + 4 * offset }
    }

    pub fn addr(&self) -> (address: u32)
        ensures
            address == self.address(),
    {
        self.address
    }

    /// One load from the register.
    pub fn get<B: RegisterBus>(&self, bus: &mut Mmio<B>) -> (value: u32)
        ensures
            final(bus).history() == old(bus).history().push(
                Access::Load { address: self.address(), value },
            ),
    {
        bus.load(self.address)
    }

    /// One store to the register.
    pub fn set<B: RegisterBus>(&self, bus: &mut Mmio<B>, value: u32)
        ensures
            final(bus).history() == old(bus).history().push(
                Access::Store { address: self.address(), value },
            ),
    {
        bus.store(self.address, value)
    }

    /// Loads the register and stores back what was seen with the bits of
    /// `value` set. The two accesses are not atomic.
    pub fn bit_or<B: RegisterBus>(&self, bus: &mut Mmio<B>, value: u32)
        ensures
            ({
                let seen = final(bus).loaded(old(bus).history().len());
                final(bus).history() == old(bus).history() + modify_accesses(
                    self.address(),
                    seen,
                    seen | value,
                )
            }),
    {
        let temp: u32 = self.get(bus);
        self.set(bus, temp | value);
    }

    /// Loads the register and stores back what was seen, keeping only the
    /// bits of `value`. The two accesses are not atomic.
    pub fn bit_and<B: RegisterBus>(&self, bus: &mut Mmio<B>, value: u32)
        ensures
            ({
                let seen = final(bus).loaded(old(bus).history().len());
                final(bus).history() == old(bus).history() + modify_accesses(
                    self.address(),
                    seen,
                    seen & value,
                )
            }),
    {
        let temp: u32 = self.get(bus);
        self.set(bus, temp & value);
    }

    /// Loads the register and stores back what was seen with the bits of
    /// `value` flipped. The two accesses are not atomic.
    pub fn bit_xor<B: RegisterBus>(&self, bus: &mut Mmio<B>, value: u32)
        ensures
            ({
                let seen = final(bus).loaded(old(bus).history().len());
                final(bus).history() == old(bus).history() + modify_accesses(
                    self.address(),
                    seen,
                    seen ^ value,
                )
            }),
    {
        let temp: u32 = self.get(bus);
        self.set(bus, temp ^ value);
    }

    /// Loads the register and stores back the sum of what was seen and
    /// `value`, modulo 2^32. The two accesses are not atomic.
    pub fn add<B: RegisterBus>(&self, bus: &mut Mmio<B>, value: u32)
        ensures
            ({
                let seen = final(bus).loaded(old(bus).history().len());
                final(bus).history() == old(bus).history() + modify_accesses(
                    self.address(),
                    seen,
                    ((seen + value) % 0x1_0000_0000) as u32,
                )
            }),
    {
        let temp: u32 = self.get(bus);
        self.set(bus, temp.wrapping_add(value));
    }

    /// Loads the register and stores back what was seen less `value`, modulo
    /// 2^32. The two accesses are not atomic.
    pub fn sub<B: RegisterBus>(&self, bus: &mut Mmio<B>, value: u32)
        ensures
            ({
                let seen = final(bus).loaded(old(bus).history().len());
                final(bus).history() == old(bus).history() + modify_accesses(
                    self.address(),
                    seen,
                    ((seen - value) % 0x1_0000_0000) as u32,
                )
            }),
    {
        let temp: u32 = self.get(bus);
        self.set(bus, temp.wrapping_sub(value));
    }
}

/// On a register that keeps what is stored to it, `bit_or` and then `get`
/// return the old word with the bits of `mask` set. The bits outside `mask`
/// are the old ones, and no other register changes.
pub proof fn law_bit_or_then_get(
    memory: Map<u32, u32>,
    reg: VolatileReg32,
    mask: u32,
    seen: u32,
    got: u32,
)
    requires
        coherent(
            memory,
            modify_accesses(reg.address(), seen, seen | mask).push(
                Access::Load { address: reg.address(), value: got },
            ),
        ),
    ensures
        got == word_at(memory, reg.address()) | mask,
        got & !mask == word_at(memory, reg.address()) & !mask,
        forall|other: u32|
            other != reg.address() ==> word_at(
                replay(memory, modify_accesses(reg.address(), seen, seen | mask)),
                other,
            ) == word_at(memory, other),
{
    let old_word = word_at(memory, reg.address());
    lemma_modify_then_get(memory, reg.address(), seen, seen | mask, got);
    assert((old_word | mask) & !mask == old_word & !mask) by (bit_vector);
}

/// On a register that keeps what is stored to it, `bit_and` and then `get`
/// return the old word with only the bits of `mask` kept. The bits inside
/// `mask` are the old ones, and no other register changes.
pub proof fn law_bit_and_then_get(
    memory: Map<u32, u32>,
    reg: VolatileReg32,
    mask: u32,
    seen: u32,
    got: u32,
)
    requires
        coherent(
            memory,
            modify_accesses(reg.address(), seen, seen & mask).push(
                Access::Load { address: reg.address(), value: got },
            ),
        ),
    ensures
        got == word_at(memory, reg.address()) & mask,
        got & mask == word_at(memory, reg.address()) & mask,
        forall|other: u32|
            other != reg.address() ==> word_at(
                replay(memory, modify_accesses(reg.address(), seen, seen & mask)),
                other,
            ) == word_at(memory, other),
{
    let old_word = word_at(memory, reg.address());
    lemma_modify_then_get(memory, reg.address(), seen, seen & mask, got);
    assert((old_word & mask) & mask == old_word & mask) by (bit_vector);
}

/// On a register that keeps what is stored to it, `bit_xor` and then `get`
/// return the old word with the bits of `mask` flipped. The bits outside
/// `mask` are the old ones, and no other register changes.
pub proof fn law_bit_xor_then_get(
    memory: Map<u32, u32>,
    reg: VolatileReg32,
    mask: u32,
    seen: u32,
    got: u32,
)
    requires
        coherent(
            memory,
            modify_accesses(reg.address(), seen, seen ^ mask).push(
                Access::Load { address: reg.address(), value: got },
            ),
        ),
    ensures
        got == word_at(memory, reg.address()) ^ mask,
        got & !mask == word_at(memory, reg.address()) & !mask,
        forall|other: u32|
            other != reg.address() ==> word_at(
                replay(memory, modify_accesses(reg.address(), seen, seen ^ mask)),
                other,
            ) == word_at(memory, other),
{
    let old_word = word_at(memory, reg.address());
    lemma_modify_then_get(memory, reg.address(), seen, seen ^ mask, got);
    assert((old_word ^ mask) & !mask == old_word & !mask) by (bit_vector);
}

/// A read-modify-write and then a load, on a plain memory: the first load
/// sees the old word, the second what was written, and no other word
/// changes.
proof fn lemma_modify_then_get(
    memory: Map<u32, u32>,
    address: u32,
    seen: u32,
    written: u32,
    got: u32,
)
    requires
        coherent(
            memory,
            modify_accesses(address, seen, written).push(Access::Load { address, value: got }),
        ),
    ensures
        seen == word_at(memory, address),
        got == written,
        forall|other: u32|
            other != address ==> word_at(
                replay(memory, modify_accesses(address, seen, written)),
                other,
            ) == word_at(memory, other),
{
    lemma_modify_on_plain_memory(memory, address, seen, written);
    lemma_one_more_access(
        memory,
        modify_accesses(address, seen, written),
        Access::Load { address, value: got },
    );
}

} // verus!
