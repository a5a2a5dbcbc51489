//! A stand-in for the hardware: a memory of words by address, with bits that
//! the simulated hardware drives, and a record of every access.

use vstd::prelude::*;
use crate::bus::{Access, RegisterBus};

verus! {

/// What the simulated hardware holds at one address.
#[derive(Clone, Copy, Debug, PartialEq, Eq, Structural)]
pub struct Cell {
    /// The address of the word.
    pub address: u32,
    /// The word that was last stored or poked there.
    pub stored: u32,
    /// The bits that the hardware drives: a load does not see what was
    /// stored in them.
    pub driven_mask: u32,
    /// What a load sees in the driven bits.
    pub driven_bits: u32,
}

impl Cell {
    /// What a load of the word returns: the stored word, but for the driven
    /// bits, which come from the hardware.
    pub open spec fn visible(self) -> u32 {
        (self.stored & !self.driven_mask) | (self.driven_bits & self.driven_mask)
    }

    /// Where the hardware drives nothing, a load sees what was stored.
    pub proof fn lemma_undriven(self)
        requires
            self.driven_mask == 0,
        ensures
            self.visible() == self.stored,
    {
        let stored = self.stored;
        let bits = self.driven_bits;
        assert((stored & !0u32) | (bits & 0u32) == stored) by (bit_vector);
    }

    /// The cell of an address that was never stored to, poked or driven.
    pub open spec fn untouched(address: u32) -> Cell {
        Cell { address, stored: 0, driven_mask: 0, driven_bits: 0 }
    }
}

/// A simulated register space. Every word starts as 0 with no driven bits.
pub struct SimulatedBus {
    cells: Vec<Cell>,
    log: Vec<Access>,
}

impl SimulatedBus {
    #[verifier::type_invariant]
    spec fn distinct(self) -> bool {
        forall|i: int, j: int|
            0 <= i < j < self.cells@.len() ==> (#[trigger] self.cells@[i]).address != (
            #[trigger] self.cells@[j]).address
    }

    spec fn holds(self, address: u32) -> bool {
        exists|i: int| 0 <= i < self.cells@.len() && (#[trigger] self.cells@[i]).address == address
    }

    /// What is held at `address`.
    pub closed spec fn cell(self, address: u32) -> Cell {
        if self.holds(address) {
            let i = choose|i: int|
                0 <= i < self.cells@.len() && (#[trigger] self.cells@[i]).address == address;
            self.cells@[i]
        } else {
            Cell::untouched(address)
        }
    }

    /// Every access made on this bus, oldest first.
    pub closed spec fn recorded(self) -> Seq<Access> {
        self.log@
    }

    pub fn new() -> (bus: SimulatedBus)
        ensures
            bus.recorded() == Seq::<Access>::empty(),
            forall|address: u32| bus.cell(address) == Cell::untouched(address),
    {
        SimulatedBus { cells: Vec::new(), log: Vec::new() }
    }

    /// The place of `address` among the cells, if it has one.
    fn find(&self, address: u32) -> (place: Option<usize>)
        ensures
            match place {
                Some(i) => i < self.cells@.len() && self.cells@[i as int].address == address
                    && self.cell(address) == self.cells@[i as int],
                None => !self.holds(address) && self.cell(address) == Cell::untouched(address),
            },
    {
        proof {
            use_type_invariant(self);
        }
        let mut i: usize = 0;
        while i < self.cells.len()
            invariant
                self.distinct(),
                i <= self.cells@.len(),
                forall|k: int| 0 <= k < i ==> (#[trigger] self.cells@[k]).address != address,
            decreases self.cells@.len() - i,
        {
            if self.cells[i].address == address {
                assert(self.cells@[i as int].address == address);
                return Some(i);
            }
            i += 1;
        }
        None
    }

    /// Replaces what is held at the address of `cell` by `cell`.
    fn put(&mut self, cell: Cell)
        ensures
            final(self).recorded() == old(self).recorded(),
            final(self).cell(cell.address) == cell,
            forall|other: u32|
                other != cell.address ==> final(self).cell(other) == old(self).cell(other),
    {
        proof {
            use_type_invariant(&*self);
        }
        let ghost before = *self;
        match self.find(cell.address) {
            Some(i) => {
                let mut cells: Vec<Cell> = Vec::new();
                core::mem::swap(&mut self.cells, &mut cells);
                cells[i] = cell;
                self.cells = cells;
                assert forall|other: u32| other != cell.address implies self.cell(other)
                    == before.cell(other) by {
                    if before.holds(other) {
                        let k = choose|k: int|
                            0 <= k < before.cells@.len() && (#[trigger] before.cells@[k]).address
                                == other;
                        assert(self.cells@[k].address == other);
                    }
                    if self.holds(other) {
                        let k = choose|k: int|
                            0 <= k < self.cells@.len() && (#[trigger] self.cells@[k]).address
                                == other;
                        assert(before.cells@[k].address == other);
                    }
                }
                assert(self.cells@[i as int].address == cell.address);
            },
            None => {
                let mut cells: Vec<Cell> = Vec::new();
                core::mem::swap(&mut self.cells, &mut cells);
                cells.push(cell);
                self.cells = cells;
                let ghost last = before.cells@.len() as int;
                assert(self.cells@[last].address == cell.address);
                assert forall|other: u32| other != cell.address implies self.cell(other)
                    == before.cell(other) by {
                    if before.holds(other) {
                        let k = choose|k: int|
                            0 <= k < before.cells@.len() && (#[trigger] before.cells@[k]).address
                                == other;
                        assert(self.cells@[k].address == other);
                    }
                    if self.holds(other) {
                        let k = choose|k: int|
                            0 <= k < self.cells@.len() && (#[trigger] self.cells@[k]).address
                                == other;
                        assert(before.cells@[k].address == other);
                    }
                }
            },
        }
    }

    /// Adds `access` to the record. What is held stays as it is.
    fn record(&mut self, access: Access)
        ensures
            final(self).recorded() == old(self).recorded().push(access),
            forall|any: u32| final(self).cell(any) == old(self).cell(any),
    {
        proof {
            use_type_invariant(&*self);
        }
        let ghost before = *self;
        let mut log: Vec<Access> = Vec::new();
        core::mem::swap(&mut self.log, &mut log);
        log.push(access);
        self.log = log;
        assert forall|any: u32| self.cell(any) == before.cell(any) by {
            assert(self.cells@ == before.cells@);
        }
    }

    /// What is held at `address`.
    fn at(&self, address: u32) -> (cell: Cell)
        ensures
            cell == self.cell(address),
    {
        match self.find(address) {
            Some(i) => self.cells[i],
            None => Cell { address, stored: 0, driven_mask: 0, driven_bits: 0 },
        }
    }

    /// Puts `value` at `address` as a test's starting state. Nothing is
    /// recorded: the program under test did not do it.
    pub fn poke(&mut self, address: u32, value: u32)
        ensures
            final(self).recorded() == old(self).recorded(),
            final(self).cell(address) == (Cell { stored: value, ..old(self).cell(address) }),
            forall|other: u32| other != address ==> final(self).cell(other) == old(self).cell(other),
    {
        let cell = self.at(address);
        self.put(Cell { stored: value, ..cell });
    }

    /// Lets the hardware drive the bits of `mask` at `address`: from now on
    /// a load sees `bits` in them, whatever is stored. Nothing is recorded.
    pub fn drive(&mut self, address: u32, mask: u32, bits: u32)
        ensures
            final(self).recorded() == old(self).recorded(),
            final(self).cell(address) == (Cell {
                driven_mask: mask,
                driven_bits: bits,
                ..old(self).cell(address)
            }),
            forall|other: u32| other != address ==> final(self).cell(other) == old(self).cell(other),
    {
        let cell = self.at(address);
        self.put(Cell { driven_mask: mask, driven_bits: bits, ..cell });
    }

    /// What a load of `address` would return now. Nothing is recorded.
    pub fn peek(&self, address: u32) -> (value: u32)
        ensures
            value == self.cell(address).visible(),
    {
        let cell = self.at(address);
        (cell.stored & !cell.driven_mask) | (cell.driven_bits & cell.driven_mask)
    }

    /// The record of the accesses.
    pub fn accesses(&self) -> (log: &Vec<Access>)
        ensures
            log@ == self.recorded(),
    {
        &self.log
    }
}

impl RegisterBus for SimulatedBus {
    /// Returns what is visible at `address` and records the load. What is
    /// held stays as it is.
    fn load(&mut self, address: u32) -> (value: u32)
        ensures
            value == old(self).cell(address).visible(),
            final(self).recorded() == old(self).recorded().push(Access::Load { address, value }),
            forall|any: u32| final(self).cell(any) == old(self).cell(any),
    {
        let value = self.peek(address);
        self.record(Access::Load { address, value });
        value
    }

    /// Replaces the word stored at `address` and records the store. Bits
    /// that the hardware drives stay driven.
    fn store(&mut self, address: u32, value: u32)
        ensures
            final(self).recorded() == old(self).recorded().push(Access::Store { address, value }),
            final(self).cell(address) == (Cell { stored: value, ..old(self).cell(address) }),
            forall|other: u32| other != address ==> final(self).cell(other) == old(self).cell(other),
    {
        self.poke(address, value);
        self.record(Access::Store { address, value });
    }

    /// Records the barrier. What is held stays as it is.
    fn barrier(&mut self)
        ensures
            final(self).recorded() == old(self).recorded().push(Access::Barrier),
            forall|any: u32| final(self).cell(any) == old(self).cell(any),
    {
        self.record(Access::Barrier);
    }
}

} // verus!
