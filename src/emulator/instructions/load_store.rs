use vstd::prelude::*;

use crate::emulator::addressing::AddressMode;
use crate::emulator::Emulator;
use crate::memory::Memory;

verus! {

impl<C: Memory> Emulator<C> {
    /// Reads the operand and sets Zero and Negative from it.
    fn load(&mut self, address_mode: AddressMode) -> (r: u8)
        requires
            old(self).wf(),
        ensures
            final(self).wf(),
            (final(self).state(), r) == old(self).state().load(address_mode),
    {
        let address = self.address(address_mode);
        let value = self.read(address);
        self.registers.status.update_zero_negative(value);
        value
    }

    /// Load accumulator.
    pub fn lda(&mut self, address_mode: AddressMode)
        requires
            old(self).wf(),
        ensures
            final(self).wf(),
            final(self).state() == old(self).state().load(address_mode).0.set_a(
                old(self).state().load(address_mode).1,
            ),
    {
        self.registers.accumulator = self.load(address_mode);
    }

    /// Load X.
    pub fn ldx(&mut self, address_mode: AddressMode)
        requires
            old(self).wf(),
        ensures
            final(self).wf(),
            final(self).state() == old(self).state().load(address_mode).0.set_x(
                old(self).state().load(address_mode).1,
            ),
    {
        self.registers.x = self.load(address_mode);
    }

    /// Load Y.
    pub fn ldy(&mut self, address_mode: AddressMode)
        requires
            old(self).wf(),
        ensures
            final(self).wf(),
            final(self).state() == old(self).state().load(address_mode).0.set_y(
                old(self).state().load(address_mode).1,
            ),
    {
        self.registers.y = self.load(address_mode);
    }

    fn store(&mut self, address_mode: AddressMode, value: u8)
        requires
            old(self).wf(),
        ensures
            final(self).wf(),
            final(self).state() == old(self).state().store_to(address_mode, value),
    {
        let address = self.address(address_mode);
        self.write(address, value);
    }

    /// Store accumulator.
    pub fn sta(&mut self, address_mode: AddressMode)
        requires
            old(self).wf(),
        ensures
            final(self).wf(),
            final(self).state() == old(self).state().store_to(
                address_mode,
                old(self).registers.accumulator,
            ),
    {
        let v = self.registers.accumulator;
        self.store(address_mode, v);
    }

    /// Store X.
    pub fn stx(&mut self, address_mode: AddressMode)
        requires
            old(self).wf(),
        ensures
            final(self).wf(),
            final(self).state() == old(self).state().store_to(address_mode, old(self).registers.x),
    {
        let v = self.registers.x;
        self.store(address_mode, v);
    }

    /// Store Y.
    pub fn sty(&mut self, address_mode: AddressMode)
        requires
            old(self).wf(),
        ensures
            final(self).wf(),
            final(self).state() == old(self).state().store_to(address_mode, old(self).registers.y),
    {
        let v = self.registers.y;
        self.store(address_mode, v);
    }
}

} // verus!
