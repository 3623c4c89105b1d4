use vstd::prelude::*;

use crate::emulator::registers::Status;
use crate::emulator::Emulator;
use crate::memory::Memory;

verus! {

impl<C: Memory> Emulator<C> {
    /// Transfer X to stack pointer; no flag changes.
    pub fn txs(&mut self)
        requires
            old(self).wf(),
        ensures
            final(self).wf(),
            final(self).state() == old(self).state().set_sp(old(self).registers.x),
    {
        self.registers.stack_pointer = self.registers.x;
    }

    /// Transfer stack pointer to X.
    pub fn tsx(&mut self)
        requires
            old(self).wf(),
        ensures
            final(self).wf(),
            final(self).state() == old(self).state().set_x(
                old(self).registers.stack_pointer,
            ).set_zn(old(self).registers.stack_pointer),
    {
        self.registers.x = self.registers.stack_pointer;
        self.registers.status.update_zero_negative(self.registers.x);
    }

    /// Writes `value` at `0x100 | sp`, then moves the stack pointer down, with wrap-around.
    pub fn push(&mut self, value: u8)
        requires
            old(self).wf(),
        ensures
            final(self).wf(),
            final(self).state() == old(self).state().push(value),
    {
        let address = 0x100 + self.registers.stack_pointer as u16;
        self.write(address, value);
        self.registers.stack_pointer = self.registers.stack_pointer.wrapping_sub(1);
    }

    /// Moves the stack pointer up, with wrap-around, then reads at `0x100 | sp`.
    pub fn pop(&mut self) -> (r: u8)
        requires
            old(self).wf(),
        ensures
            final(self).wf(),
            r == old(self).state().stack_top(),
            final(self).state() == old(self).state().pull(),
    {
        self.registers.stack_pointer = self.registers.stack_pointer.wrapping_add(1);
        let address = 0x100 + self.registers.stack_pointer as u16;
        self.read(address)
    }

    /// Push accumulator.
    pub fn pha(&mut self)
        requires
            old(self).wf(),
        ensures
            final(self).wf(),
            final(self).state() == old(self).state().push(old(self).registers.accumulator),
    {
        let a = self.registers.accumulator;
        self.push(a)
    }

    /// Push processor status, with Break set in the pushed copy only.
    pub fn php(&mut self)
        requires
            old(self).wf(),
        ensures
            final(self).wf(),
            final(self).state() == old(self).state().php(),
    {
        let copy = self.registers.status.flags | 0x10;
        self.push(copy)
    }

    /// Pull accumulator.
    pub fn pla(&mut self)
        requires
            old(self).wf(),
        ensures
            final(self).wf(),
            final(self).state() == old(self).state().pull().set_a(
                old(self).state().stack_top(),
            ).set_zn(old(self).state().stack_top()),
    {
        self.registers.accumulator = self.pop();
        self.registers.status.update_zero_negative(self.registers.accumulator);
    }

    /// Pull processor status; the Reserved bit is set whatever was pulled.
    pub fn plp(&mut self)
        requires
            old(self).wf(),
        ensures
            final(self).wf(),
            final(self).state() == old(self).state().plp(),
    {
        let c = self.pop();
        self.registers.status.load_from(c);
    }
}

} // verus!
