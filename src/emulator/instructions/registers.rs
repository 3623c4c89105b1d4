use vstd::prelude::*;

use crate::emulator::Emulator;
use crate::memory::Memory;

verus! {

impl<C: Memory> Emulator<C> {
    /// Transfer accumulator to X.
    pub fn tax(&mut self)
        requires
            old(self).wf(),
        ensures
            final(self).wf(),
            final(self).state() == old(self).state().set_x(old(self).registers.accumulator).set_zn(
                old(self).registers.accumulator,
            ),
    {
        self.registers.x = self.registers.accumulator;
        self.registers.status.update_zero_negative(self.registers.x);
    }

    /// Transfer accumulator to Y.
    pub fn tay(&mut self)
        requires
            old(self).wf(),
        ensures
            final(self).wf(),
            final(self).state() == old(self).state().set_y(old(self).registers.accumulator).set_zn(
                old(self).registers.accumulator,
            ),
    {
        self.registers.y = self.registers.accumulator;
        self.registers.status.update_zero_negative(self.registers.y);
    }

    /// Transfer X to accumulator.
    pub fn txa(&mut self)
        requires
            old(self).wf(),
        ensures
            final(self).wf(),
            final(self).state() == old(self).state().set_a(old(self).registers.x).set_zn(
                old(self).registers.x,
            ),
    {
        self.registers.accumulator = self.registers.x;
        self.registers.status.update_zero_negative(self.registers.accumulator);
    }

    /// Transfer Y to accumulator.
    pub fn tya(&mut self)
        requires
            old(self).wf(),
        ensures
            final(self).wf(),
            final(self).state() == old(self).state().set_a(old(self).registers.y).set_zn(
                old(self).registers.y,
            ),
    {
        self.registers.accumulator = self.registers.y;
        self.registers.status.update_zero_negative(self.registers.accumulator);
    }
}

} // verus!
