use vstd::prelude::*;

use crate::emulator::registers::Flag;
use crate::emulator::Emulator;
use crate::memory::Memory;

verus! {

impl<C: Memory> Emulator<C> {
    /// Clear carry.
    pub fn clc(&mut self)
        requires
            old(self).wf(),
        ensures
            final(self).wf(),
            final(self).state() == old(self).state().set_flag(Flag::Carry, false),
    {
        self.registers.status.clear(Flag::Carry);
    }

    /// Clear decimal.
    pub fn cld(&mut self)
        requires
            old(self).wf(),
        ensures
            final(self).wf(),
            final(self).state() == old(self).state().set_flag(Flag::Decimal, false),
    {
        self.registers.status.clear(Flag::Decimal);
    }

    /// Clear interrupt disable.
    pub fn cli(&mut self)
        requires
            old(self).wf(),
        ensures
            final(self).wf(),
            final(self).state() == old(self).state().set_flag(Flag::Interrupt, false),
    {
        self.registers.status.clear(Flag::Interrupt);
    }

    /// Clear overflow.
    pub fn clv(&mut self)
        requires
            old(self).wf(),
        ensures
            final(self).wf(),
            final(self).state() == old(self).state().set_flag(Flag::Overflow, false),
    {
        self.registers.status.clear(Flag::Overflow);
    }

    /// Set carry.
    pub fn sec(&mut self)
        requires
            old(self).wf(),
        ensures
            final(self).wf(),
            final(self).state() == old(self).state().set_flag(Flag::Carry, true),
    {
        self.registers.status.set(Flag::Carry);
    }

    /// Set decimal.
    pub fn sed(&mut self)
        requires
            old(self).wf(),
        ensures
            final(self).wf(),
            final(self).state() == old(self).state().set_flag(Flag::Decimal, true),
    {
        self.registers.status.set(Flag::Decimal);
    }

    /// Set interrupt disable.
    pub fn sei(&mut self)
        requires
            old(self).wf(),
        ensures
            final(self).wf(),
            final(self).state() == old(self).state().set_flag(Flag::Interrupt, true),
    {
        self.registers.status.set(Flag::Interrupt);
    }
}

} // verus!
