use vstd::prelude::*;

use crate::emulator::addressing::AddressMode;
use crate::emulator::registers::Flag;
use crate::emulator::Emulator;
use crate::memory::Memory;

verus! {

impl<C: Memory> Emulator<C> {
    /// Consumes the displacement; adds it to the program counter when `flag` is `branch_if`.
    pub fn branch(&mut self, flag: Flag, branch_if: bool)
        requires
            old(self).wf(),
        ensures
            final(self).wf(),
            final(self).state() == old(self).state().branch(flag, branch_if),
    {
        let displacement = self.address(AddressMode::Relative);
        if self.registers.status.get(flag) == branch_if {
            let next = self.registers.program_counter.wrapping_add(displacement);
            self.registers.program_counter = next;
        }
    }

    /// Branch if carry clear.
    pub fn bcc(&mut self)
        requires
            old(self).wf(),
        ensures
            final(self).wf(),
            final(self).state() == old(self).state().branch(Flag::Carry, false),
    {
        self.branch(Flag::Carry, false);
    }

    /// Branch if carry set.
    pub fn bcs(&mut self)
        requires
            old(self).wf(),
        ensures
            final(self).wf(),
            final(self).state() == old(self).state().branch(Flag::Carry, true),
    {
        self.branch(Flag::Carry, true);
    }

    /// Branch if equal.
    pub fn beq(&mut self)
        requires
            old(self).wf(),
        ensures
            final(self).wf(),
            final(self).state() == old(self).state().branch(Flag::Zero, true),
    {
        self.branch(Flag::Zero, true);
    }

    /// Branch if not equal.
    pub fn bne(&mut self)
        requires
            old(self).wf(),
        ensures
            final(self).wf(),
            final(self).state() == old(self).state().branch(Flag::Zero, false),
    {
        self.branch(Flag::Zero, false);
    }

    /// Branch if minus.
    pub fn bmi(&mut self)
        requires
            old(self).wf(),
        ensures
            final(self).wf(),
            final(self).state() == old(self).state().branch(Flag::Negative, true),
    {
        self.branch(Flag::Negative, true);
    }

    /// Branch if positive.
    pub fn bpl(&mut self)
        requires
            old(self).wf(),
        ensures
            final(self).wf(),
            final(self).state() == old(self).state().branch(Flag::Negative, false),
    {
        self.branch(Flag::Negative, false);
    }

    /// Branch if overflow clear.
    pub fn bvc(&mut self)
        requires
            old(self).wf(),
        ensures
            final(self).wf(),
            final(self).state() == old(self).state().branch(Flag::Overflow, false),
    {
        self.branch(Flag::Overflow, false);
    }

    /// Branch if overflow set.
    pub fn bvs(&mut self)
        requires
            old(self).wf(),
        ensures
            final(self).wf(),
            final(self).state() == old(self).state().branch(Flag::Overflow, true),
    {
        self.branch(Flag::Overflow, true);
    }
}

} // verus!
