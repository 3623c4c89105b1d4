use vstd::prelude::*;

use crate::emulator::addressing::AddressMode;
use crate::emulator::Emulator;
use crate::memory::Memory;

verus! {

impl<C: Memory> Emulator<C> {
    /// Jump to the address that `address_mode` resolves to.
    pub fn jmp(&mut self, address_mode: AddressMode)
        requires
            old(self).wf(),
        ensures
            final(self).wf(),
            final(self).state() == old(self).state().set_pc(
                old(self).state().operand_address(address_mode),
            ),
    {
        let address = self.address(address_mode);
        self.registers.program_counter = address;
    }

    /// Jump to subroutine: pushes the address of the last byte of the instruction.
    pub fn jsr(&mut self)
        requires
            old(self).wf(),
        ensures
            final(self).wf(),
            final(self).state() == old(self).state().jsr(),
    {
        let pc = self.registers.program_counter;
        self.push_pc(pc.wrapping_add(1));
        self.registers.program_counter = self.address_absolute();
    }

    /// Return from subroutine: to the pulled address plus one.
    pub fn rts(&mut self)
        requires
            old(self).wf(),
        ensures
            final(self).wf(),
            final(self).state() == old(self).state().rts(),
    {
        let pc = self.pull_pc();
        self.registers.program_counter = pc.wrapping_add(1);
    }
}

} // verus!
