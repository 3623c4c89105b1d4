use vstd::prelude::*;

use crate::emulator::addressing::AddressMode;
use crate::emulator::Emulator;
use crate::memory::Memory;

verus! {

impl<C: Memory> Emulator<C> {
    /// Adds one to, or takes one from, the operand in memory, with wrap-around.
    fn inc_dec(&mut self, address_mode: AddressMode, increment: bool)
        requires
            old(self).wf(),
        ensures
            final(self).wf(),
            final(self).state() == old(self).state().step_mem(
                address_mode,
                if increment {
                    1
                } else {
                    -1
                },
            ),
    {
        let address = self.address(address_mode);
        let value = self.read(address);
        let result = if increment {
            value.wrapping_add(1)
        } else {
            value.wrapping_sub(1)
        };
        self.registers.status.update_zero_negative(result);
        self.write(address, result)
    }

    /// Increment memory.
    pub fn inc(&mut self, address_mode: AddressMode)
        requires
            old(self).wf(),
        ensures
            final(self).wf(),
            final(self).state() == old(self).state().step_mem(address_mode, 1),
    {
        self.inc_dec(address_mode, true)
    }

    /// Decrement memory.
    pub fn dec(&mut self, address_mode: AddressMode)
        requires
            old(self).wf(),
        ensures
            final(self).wf(),
            final(self).state() == old(self).state().step_mem(address_mode, -1),
    {
        self.inc_dec(address_mode, false)
    }

    /// Increment X.
    pub fn inx(&mut self)
        requires
            old(self).wf(),
        ensures
            final(self).wf(),
            final(self).state() == old(self).state().set_x(
                ((old(self).registers.x + 1) % 256) as u8,
            ).set_zn(((old(self).registers.x + 1) % 256) as u8),
    {
        self.registers.x = self.registers.x.wrapping_add(1);
        self.registers.status.update_zero_negative(self.registers.x);
    }

    /// Increment Y.
    pub fn iny(&mut self)
        requires
            old(self).wf(),
        ensures
            final(self).wf(),
            final(self).state() == old(self).state().set_y(
                ((old(self).registers.y + 1) % 256) as u8,
            ).set_zn(((old(self).registers.y + 1) % 256) as u8),
    {
        self.registers.y = self.registers.y.wrapping_add(1);
        self.registers.status.update_zero_negative(self.registers.y);
    }

    /// Decrement X.
    pub fn dex(&mut self)
        requires
            old(self).wf(),
        ensures
            final(self).wf(),
            final(self).state() == old(self).state().set_x(
                ((old(self).registers.x - 1) % 256) as u8,
            ).set_zn(((old(self).registers.x - 1) % 256) as u8),
    {
        self.registers.x = self.registers.x.wrapping_sub(1);
        self.registers.status.update_zero_negative(self.registers.x);
    }

    /// Decrement Y.
    pub fn dey(&mut self)
        requires
            old(self).wf(),
        ensures
            final(self).wf(),
            final(self).state() == old(self).state().set_y(
                ((old(self).registers.y - 1) % 256) as u8,
            ).set_zn(((old(self).registers.y - 1) % 256) as u8),
    {
        self.registers.y = self.registers.y.wrapping_sub(1);
        self.registers.status.update_zero_negative(self.registers.y);
    }
}

} // verus!
