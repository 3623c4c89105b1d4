use vstd::prelude::*;

use crate::emulator::addressing::AddressMode;
use crate::emulator::instructions::Op;
use crate::emulator::registers::Flag;
use crate::emulator::Emulator;
use crate::memory::Memory;

verus! {

impl<C: Memory> Emulator<C> {
    /// AND, EOR or ORA of the operand into the accumulator.
    fn and_eor_ora(&mut self, address_mode: AddressMode, op: Op)
        requires
            old(self).wf(),
            op == Op::AND || op == Op::EOR || op == Op::ORA,
        ensures
            final(self).wf(),
            final(self).state() == if op == Op::AND {
                old(self).state().and(address_mode)
            } else if op == Op::EOR {
                old(self).state().eor(address_mode)
            } else {
                old(self).state().ora(address_mode)
            },
    {
        let address = self.address(address_mode);
        let r = self.read(address);
        let a = self.registers.accumulator;
        let v = match op {
            Op::AND => a & r,
            Op::EOR => a ^ r,
            _ => a | r,
        };
        self.registers.accumulator = v;
        self.registers.status.update_zero_negative(v);
    }

    /// Logical AND.
    pub fn and(&mut self, address_mode: AddressMode)
        requires
            old(self).wf(),
        ensures
            final(self).wf(),
            final(self).state() == old(self).state().and(address_mode),
    {
        self.and_eor_ora(address_mode, Op::AND);
    }

    /// Exclusive OR.
    pub fn eor(&mut self, address_mode: AddressMode)
        requires
            old(self).wf(),
        ensures
            final(self).wf(),
            final(self).state() == old(self).state().eor(address_mode),
    {
        self.and_eor_ora(address_mode, Op::EOR);
    }

    /// Inclusive OR.
    pub fn ora(&mut self, address_mode: AddressMode)
        requires
            old(self).wf(),
        ensures
            final(self).wf(),
            final(self).state() == old(self).state().ora(address_mode),
    {
        self.and_eor_ora(address_mode, Op::ORA);
    }

    /// Bit test: Zero from A AND M, Negative and Overflow from bits 7 and 6 of M.
    pub fn bit(&mut self, address_mode: AddressMode)
        requires
            old(self).wf(),
        ensures
            final(self).wf(),
            final(self).state() == old(self).state().bit(address_mode),
    {
        let address = self.address(address_mode);
        let value = self.read(address);

        let bit_and_acc_v = self.registers.accumulator & value;
        self.registers.status.update_zero(bit_and_acc_v);
        assert(((value & 0b10000000u8) != 0) == (value >= 0x80u8)) by (bit_vector);
        self.registers.status.set_to(Flag::Negative, (value & 0b10000000) != 0);
        self.registers.status.set_to(Flag::Overflow, (value & 0b01000000) != 0);
    }
}

} // verus!
