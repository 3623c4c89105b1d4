use vstd::prelude::*;

use crate::emulator::addressing::AddressMode;
use crate::emulator::instructions::Op;
use crate::emulator::model::{
    asl_value, lsr_value, rol_value, ror_value, shift_carry, shift_result,
};
use crate::emulator::registers::Flag;
use crate::emulator::Emulator;
use crate::memory::Memory;

verus! {

pub open spec fn is_shift(op: Op) -> bool {
    op == Op::ASL || op == Op::LSR || op == Op::ROL || op == Op::ROR
}

impl<C: Memory> Emulator<C> {
    /// Applies the shift or rotate `op` to `value`, setting the flags; returns the result.
    fn shift(&mut self, op: Op, value: u8) -> (r: u8)
        requires
            old(self).wf(),
            is_shift(op),
        ensures
            final(self).wf(),
            r == shift_result(op, value, old(self).state().flag(Flag::Carry)),
            final(self).state() == old(self).state().shifted(r, shift_carry(op, value)),
    {
        match op {
            Op::ASL => self.asl(value),
            Op::LSR => self.lsr(value),
            Op::ROL => self.rol(value),
            _ => self.ror(value),
        }
    }

    fn shift_accumulator(&mut self, op: Op)
        requires
            old(self).wf(),
            is_shift(op),
        ensures
            final(self).wf(),
            final(self).state() == old(self).state().shift_acc(op),
    {
        let value = self.registers.accumulator;
        let result = self.shift(op, value);
        self.registers.accumulator = result;
    }

    fn shift_address(&mut self, address_mode: AddressMode, op: Op)
        requires
            old(self).wf(),
            is_shift(op),
        ensures
            final(self).wf(),
            final(self).state() == old(self).state().shift_mem(op, address_mode),
    {
        let address = self.address(address_mode);
        let value = self.read(address);
        let result = self.shift(op, value);
        self.write(address, result);
    }

    fn asl(&mut self, value: u8) -> (r: u8)
        requires
            old(self).wf(),
        ensures
            final(self).wf(),
            r == asl_value(value),
            final(self).state() == old(self).state().shifted(r, value >= 0x80),
    {
        let result_intermediate = (value as u16) * 2;
        self.registers.status.update_carry(result_intermediate);
        let result = (result_intermediate % 256) as u8;
        self.registers.status.update_zero_negative(result);
        result
    }

    /// Arithmetic shift left on accumulator.
    pub fn asl_acc(&mut self)
        requires
            old(self).wf(),
        ensures
            final(self).wf(),
            final(self).state() == old(self).state().shift_acc(Op::ASL),
    {
        self.shift_accumulator(Op::ASL);
    }

    /// Arithmetic shift left.
    pub fn asl_mem(&mut self, address_mode: AddressMode)
        requires
            old(self).wf(),
        ensures
            final(self).wf(),
            final(self).state() == old(self).state().shift_mem(Op::ASL, address_mode),
    {
        self.shift_address(address_mode, Op::ASL);
    }

    fn lsr(&mut self, value: u8) -> (r: u8)
        requires
            old(self).wf(),
        ensures
            final(self).wf(),
            r == lsr_value(value),
            final(self).state() == old(self).state().shifted(r, value % 2 == 1),
    {
        let new_carry_flag_value = value % 2 == 1;
        let result = value / 2;
        self.registers.status.set_to(Flag::Carry, new_carry_flag_value);
        self.registers.status.update_zero_negative(result);
        result
    }

    /// Logical shift right on accumulator.
    pub fn lsr_acc(&mut self)
        requires
            old(self).wf(),
        ensures
            final(self).wf(),
            final(self).state() == old(self).state().shift_acc(Op::LSR),
    {
        self.shift_accumulator(Op::LSR);
    }

    /// Logical shift right.
    pub fn lsr_mem(&mut self, address_mode: AddressMode)
        requires
            old(self).wf(),
        ensures
            final(self).wf(),
            final(self).state() == old(self).state().shift_mem(Op::LSR, address_mode),
    {
        self.shift_address(address_mode, Op::LSR);
    }

    fn rol(&mut self, value: u8) -> (r: u8)
        requires
            old(self).wf(),
        ensures
            final(self).wf(),
            r == rol_value(value, old(self).state().flag(Flag::Carry)),
            final(self).state() == old(self).state().shifted(r, value >= 0x80),
    {
        let new_carry_flag_value = value >= 0x80;
        let carry: u16 = if self.registers.status.get(Flag::Carry) {
            1
        } else {
            0
        };
        let result = ((value as u16 * 2) % 256 + carry) as u8;
        self.registers.status.set_to(Flag::Carry, new_carry_flag_value);
        self.registers.status.update_zero_negative(result);
        result
    }

    /// Rotate left on accumulator.
    pub fn rol_acc(&mut self)
        requires
            old(self).wf(),
        ensures
            final(self).wf(),
            final(self).state() == old(self).state().shift_acc(Op::ROL),
    {
        self.shift_accumulator(Op::ROL);
    }

    /// Rotate left.
    pub fn rol_mem(&mut self, address_mode: AddressMode)
        requires
            old(self).wf(),
        ensures
            final(self).wf(),
            final(self).state() == old(self).state().shift_mem(Op::ROL, address_mode),
    {
        self.shift_address(address_mode, Op::ROL);
    }

    fn ror(&mut self, value: u8) -> (r: u8)
        requires
            old(self).wf(),
        ensures
            final(self).wf(),
            r == ror_value(value, old(self).state().flag(Flag::Carry)),
            final(self).state() == old(self).state().shifted(r, value % 2 == 1),
    {
        let new_carry_flag_value = value % 2 == 1;
        let carry: u8 = if self.registers.status.get(Flag::Carry) {
            128
        } else {
            0
        };
        let result = value / 2 + carry;
        self.registers.status.set_to(Flag::Carry, new_carry_flag_value);
        self.registers.status.update_zero_negative(result);
        result
    }

    /// Rotate right on accumulator.
    pub fn ror_acc(&mut self)
        requires
            old(self).wf(),
        ensures
            final(self).wf(),
            final(self).state() == old(self).state().shift_acc(Op::ROR),
    {
        self.shift_accumulator(Op::ROR);
    }

    /// Rotate right.
    pub fn ror_mem(&mut self, address_mode: AddressMode)
        requires
            old(self).wf(),
        ensures
            final(self).wf(),
            final(self).state() == old(self).state().shift_mem(Op::ROR, address_mode),
    {
        self.shift_address(address_mode, Op::ROR);
    }
}

} // verus!
