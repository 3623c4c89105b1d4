use vstd::prelude::*;

use crate::emulator::addressing::AddressMode;
use crate::emulator::model::sbc_operand;
use crate::emulator::registers::Flag;
use crate::emulator::Emulator;
use crate::memory::Memory;

verus! {

impl<C: Memory> Emulator<C> {
    /// Adds `value` and the carry to the accumulator, in BCD when Decimal is set.
    pub fn adc_value(&mut self, value: u8)
        requires
            old(self).wf(),
        ensures
            final(self).wf(),
            final(self).state() == old(self).state().adc_value(value),
    {
        let carry: u16 = if self.registers.status.get(Flag::Carry) {
            1
        } else {
            0
        };
        let a = self.registers.accumulator;

        // Split into low and high nibbles.
        let mut result_least_significant: u16 = (a as u16 % 16) + (value as u16 % 16) + carry;
        let mut result_most_significant: u16 = (a as u16 / 16) * 16 + (value as u16 / 16) * 16;

        // Correct both digits for BCD.
        if self.registers.status.get(Flag::Decimal) {
            if result_least_significant > 0x09 {
                result_least_significant = (result_least_significant + 0x06) % 16;
                result_most_significant = result_most_significant + 0x10;
            }
            if result_most_significant > 0x90 {
                result_most_significant = result_most_significant + 0x60;
            }
        }
        let result_intermediate = result_least_significant + result_most_significant;

        self.registers.status.update_carry(result_intermediate);
        self.registers.status.update_overflow(a, value, result_intermediate);

        let result = (result_intermediate % 256) as u8;
        self.registers.accumulator = result;
        self.registers.status.update_zero_negative(result);
    }

    /// Add with carry.
    pub fn adc(&mut self, address_mode: AddressMode)
        requires
            old(self).wf(),
        ensures
            final(self).wf(),
            final(self).state() == old(self).state().adc(address_mode),
    {
        let addr = self.address(address_mode);
        let value = self.read(addr);
        self.adc_value(value);
    }

    /// Subtract with carry: adds the one's complement of the operand.
    pub fn sbc(&mut self, address_mode: AddressMode)
        requires
            old(self).wf(),
        ensures
            final(self).wf(),
            final(self).state() == old(self).state().sbc(address_mode),
    {
        let addr = self.address(address_mode);
        let m = self.read(addr);
        let mut value = m ^ 0xFF;
        assert(m ^ 0xFFu8 == (0xFFu8 - m) as u8) by (bit_vector);
        if self.registers.status.get(Flag::Decimal) {
            // Nine's complement.
            value = value.wrapping_sub(0x66);
        }
        assert(value == sbc_operand(m, self.registers.status.flag(Flag::Decimal)));
        self.adc_value(value);
    }

    /// Compares `register_value` with the operand.
    pub fn cmp_value(&mut self, address_mode: AddressMode, register_value: u8)
        requires
            old(self).wf(),
        ensures
            final(self).wf(),
            final(self).state() == old(self).state().compare(address_mode, register_value),
    {
        let addr = self.address(address_mode);
        let value = self.read(addr);

        self.registers.status.set_to(Flag::Carry, register_value >= value);
        let difference = register_value.wrapping_sub(value);
        self.registers.status.update_zero_negative(difference);
    }

    /// Compare accumulator.
    pub fn cmp(&mut self, address_mode: AddressMode)
        requires
            old(self).wf(),
        ensures
            final(self).wf(),
            final(self).state() == old(self).state().compare(
                address_mode,
                old(self).registers.accumulator,
            ),
    {
        let r = self.registers.accumulator;
        self.cmp_value(address_mode, r);
    }

    /// Compare X register.
    pub fn cpx(&mut self, address_mode: AddressMode)
        requires
            old(self).wf(),
        ensures
            final(self).wf(),
            final(self).state() == old(self).state().compare(address_mode, old(self).registers.x),
    {
        let r = self.registers.x;
        self.cmp_value(address_mode, r);
    }

    /// Compare Y register.
    pub fn cpy(&mut self, address_mode: AddressMode)
        requires
            old(self).wf(),
        ensures
            final(self).wf(),
            final(self).state() == old(self).state().compare(address_mode, old(self).registers.y),
    {
        let r = self.registers.y;
        self.cmp_value(address_mode, r);
    }
}

} // verus!
