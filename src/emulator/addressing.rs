use vstd::prelude::*;

use crate::emulator::model::{indirect_high, sign_extend};
use crate::emulator::Emulator;
use crate::memory::Memory;

verus! {

/// How an instruction finds its operand.
#[derive(Debug, Copy, Clone, PartialEq, Eq, Structural)]
pub enum AddressMode {
    Immediate,
    ZeroPage,
    ZeroPageX,
    ZeroPageY,
    Relative,
    Absolute,
    AbsoluteX,
    AbsoluteY,
    Indirect,
    IndexedIndirect,
    IndirectIndexed,
    /// No operand.
    Implied,
    /// The accumulator is the operand.
    Accumulator,
}

impl<C: Memory> Emulator<C> {
    /// The zero-page byte at the program counter, which is consumed.
    pub fn address_zero_page(&mut self) -> (r: u16)
        ensures
            r == old(self).state().operand_address(AddressMode::ZeroPage),
            r < 0x100,
            final(self).state() == old(self).state().after_operand(AddressMode::ZeroPage),
    {
        let immediate_address = self.address_immediate();
        self.read(immediate_address) as u16
    }

    /// The zero-page byte at the program counter plus `offset`, wrapped within page zero.
    pub fn address_zero_page_offset(&mut self, offset: u8) -> (r: u16)
        ensures
            r == (old(self).state().byte(old(self).registers.program_counter) as int + offset as int)
                % 256,
            r < 0x100,
            final(self).state() == old(self).state().after_operand(AddressMode::ZeroPage),
    {
        let address = self.address_zero_page() + offset as u16;
        address % 0x100
    }

    pub fn address_zero_page_offset_x(&mut self) -> (r: u16)
        ensures
            r == old(self).state().operand_address(AddressMode::ZeroPageX),
            r < 0x100,
            final(self).state() == old(self).state().after_operand(AddressMode::ZeroPageX),
    {
        let x = self.registers.x;
        self.address_zero_page_offset(x)
    }

    pub fn address_zero_page_offset_y(&mut self) -> (r: u16)
        ensures
            r == old(self).state().operand_address(AddressMode::ZeroPageY),
            r < 0x100,
            final(self).state() == old(self).state().after_operand(AddressMode::ZeroPageY),
    {
        let y = self.registers.y;
        self.address_zero_page_offset(y)
    }

    /// The operand is the byte at the program counter itself, which is consumed.
    pub fn address_immediate(&mut self) -> (r: u16)
        ensures
            r == old(self).state().operand_address(AddressMode::Immediate),
            final(self).state() == old(self).state().after_operand(AddressMode::Immediate),
    {
        let v = self.registers.program_counter;
        self.registers.program_counter = v.wrapping_add(1);
        v
    }

    /// The signed displacement at the program counter, widened to 16 bits.
    pub fn address_relative(&mut self) -> (r: u16)
        ensures
            r == old(self).state().operand_address(AddressMode::Relative),
            final(self).state() == old(self).state().after_operand(AddressMode::Relative),
    {
        let immediate_address = self.address_immediate();
        let b = self.read(immediate_address);
        let r = b as i8 as u16;
        assert(r == sign_extend(b)) by {
            assert((b as i8 as u16) == if b >= 0x80u8 {
                ((b as u16) + 0xFF00u16) as u16
            } else {
                b as u16
            }) by (bit_vector);
        }
        r
    }

    /// The full 16-bit address stored after the opcode.
    pub fn address_absolute(&mut self) -> (r: u16)
        ensures
            r == old(self).state().operand_address(AddressMode::Absolute),
            final(self).state() == old(self).state().after_operand(AddressMode::Absolute),
    {
        let least = self.address_immediate();
        let most = self.address_immediate();
        self.read_two(least, most)
    }

    pub fn address_absolute_x(&mut self) -> (r: u16)
        ensures
            r == old(self).state().operand_address(AddressMode::AbsoluteX),
            final(self).state() == old(self).state().after_operand(AddressMode::AbsoluteX),
    {
        let a = self.address_absolute();
        a.wrapping_add(self.registers.x as u16)
    }

    pub fn address_absolute_y(&mut self) -> (r: u16)
        ensures
            r == old(self).state().operand_address(AddressMode::AbsoluteY),
            final(self).state() == old(self).state().after_operand(AddressMode::AbsoluteY),
    {
        let a = self.address_absolute();
        a.wrapping_add(self.registers.y as u16)
    }

    /// The pointer at the absolute address, read as the chip does: the high byte comes
    /// from the start of the same page when the low byte ends a page.
    pub fn address_indirect(&mut self) -> (r: u16)
        ensures
            r == old(self).state().operand_address(AddressMode::Indirect),
            final(self).state() == old(self).state().after_operand(AddressMode::Indirect),
    {
        let least_significant = self.address_absolute();
        let high = (least_significant & 0xFF00) | (least_significant.wrapping_add(1) % 0x100);
        assert(high == indirect_high(least_significant)) by {
            let p = least_significant;
            assert((p & 0xFF00u16) | ((if p == 0xFFFFu16 { 0u16 } else { (p + 1) as u16 })
                % 0x100u16) == (p / 256u16) * 256u16 + (if p == 0xFFFFu16 {
                0u16
            } else {
                (p + 1) as u16
            }) % 256u16) by (bit_vector);
        }
        self.read_two(least_significant, high)
    }

    pub fn address_indexed_indirect(&mut self) -> (r: u16)
        ensures
            r == old(self).state().operand_address(AddressMode::IndexedIndirect),
            final(self).state() == old(self).state().after_operand(AddressMode::IndexedIndirect),
    {
        let least_significant = self.address_zero_page_offset_x();
        let most_significant = (least_significant + 1) % 0x100;
        self.read_two(least_significant, most_significant)
    }

    pub fn address_indirect_indexed(&mut self) -> (r: u16)
        ensures
            r == old(self).state().operand_address(AddressMode::IndirectIndexed),
            final(self).state() == old(self).state().after_operand(AddressMode::IndirectIndexed),
    {
        let least_significant = self.address_zero_page();
        let most_significant = (least_significant + 1) % 0x100;
        let base = self.read_two(least_significant, most_significant);
        base.wrapping_add(self.registers.y as u16)
    }

    /// Resolves `address_mode` at the program counter and consumes its operand bytes.
    /// Implied and accumulator modes consume nothing and give the program counter.
    pub fn address(&mut self, address_mode: AddressMode) -> (r: u16)
        ensures
            r == old(self).state().operand_address(address_mode),
            final(self).state() == old(self).state().after_operand(address_mode),
    {
        match address_mode {
            AddressMode::Immediate => self.address_immediate(),
            AddressMode::ZeroPage => self.address_zero_page(),
            AddressMode::ZeroPageX => self.address_zero_page_offset_x(),
            AddressMode::ZeroPageY => self.address_zero_page_offset_y(),
            AddressMode::Relative => self.address_relative(),
            AddressMode::Absolute => self.address_absolute(),
            AddressMode::AbsoluteX => self.address_absolute_x(),
            AddressMode::AbsoluteY => self.address_absolute_y(),
            AddressMode::Indirect => self.address_indirect(),
            AddressMode::IndexedIndirect => self.address_indexed_indirect(),
            AddressMode::IndirectIndexed => self.address_indirect_indexed(),
            AddressMode::Implied | AddressMode::Accumulator => self.registers.program_counter,
        }
    }
}

} // verus!
