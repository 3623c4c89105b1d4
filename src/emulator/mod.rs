use vstd::prelude::*;

use crate::emulator::instructions::dispatch::decode;
use crate::emulator::model::Machine;
use crate::emulator::registers::{Flag, Registers};
use crate::memory::Memory;

pub mod addressing;
pub mod instructions;
pub mod laws;
pub mod model;
pub mod read_write;
pub mod registers;

verus! {

/// Address of the low byte of the NMI vector.
pub const NMI_VECTOR_ADDR: u16 = 0xfffa;

/// Address of the low byte of the reset vector.
pub const RESET_VECTOR_ADDR: u16 = 0xfffc;

/// Address of the low byte of the IRQ and BRK vector.
pub const INT_VECTOR_ADDR: u16 = 0xfffe;

/// An opcode byte that is not in the opcode table, and where it was found.
#[derive(Debug, Clone, Copy, PartialEq, Eq, Structural)]
pub struct UnknownOpcode {
    pub opcode: u8,
    pub program_counter: u16,
}

/// A 6502 processor attached to a memory.
pub struct Emulator<C: Memory> {
    pub registers: Registers,
    pub memory: C,
    /// The interrupt request line; the memory's peripherals clear it.
    pub irq: bool,
    /// The non-maskable interrupt latch; the processor clears it when it serves it.
    pub nmi: bool,
}

impl<C: Memory> Emulator<C> {
    /// All of memory, as the processor reads it.
    pub open spec fn mem(&self) -> Map<u16, u8> {
        Map::new(|a: u16| true, |a: u16| self.memory.peek(a))
    }

    pub open spec fn state(&self) -> Machine {
        Machine { registers: self.registers, memory: self.mem(), irq: self.irq, nmi: self.nmi }
    }

    /// The Reserved status bit is set.
    pub open spec fn wf(&self) -> bool {
        self.registers.wf()
    }

    /// A processor after reset: I set, both interrupt latches clear, SP at 0xFF and PC
    /// taken from the reset vector.
    pub fn new(memory: C) -> (r: Emulator<C>)
        ensures
            r.wf(),
            r.memory == memory,
            !r.irq,
            !r.nmi,
            r.registers.stack_pointer == 0xFF,
            r.registers.accumulator == 0,
            r.registers.x == 0,
            r.registers.y == 0,
            r.registers.status.flags == 0b00100100,
            r.registers.program_counter == r.state().word_at(
                RESET_VECTOR_ADDR,
                (RESET_VECTOR_ADDR + 1) as u16,
            ),
    {
        let mut emulator = Emulator { registers: Registers::new(), memory, irq: false, nmi: false };
        emulator.reset();
        emulator
    }

    /// Serves a pending interrupt, or runs the instruction at the program counter.
    /// An opcode outside the opcode table leaves the machine as it was and is returned as
    /// the error.
    pub fn execute_next(&mut self) -> (r: Result<(), UnknownOpcode>)
        requires
            old(self).wf(),
        ensures
            final(self).wf(),
            match old(self).state().step() {
                Some(next) => r == Ok::<(), UnknownOpcode>(()) && final(self).state() == next,
                None => r == Err::<(), UnknownOpcode>(
                    UnknownOpcode {
                        opcode: old(self).state().byte(old(self).registers.program_counter),
                        program_counter: old(self).registers.program_counter,
                    },
                ) && final(self).state() == old(self).state(),
            },
    {
        // Hardware interrupts come first.
        if self.nmi {
            self.nmi();
            return Ok(());
        } else if self.irq && !self.registers.status.get(Flag::Interrupt) {
            self.irq();
            return Ok(());
        }
        let pc = self.registers.program_counter;
        let opcode = self.read(pc);
        match decode(opcode) {
            Some(instruction) => {
                self.registers.program_counter = pc.wrapping_add(1);
                instruction.run(self);
                Ok(())
            },
            None => Err(UnknownOpcode { opcode, program_counter: pc }),
        }
    }

    fn reset(&mut self)
        requires
            old(self).wf(),
            old(self).registers.status.flags == 0b00100000,
        ensures
            final(self).wf(),
            final(self).memory == old(self).memory,
            final(self).registers.stack_pointer == old(self).registers.stack_pointer,
            final(self).registers.accumulator == old(self).registers.accumulator,
            final(self).registers.x == old(self).registers.x,
            final(self).registers.y == old(self).registers.y,
            final(self).registers.status.flags == 0b00100100,
            final(self).registers.program_counter == old(self).state().word_at(
                RESET_VECTOR_ADDR,
                (RESET_VECTOR_ADDR + 1) as u16,
            ),
            !final(self).irq,
            !final(self).nmi,
    {
        self.nmi = false;
        self.irq = false;
        self.registers.status.set(Flag::Interrupt);
        assert(0b00100000u8 | (1u8 << 2u8) == 0b00100100u8) by (bit_vector);
        self.registers.program_counter = self.read_two(RESET_VECTOR_ADDR, RESET_VECTOR_ADDR + 1);
    }
}

/// The low and the high byte of `value`.
pub fn bytes_little_endian(value: u16) -> (r: (u8, u8))
    ensures
        r.0 == value % 256,
        r.1 == value / 256,
{
    let least = value & 0x00FF;
    let most = (value & 0xFF00) >> 8;
    assert(value & 0x00FF == value % 256 && (value & 0xFF00) >> 8 == value / 256) by (bit_vector);
    (least as u8, most as u8)
}

} // verus!
