use vstd::prelude::*;


use crate::emulator::RESET_VECTOR_ADDR;
use crate::memory::Memory;

verus! {

/// Number of addressable bytes.
pub const SIZE: usize = 0x10000;

/// Flat 64 KiB of RAM.
pub struct DefaultMemory {
    pub memory: [u8; SIZE],
}

impl Memory for DefaultMemory {
    open spec fn peek(&self, address: u16) -> u8 {
        self.memory@[address as int]
    }

    fn read(&self, address: u16) -> (value: u8) {
        self.memory[address as usize]
    }

    fn write(&mut self, address: u16, value: u8) {
        self.memory[address as usize] = value;
    }
}

impl DefaultMemory {
    /// Memory that holds zero everywhere.
    pub fn empty() -> (r: DefaultMemory)
        ensures
            forall|a: u16| #[trigger] r.peek(a) == 0,
    {
        DefaultMemory { memory: vstd::array::array_fill_for_copy_types(0u8) }
    }

    /// Copies `instructions` into memory from `start_location` on.
    pub fn load(&mut self, instructions: Vec<u8>, start_location: usize)
        requires
            start_location + instructions.len() <= SIZE,
        ensures
            forall|i: int|
                0 <= i < SIZE ==> #[trigger] final(self).memory@[i] == if start_location <= i
                    < start_location + instructions.len() {
                    instructions@[i - start_location]
                } else {
                    old(self).memory@[i]
                },
    {
        let mut i: usize = 0;
        while i < instructions.len()
            invariant
                i <= instructions.len(),
                start_location + instructions.len() <= SIZE,
                forall|j: int|
                    0 <= j < SIZE ==> #[trigger] self.memory@[j] == if start_location <= j
                        < start_location + i {
                        instructions@[j - start_location]
                    } else {
                        old(self).memory@[j]
                    },
            decreases instructions.len() - i,
        {
            self.memory[start_location + i] = instructions[i];
            i = i + 1;
        }
    }

    /// Writes `pc` to the reset vector, so that the processor starts there.
    pub fn set_program_counter(&mut self, pc: u16)
        ensures
            final(self).peek(RESET_VECTOR_ADDR) == pc % 256,
            final(self).peek((RESET_VECTOR_ADDR + 1) as u16) == pc / 256,
            forall|a: u16|
                a != RESET_VECTOR_ADDR && a != RESET_VECTOR_ADDR + 1 ==> #[trigger] final(self).peek(a)
                    == old(self).peek(a),
    {
        self.memory[RESET_VECTOR_ADDR as usize] = (pc & 0xFF) as u8;
        self.memory[(RESET_VECTOR_ADDR + 1) as usize] = (pc >> 8) as u8;
        assert((pc & 0xFF) as u8 == pc % 256 && (pc >> 8) as u8 == pc / 256) by (bit_vector);
    }
}

} // verus!
