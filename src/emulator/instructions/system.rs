use vstd::prelude::*;

use crate::emulator::bytes_little_endian;
use crate::emulator::registers::Flag;
use crate::emulator::Emulator;
use crate::emulator::{INT_VECTOR_ADDR, NMI_VECTOR_ADDR};
use crate::memory::Memory;

verus! {

impl<C: Memory> Emulator<C> {
    /// Pulls a 16-bit address: low byte first.
    pub fn pull_pc(&mut self) -> (r: u16)
        requires
            old(self).wf(),
        ensures
            final(self).wf(),
            r == old(self).state().pulled_pc(),
            final(self).state() == old(self).state().pull_pc(),
    {
        let least_significant = self.pop() as u16;
        let most_significant = self.pop() as u16;
        assert(least_significant | (most_significant << 8u16) == least_significant
            + most_significant * 256) by (bit_vector)
            requires
                least_significant < 256,
                most_significant < 256,
        ;
        least_significant | (most_significant << 8)
    }

    /// Pushes a 16-bit address: high byte first.
    pub fn push_pc(&mut self, program_counter: u16)
        requires
            old(self).wf(),
        ensures
            final(self).wf(),
            final(self).state() == old(self).state().push_pc(program_counter),
    {
        let (least, most) = bytes_little_endian(program_counter);
        self.push(most);
        self.push(least);
    }

    /// No operation.
    pub fn nop(&self) {
    }

    /// Enters the handler whose address is at `vector`: pushes the return address and the
    /// status, sets Interrupt Disable and jumps.
    fn interrupt(&mut self, is_brk: bool, vector: u16)
        requires
            old(self).wf(),
        ensures
            final(self).wf(),
            final(self).state() == old(self).state().interrupt(is_brk, vector),
    {
        // BRK skips its signature byte.
        let pc = self.registers.program_counter;
        self.push_pc(pc.wrapping_add(if is_brk {
            1
        } else {
            0
        }));

        // BRK pushes the status with Break set, just like PHP; IRQ and NMI with Break clear.
        if is_brk {
            self.php()
        } else {
            let flags = (self.registers.status.flags | 0x20) & !0x10;
            assert(!0x10u8 == 0xEFu8) by (bit_vector);
            self.push(flags)
        }
        self.registers.status.set(Flag::Interrupt);

        let interrupt_handler_addr = self.read_two(vector, vector.wrapping_add(1));
        self.registers.program_counter = interrupt_handler_addr;
    }

    /// Force interrupt.
    pub fn brk(&mut self)
        requires
            old(self).wf(),
        ensures
            final(self).wf(),
            final(self).state() == old(self).state().interrupt(true, INT_VECTOR_ADDR),
    {
        self.interrupt(true, INT_VECTOR_ADDR);
    }

    /// Interrupt request; the request line stays as it is.
    pub fn irq(&mut self)
        requires
            old(self).wf(),
        ensures
            final(self).wf(),
            final(self).state() == old(self).state().interrupt(false, INT_VECTOR_ADDR),
    {
        self.interrupt(false, INT_VECTOR_ADDR);
    }

    /// Non-maskable interrupt; clears the latch.
    pub fn nmi(&mut self)
        requires
            old(self).wf(),
        ensures
            final(self).wf(),
            final(self).state() == old(self).state().serve_nmi(),
    {
        self.interrupt(false, NMI_VECTOR_ADDR);
        self.nmi = false;
    }

    /// Return from interrupt: pulls the status, then the program counter.
    pub fn rti(&mut self)
        requires
            old(self).wf(),
        ensures
            final(self).wf(),
            final(self).state() == old(self).state().rti(),
    {
        self.plp();
        self.registers.program_counter = self.pull_pc();
    }
}

} // verus!
