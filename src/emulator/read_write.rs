use vstd::prelude::*;

use crate::emulator::Emulator;
use crate::memory::Memory;

verus! {

impl<C: Memory> Emulator<C> {
    /// The little-endian word whose bytes are at the two addresses.
    pub fn read_two(&self, address_least_significant: u16, address_most_significant: u16) -> (r:
        u16)
        ensures
            r == self.state().word_at(address_least_significant, address_most_significant),
    {
        let hi = self.read(address_most_significant);
        let lo = self.read(address_least_significant);
        assert((((hi as u16) << 8u16) | (lo as u16)) == (lo as u16) + (hi as u16) * 256)
            by (bit_vector);
        ((hi as u16) << 8) | (lo as u16)
    }

    pub fn read(&self, address: u16) -> (r: u8)
        ensures
            r == self.state().byte(address),
    {
        self.memory.read(address)
    }

    pub fn write(&mut self, address: u16, value: u8)
        ensures
            final(self).state() == old(self).state().store(address, value),
            final(self).registers == old(self).registers,
    {
        self.memory.write(address, value);
        assert(self.mem() =~= old(self).mem().insert(address, value));
    }
}

} // verus!
