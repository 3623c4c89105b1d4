use vstd::prelude::*;

pub mod default;

verus! {

/// Byte-addressable memory as seen by the processor.
///
/// `peek` is the byte that a read of an address gives. Reading leaves the memory
/// unchanged, and a write changes the byte at its own address only.
///
/// So a read has no side effect here: a device whose reads change what it holds (a
/// random-number register, a read-to-clear latch) is not such a memory as it stands. Its
/// host can instead update the device's bytes by writes between instructions, for example
/// storing a fresh random byte before each step.
pub trait Memory: Sized {
    spec fn peek(&self, address: u16) -> u8;

    fn read(&self, address: u16) -> (value: u8)
        ensures
            value == self.peek(address),
    ;

    fn write(&mut self, address: u16, value: u8)
        ensures
            forall|a: u16| #[trigger]
                final(self).peek(a) == if a == address {
                    value
                } else {
                    old(self).peek(a)
                },
    ;
}

} // verus!
