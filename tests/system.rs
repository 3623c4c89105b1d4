#![allow(unused_imports)]
use emulator::emulator::addressing::AddressMode;
use emulator::emulator::registers::Flag::{
    Break, Carry, Decimal, Interrupt, Negative, Overflow, Reserved, Zero,
};
use emulator::emulator::registers::{Flag, Registers, Status};
use emulator::emulator::Emulator;
use emulator::emulator::{INT_VECTOR_ADDR, NMI_VECTOR_ADDR};
use emulator::memory::default::DefaultMemory;

#[allow(dead_code)]
type RegisterRead = fn(&Registers) -> u8;
#[allow(dead_code)]
type RegisterWrite = fn(&mut Registers, value: u8) -> ();

#[allow(dead_code)]
const READ_ACCUMULATOR: RegisterRead = |r| r.accumulator;
#[allow(dead_code)]
const READ_X: RegisterRead = |r| r.x;
#[allow(dead_code)]
const READ_Y: RegisterRead = |r| r.y;

#[allow(dead_code)]
const WRITE_ACCUMULATOR: RegisterWrite = |r, v| r.accumulator = v;
#[allow(dead_code)]
const WRITE_X: RegisterWrite = |r, v| r.x = v;
#[allow(dead_code)]
const WRITE_Y: RegisterWrite = |r, v| r.y = v;

#[allow(dead_code)]
type Instruction = for<'r> fn(&'r mut Emulator<DefaultMemory>) -> ();
#[allow(dead_code)]
type AddressInstruction = for<'r> fn(&'r mut Emulator<DefaultMemory>, AddressMode) -> ();

#[allow(dead_code)]
trait TestSetup {
    fn set_flags(&mut self, set: Vec<Flag>);
}

impl TestSetup for Emulator<DefaultMemory> {
    /// Sets the given flags and clears the others; Reserved stays set.
    fn set_flags(&mut self, set: Vec<Flag>) {
        [Carry, Zero, Interrupt, Decimal, Break, Overflow, Negative]
            .iter()
            .for_each(|f| {
                self.registers.status.set_to(*f, set.contains(f));
            });
    }
}

#[allow(dead_code)]
trait TestAssertions {
    fn assert_flags_set(&self, expected_set: Vec<Flag>);
}

impl TestAssertions for Emulator<DefaultMemory> {
    fn assert_flags_set(&self, expected_flags_set: Vec<Flag>) {
        [Carry, Zero, Interrupt, Decimal, Break, Overflow, Negative]
            .iter()
            .for_each(|f| {
                let expectation = expected_flags_set.contains(f);
                assert_eq!(
                    self.registers.status.get(*f),
                    expectation,
                    "Expectation for {:?} flag failed.",
                    f
                );
            });
    }
}

#[allow(dead_code)]
fn setup(flags: Vec<Flag>) -> Emulator<DefaultMemory> {
    let mut r = Registers::new();
    r.program_counter = 0x600;

    let mut c = Emulator {
        registers: r,
        memory: DefaultMemory::empty(),
        irq: false,
        nmi: false,
    };

    c.set_flags(flags);
    c
}

fn test_interrupt(
    e: &mut Emulator<DefaultMemory>,
    instruction: Instruction,
    irh_addr_least: u16,
) {
    e.registers.status.clear(Flag::Interrupt);
    e.registers.stack_pointer = 0xFF;

    // Interrupt request handler.
    e.memory.memory[irh_addr_least as usize] = 0x33;
    e.memory.memory[(irh_addr_least + 1) as usize] = 0x22;

    instruction(e);

    e.assert_flags_set(vec![Interrupt]);
    assert_eq!(0x2233, e.registers.program_counter); // Expect PC to match interrupt request handler.
}

#[test]
fn test_brk() {
    let mut e = setup(vec![]);

    test_interrupt(&mut e, Emulator::brk, INT_VECTOR_ADDR);

    assert_eq!(0x06, e.memory.memory[0x1FF]); // Most significant of 0x600.
    assert_eq!(0x01, e.memory.memory[0x1FE]); // Least significant.
    assert_eq!(0b00110000, e.memory.memory[0x1FD]); // Expect break and always on to be pushed as set.
}

#[test]
fn test_irq() {
    let mut e = setup(vec![]);
    e.irq = true;

    test_interrupt(&mut e, Emulator::irq, INT_VECTOR_ADDR);

    assert_eq!(true, e.irq);
    assert_eq!(0x06, e.memory.memory[0x1FF]); // Most significant of 0x600.
    assert_eq!(0x00, e.memory.memory[0x1FE]); // Least significant.
    assert_eq!(0b00100000, e.memory.memory[0x1FD]); // Expect always on to be pushed as set.
}

#[test]
fn test_nmi() {
    let mut e = setup(vec![]);
    e.nmi = true;

    test_interrupt(&mut e, Emulator::nmi, NMI_VECTOR_ADDR);

    assert_eq!(false, e.nmi);
    assert_eq!(0x06, e.memory.memory[0x1FF]); // Most significant of 0x600.
    assert_eq!(0x00, e.memory.memory[0x1FE]); // Least significant.
    assert_eq!(0b00100000, e.memory.memory[0x1FD]); // Expect always on to be pushed as set.
}
