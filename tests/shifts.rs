#![allow(unused_imports)]
use emulator::emulator::addressing::AddressMode;
use emulator::emulator::registers::Flag::{
    Break, Carry, Decimal, Interrupt, Negative, Overflow, Reserved, Zero,
};
use emulator::emulator::registers::{Flag, Registers, Status};
use emulator::emulator::Emulator;
use emulator::emulator::{INT_VECTOR_ADDR, NMI_VECTOR_ADDR};
use emulator::memory::default::DefaultMemory;

#[allow(dead_code)]
type RegisterRead = fn(&Registers) -> u8;
#[allow(dead_code)]
type RegisterWrite = fn(&mut Registers, value: u8) -> ();

#[allow(dead_code)]
const READ_ACCUMULATOR: RegisterRead = |r| r.accumulator;
#[allow(dead_code)]
const READ_X: RegisterRead = |r| r.x;
#[allow(dead_code)]
const READ_Y: RegisterRead = |r| r.y;

#[allow(dead_code)]
const WRITE_ACCUMULATOR: RegisterWrite = |r, v| r.accumulator = v;
#[allow(dead_code)]
const WRITE_X: RegisterWrite = |r, v| r.x = v;
#[allow(dead_code)]
const WRITE_Y: RegisterWrite = |r, v| r.y = v;

#[allow(dead_code)]
type Instruction = for<'r> fn(&'r mut Emulator<DefaultMemory>) -> ();
#[allow(dead_code)]
type AddressInstruction = for<'r> fn(&'r mut Emulator<DefaultMemory>, AddressMode) -> ();

#[allow(dead_code)]
trait TestSetup {
    fn set_flags(&mut self, set: Vec<Flag>);
}

impl TestSetup for Emulator<DefaultMemory> {
    /// Sets the given flags and clears the others; Reserved stays set.
    fn set_flags(&mut self, set: Vec<Flag>) {
        [Carry, Zero, Interrupt, Decimal, Break, Overflow, Negative]
            .iter()
            .for_each(|f| {
                self.registers.status.set_to(*f, set.contains(f));
            });
    }
}

#[allow(dead_code)]
trait TestAssertions {
    fn assert_flags_set(&self, expected_set: Vec<Flag>);
}

impl TestAssertions for Emulator<DefaultMemory> {
    fn assert_flags_set(&self, expected_flags_set: Vec<Flag>) {
        [Carry, Zero, Interrupt, Decimal, Break, Overflow, Negative]
            .iter()
            .for_each(|f| {
                let expectation = expected_flags_set.contains(f);
                assert_eq!(
                    self.registers.status.get(*f),
                    expectation,
                    "Expectation for {:?} flag failed.",
                    f
                );
            });
    }
}

#[allow(dead_code)]
fn setup(flags: Vec<Flag>) -> Emulator<DefaultMemory> {
    let mut r = Registers::new();
    r.program_counter = 0x600;

    let mut c = Emulator {
        registers: r,
        memory: DefaultMemory::empty(),
        irq: false,
        nmi: false,
    };

    c.set_flags(flags);
    c
}

fn test_shift(
    flags: Vec<Flag>,
    input: u8,
    instruction: Instruction,
    expected: u8,
    expected_flags_set: Vec<Flag>,
) {
    let mut c = setup(flags);

    c.registers.accumulator = input;
    instruction(&mut c);

    assert_eq!(expected, c.registers.accumulator);
    c.assert_flags_set(expected_flags_set)
}

#[test]
fn shifts_test_asl() {
    test_shift(
        vec![],
        0b10001111,
        Emulator::asl_acc,
        0b00011110,
        vec![Carry],
    );
}

#[test]
fn shifts_test_lsr() {
    test_shift(
        vec![],
        0b10001111,
        Emulator::lsr_acc,
        0b01000111,
        vec![Carry],
    )
}

#[test]
fn test_rol_carry_clear() {
    test_shift(
        vec![],
        0b10001111,
        Emulator::rol_acc,
        0b00011110,
        vec![Carry],
    )
}

#[test]
fn shifts_test_rol_carry_set() {
    test_shift(
        vec![Carry],
        0b10001111,
        Emulator::rol_acc,
        0b00011111,
        vec![Carry],
    )
}

#[test]
fn test_ror_carry_clear() {
    test_shift(
        vec![],
        0b10001111,
        Emulator::ror_acc,
        0b01000111,
        vec![Carry],
    )
}

#[test]
fn shifts_test_ror_carry_set() {
    test_shift(
        vec![Carry],
        0b10001111,
        Emulator::ror_acc,
        0b11000111,
        vec![Carry, Negative],
    )
}
