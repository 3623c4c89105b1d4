#![allow(unused_imports)]
use emulator::emulator::addressing::AddressMode;
use emulator::emulator::registers::Flag::{
    Break, Carry, Decimal, Interrupt, Negative, Overflow, Reserved, Zero,
};
use emulator::emulator::registers::{Flag, Registers, Status};
use emulator::emulator::Emulator;
use emulator::emulator::{INT_VECTOR_ADDR, NMI_VECTOR_ADDR};
use emulator::memory::default::DefaultMemory;

#[allow(dead_code)]
type RegisterRead = fn(&Registers) -> u8;
#[allow(dead_code)]
type RegisterWrite = fn(&mut Registers, value: u8) -> ();

#[allow(dead_code)]
const READ_ACCUMULATOR: RegisterRead = |r| r.accumulator;
#[allow(dead_code)]
const READ_X: RegisterRead = |r| r.x;
#[allow(dead_code)]
const READ_Y: RegisterRead = |r| r.y;

#[allow(dead_code)]
const WRITE_ACCUMULATOR: RegisterWrite = |r, v| r.accumulator = v;
#[allow(dead_code)]
const WRITE_X: RegisterWrite = |r, v| r.x = v;
#[allow(dead_code)]
const WRITE_Y: RegisterWrite = |r, v| r.y = v;

#[allow(dead_code)]
type Instruction = for<'r> fn(&'r mut Emulator<DefaultMemory>) -> ();
#[allow(dead_code)]
type AddressInstruction = for<'r> fn(&'r mut Emulator<DefaultMemory>, AddressMode) -> ();

#[allow(dead_code)]
trait TestSetup {
    fn set_flags(&mut self, set: Vec<Flag>);
}

impl TestSetup for Emulator<DefaultMemory> {
    /// Sets the given flags and clears the others; Reserved stays set.
    fn set_flags(&mut self, set: Vec<Flag>) {
        [Carry, Zero, Interrupt, Decimal, Break, Overflow, Negative]
            .iter()
            .for_each(|f| {
                self.registers.status.set_to(*f, set.contains(f));
            });
    }
}

#[allow(dead_code)]
trait TestAssertions {
    fn assert_flags_set(&self, expected_set: Vec<Flag>);
}

impl TestAssertions for Emulator<DefaultMemory> {
    fn assert_flags_set(&self, expected_flags_set: Vec<Flag>) {
        [Carry, Zero, Interrupt, Decimal, Break, Overflow, Negative]
            .iter()
            .for_each(|f| {
                let expectation = expected_flags_set.contains(f);
                assert_eq!(
                    self.registers.status.get(*f),
                    expectation,
                    "Expectation for {:?} flag failed.",
                    f
                );
            });
    }
}

#[allow(dead_code)]
fn setup(flags: Vec<Flag>) -> Emulator<DefaultMemory> {
    let mut r = Registers::new();
    r.program_counter = 0x600;

    let mut c = Emulator {
        registers: r,
        memory: DefaultMemory::empty(),
        irq: false,
        nmi: false,
    };

    c.set_flags(flags);
    c
}

fn test_tax(value: u8, expected_flags_set: Vec<Flag>) {
    let mut c = setup(vec![]);

    c.registers.accumulator = value;
    c.tax();

    assert_eq!(value, c.registers.x);
    c.assert_flags_set(expected_flags_set);
}

#[test]
fn registers_test_tax_zero() {
    test_tax(0, vec![Zero])
}

#[test]
fn registers_test_tax_positive() {
    test_tax(8, vec![])
}

#[test]
fn registers_test_tax_negative() {
    test_tax(-8i8 as u8, vec![Negative])
}

fn test_tay(value: u8, expected_flags_set: Vec<Flag>) {
    let mut c = setup(vec![]);

    c.registers.accumulator = value;
    c.tay();

    assert_eq!(value, c.registers.y);
    c.assert_flags_set(expected_flags_set);
}

#[test]
fn registers_test_tay_zero() {
    test_tay(0, vec![Zero])
}

#[test]
fn registers_test_tay_positive() {
    test_tay(8, vec![])
}

#[test]
fn registers_test_tay_negative() {
    test_tay(-8i8 as u8, vec![Negative])
}

fn test_txa(value: u8, expected_flags_set: Vec<Flag>) {
    let mut c = setup(vec![]);

    c.registers.x = value;
    c.txa();

    assert_eq!(value, c.registers.accumulator);
    c.assert_flags_set(expected_flags_set);
}

#[test]
fn registers_test_txa_zero() {
    test_txa(0, vec![Zero])
}

#[test]
fn registers_test_txa_positive() {
    test_txa(8, vec![])
}

#[test]
fn registers_test_txa_negative() {
    test_txa(-8i8 as u8, vec![Negative])
}

fn test_tya(value: u8, expected_flags_set: Vec<Flag>) {
    let mut c = setup(vec![]);

    c.registers.y = value;
    c.tya();

    assert_eq!(value, c.registers.accumulator);
    c.assert_flags_set(expected_flags_set);
}

#[test]
fn registers_test_tya_zero() {
    test_tya(0, vec![Zero])
}

#[test]
fn registers_test_tya_positive() {
    test_tya(8, vec![])
}

#[test]
fn registers_test_tya_negative() {
    test_tya(-8i8 as u8, vec![Negative])
}
