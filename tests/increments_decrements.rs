#![allow(unused_imports)]
use emulator::emulator::addressing::AddressMode;
use emulator::emulator::registers::Flag::{
    Break, Carry, Decimal, Interrupt, Negative, Overflow, Reserved, Zero,
};
use emulator::emulator::registers::{Flag, Registers, Status};
use emulator::emulator::Emulator;
use emulator::emulator::{INT_VECTOR_ADDR, NMI_VECTOR_ADDR};
use emulator::memory::default::DefaultMemory;

#[allow(dead_code)]
type RegisterRead = fn(&Registers) -> u8;
#[allow(dead_code)]
type RegisterWrite = fn(&mut Registers, value: u8) -> ();

#[allow(dead_code)]
const READ_ACCUMULATOR: RegisterRead = |r| r.accumulator;
#[allow(dead_code)]
const READ_X: RegisterRead = |r| r.x;
#[allow(dead_code)]
const READ_Y: RegisterRead = |r| r.y;

#[allow(dead_code)]
const WRITE_ACCUMULATOR: RegisterWrite = |r, v| r.accumulator = v;
#[allow(dead_code)]
const WRITE_X: RegisterWrite = |r, v| r.x = v;
#[allow(dead_code)]
const WRITE_Y: RegisterWrite = |r, v| r.y = v;

#[allow(dead_code)]
type Instruction = for<'r> fn(&'r mut Emulator<DefaultMemory>) -> ();
#[allow(dead_code)]
type AddressInstruction = for<'r> fn(&'r mut Emulator<DefaultMemory>, AddressMode) -> ();

#[allow(dead_code)]
trait TestSetup {
    fn set_flags(&mut self, set: Vec<Flag>);
}

impl TestSetup for Emulator<DefaultMemory> {
    /// Sets the given flags and clears the others; Reserved stays set.
    fn set_flags(&mut self, set: Vec<Flag>) {
        [Carry, Zero, Interrupt, Decimal, Break, Overflow, Negative]
            .iter()
            .for_each(|f| {
                self.registers.status.set_to(*f, set.contains(f));
            });
    }
}

#[allow(dead_code)]
trait TestAssertions {
    fn assert_flags_set(&self, expected_set: Vec<Flag>);
}

impl TestAssertions for Emulator<DefaultMemory> {
    fn assert_flags_set(&self, expected_flags_set: Vec<Flag>) {
        [Carry, Zero, Interrupt, Decimal, Break, Overflow, Negative]
            .iter()
            .for_each(|f| {
                let expectation = expected_flags_set.contains(f);
                assert_eq!(
                    self.registers.status.get(*f),
                    expectation,
                    "Expectation for {:?} flag failed.",
                    f
                );
            });
    }
}

#[allow(dead_code)]
fn setup(flags: Vec<Flag>) -> Emulator<DefaultMemory> {
    let mut r = Registers::new();
    r.program_counter = 0x600;

    let mut c = Emulator {
        registers: r,
        memory: DefaultMemory::empty(),
        irq: false,
        nmi: false,
    };

    c.set_flags(flags);
    c
}

fn test_x<F: for<'r> Fn(&'r mut Emulator<DefaultMemory>) -> ()>(
    initial: u8,
    instruction: F,
    expected: u8,
    expected_flags_set: Vec<Flag>,
) {
    let mut t = setup(vec![]);

    t.registers.x = initial;
    instruction(&mut t);

    assert_eq!(expected, t.registers.x);
    t.assert_flags_set(expected_flags_set);
}

#[test]
fn test_inx() {
    test_x(0, Emulator::inx, 1, vec![])
}

#[test]
fn test_inx_to_zero() {
    test_x(-1i8 as u8, Emulator::inx, 0, vec![Zero])
}

#[test]
fn test_inx_wraparound() {
    test_x(127, Emulator::inx, -128i8 as u8, vec![Negative])
}

#[test]
fn test_dex() {
    test_x(-1i8 as u8, Emulator::dex, -2i8 as u8, vec![Negative])
}

#[test]
fn test_dex_to_negative() {
    test_x(0, Emulator::dex, -1i8 as u8, vec![Negative]);
}

#[test]
fn test_dex_to_zero() {
    test_x(1, Emulator::dex, 0, vec![Zero])
}

#[test]
fn test_dex_wraparound() {
    test_x(-128i8 as u8, Emulator::dex, 127, vec![])
}

fn test_y<F: for<'r> Fn(&'r mut Emulator<DefaultMemory>) -> ()>(
    initial: u8,
    instruction: F,
    expected: u8,
    expected_flags_set: Vec<Flag>,
) {
    let mut t = setup(vec![]);

    t.registers.y = initial;
    instruction(&mut t);

    assert_eq!(expected, t.registers.y);
    t.assert_flags_set(expected_flags_set);
}

#[test]
fn test_iny() {
    test_y(0, Emulator::iny, 1, vec![]);
}

#[test]
fn test_iny_to_zero() {
    test_y(-1i8 as u8, Emulator::iny, 0, vec![Zero])
}

#[test]
fn test_iny_wraparound() {
    test_y(127, Emulator::iny, -128i8 as u8, vec![Negative])
}

#[test]
fn test_dey() {
    test_y(-1i8 as u8, Emulator::dey, -2i8 as u8, vec![Negative])
}

#[test]
fn test_dey_to_negative() {
    test_y(0, Emulator::dey, -1i8 as u8, vec![Negative])
}

#[test]
fn increments_decrements_test_dey_1() {
    test_y(1, Emulator::dey, 0 as u8, vec![Zero])
}

#[test]
fn test_dey_wraparound() {
    test_y(-128i8 as u8, Emulator::dey, 127, vec![])
}

fn test<F: for<'r> Fn(&'r mut Emulator<DefaultMemory>, AddressMode) -> ()>(
    value: u8,
    instruction: F,
    expected: u8,
    expected_flags_set: Vec<Flag>,
) {
    let mut t = setup(vec![]);

    let memory_location = 0 as usize;
    t.memory.memory[memory_location] = value;
    instruction(&mut t, AddressMode::ZeroPage);

    assert_eq!(expected, t.memory.memory[memory_location]);
    t.assert_flags_set(expected_flags_set);
}

#[test]
fn test_inc() {
    test(0, Emulator::inc, 1, vec![])
}

#[test]
fn test_inc_to_zero() {
    test(-1i8 as u8, Emulator::inc, 0, vec![Zero])
}

#[test]
fn test_inc_wraparound() {
    test(127, Emulator::inc, -128i8 as u8, vec![Negative])
}

#[test]
fn test_dec() {
    test(-1i8 as u8, Emulator::dec, -2i8 as u8, vec![Negative])
}

#[test]
fn test_dec_to_negative() {
    test(0, Emulator::dec, -1i8 as u8, vec![Negative])
}

#[test]
fn test_dec_to_zero() {
    test(1, Emulator::dec, 0, vec![Zero])
}

#[test]
fn increments_decrements_test_dec_overflow() {
    test(-128i8 as u8, Emulator::dec, 127, vec![])
}
