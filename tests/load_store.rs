#![allow(unused_imports)]
use emulator::emulator::addressing::AddressMode;
use emulator::emulator::registers::Flag::{
    Break, Carry, Decimal, Interrupt, Negative, Overflow, Reserved, Zero,
};
use emulator::emulator::registers::{Flag, Registers, Status};
use emulator::emulator::Emulator;
use emulator::emulator::{INT_VECTOR_ADDR, NMI_VECTOR_ADDR};
use emulator::memory::default::DefaultMemory;

#[allow(dead_code)]
type RegisterRead = fn(&Registers) -> u8;
#[allow(dead_code)]
type RegisterWrite = fn(&mut Registers, value: u8) -> ();

#[allow(dead_code)]
const READ_ACCUMULATOR: RegisterRead = |r| r.accumulator;
#[allow(dead_code)]
const READ_X: RegisterRead = |r| r.x;
#[allow(dead_code)]
const READ_Y: RegisterRead = |r| r.y;

#[allow(dead_code)]
const WRITE_ACCUMULATOR: RegisterWrite = |r, v| r.accumulator = v;
#[allow(dead_code)]
const WRITE_X: RegisterWrite = |r, v| r.x = v;
#[allow(dead_code)]
const WRITE_Y: RegisterWrite = |r, v| r.y = v;

#[allow(dead_code)]
type Instruction = for<'r> fn(&'r mut Emulator<DefaultMemory>) -> ();
#[allow(dead_code)]
type AddressInstruction = for<'r> fn(&'r mut Emulator<DefaultMemory>, AddressMode) -> ();

#[allow(dead_code)]
trait TestSetup {
    fn set_flags(&mut self, set: Vec<Flag>);
}

impl TestSetup for Emulator<DefaultMemory> {
    /// Sets the given flags and clears the others; Reserved stays set.
    fn set_flags(&mut self, set: Vec<Flag>) {
        [Carry, Zero, Interrupt, Decimal, Break, Overflow, Negative]
            .iter()
            .for_each(|f| {
                self.registers.status.set_to(*f, set.contains(f));
            });
    }
}

#[allow(dead_code)]
trait TestAssertions {
    fn assert_flags_set(&self, expected_set: Vec<Flag>);
}

impl TestAssertions for Emulator<DefaultMemory> {
    fn assert_flags_set(&self, expected_flags_set: Vec<Flag>) {
        [Carry, Zero, Interrupt, Decimal, Break, Overflow, Negative]
            .iter()
            .for_each(|f| {
                let expectation = expected_flags_set.contains(f);
                assert_eq!(
                    self.registers.status.get(*f),
                    expectation,
                    "Expectation for {:?} flag failed.",
                    f
                );
            });
    }
}

#[allow(dead_code)]
fn setup(flags: Vec<Flag>) -> Emulator<DefaultMemory> {
    let mut r = Registers::new();
    r.program_counter = 0x600;

    let mut c = Emulator {
        registers: r,
        memory: DefaultMemory::empty(),
        irq: false,
        nmi: false,
    };

    c.set_flags(flags);
    c
}

const TEST_VALUE: u8 = 0b10101010;

fn test_load(
    instruction: AddressInstruction,
    load_target: RegisterRead,
    value: u8,
    expected_flags_set: Vec<Flag>
) {
    let mut c = setup(vec![]);

    c.memory.memory[c.registers.program_counter as usize] = value;
    instruction(&mut c, AddressMode::Immediate);

    assert_eq!(value, load_target(&c.registers));
    c.assert_flags_set(expected_flags_set);
}

#[test]
fn test_lda_zero() {
    test_load(Emulator::lda, READ_ACCUMULATOR, 0, vec![Zero]);
}

#[test]
fn test_lda_positive() {
    test_load(Emulator::lda, READ_ACCUMULATOR, 1, vec![]);
}

#[test]
fn test_lda_negative() {
    test_load(Emulator::lda, READ_ACCUMULATOR, -1i8 as u8, vec![Negative]);
}

#[test]
fn test_ldx_zero() {
    test_load(Emulator::ldx, READ_X, 0, vec![Zero]);
}

#[test]
fn test_ldx_positive() {
    test_load(Emulator::ldx, READ_X, 1, vec![]);
}

#[test]
fn test_ldx_negative() {
    test_load(Emulator::ldx, READ_X, -1i8 as u8, vec![Negative]);
}

#[test]
fn test_ldy_zero() {
    test_load(Emulator::ldy, READ_Y, 0, vec![Zero]);
}

#[test]
fn test_ldy_positive() {
    test_load(Emulator::ldy, READ_Y, 1, vec![]);
}

#[test]
fn test_ldy_negative() {
    test_load(Emulator::ldy, READ_Y, -1i8 as u8, vec![Negative]);
}

fn test_store(
    source_register: RegisterWrite,
    instruction: AddressInstruction
) {
    let mut c = setup(vec![]);

    source_register(&mut c.registers, TEST_VALUE);
    c.memory.memory[c.registers.program_counter as usize] = 0x1;
    instruction(&mut c, AddressMode::ZeroPage);

    assert_eq!(TEST_VALUE, c.memory.memory[0x1]);
    c.assert_flags_set(vec![]);
}

#[test]
fn load_store_test_sta() {
    test_store(WRITE_ACCUMULATOR, Emulator::sta);
}

#[test]
fn load_store_test_stx() {
    test_store(WRITE_X, Emulator::stx);
}

#[test]
fn load_store_test_sty() {
    test_store(WRITE_Y, Emulator::sty);
}
