use emulator::emulator::addressing::AddressMode;
use emulator::emulator::instructions::dispatch::decode;
use emulator::emulator::instructions::opcodes::{
    Absolute, AbsoluteX, Accumulator, Immediate, Implied, Indirect, Relative, ZeroPage, ADC, ASL,
    BNE, JMP, LDA, NOP, STA,
};
use emulator::emulator::instructions::{Instruction, Op};
use emulator::emulator::registers::{Flag, Registers, Status};
use emulator::emulator::{bytes_little_endian, Emulator, UnknownOpcode};
use emulator::memory::default::DefaultMemory;
use emulator::memory::Memory;

/// A machine with `program` at 0x600, the program counter there and the given status.
fn machine(program: &[u8], flags: u8) -> Emulator<DefaultMemory> {
    let mut memory = DefaultMemory::empty();
    memory.load(program.to_vec(), 0x600);
    let mut registers = Registers::new();
    registers.program_counter = 0x600;
    registers.status.load_from(flags);
    Emulator { registers, memory, irq: false, nmi: false }
}

#[test]
fn decimal_add() {
    let mut e = machine(&[0x69, 0x22], 0b00001000);
    e.registers.accumulator = 0x33;
    e.execute_next().unwrap();
    assert_eq!(0x55, e.registers.accumulator);
    assert!(!e.registers.status.get(Flag::Carry));
    assert!(e.registers.status.get(Flag::Decimal));
}

#[test]
fn decimal_add_with_carry() {
    let mut e = machine(&[0x69, 0x09], 0b00001000);
    e.registers.accumulator = 0x99;
    e.execute_next().unwrap();
    assert_eq!(0x08, e.registers.accumulator);
    assert!(e.registers.status.get(Flag::Carry));
    assert!(e.registers.status.get(Flag::Decimal));
}

#[test]
fn indirect_jmp_bug() {
    let mut e = machine(&[0x6C, 0xFF, 0x10], 0);
    e.memory.memory[0x10FF] = 0xCD;
    e.memory.memory[0x1000] = 0xAB;
    e.memory.memory[0x1100] = 0xEE;
    e.execute_next().unwrap();
    assert_eq!(0xABCD, e.registers.program_counter);
}

#[test]
fn jsr_rts_round_trip() {
    let mut e = machine(&[0x20, 0x05, 0x06, 0xA9, 0x2A, 0x60], 0);
    e.execute_next().unwrap();
    assert_eq!(0x0605, e.registers.program_counter);
    assert_eq!(0xFD, e.registers.stack_pointer);
    e.execute_next().unwrap();
    assert_eq!(0x0603, e.registers.program_counter);
    assert_eq!(0xFF, e.registers.stack_pointer);
    e.execute_next().unwrap();
    assert_eq!(0x2A, e.registers.accumulator);
}

#[test]
fn signed_overflow_on_adc() {
    let mut e = machine(&[0x69, 0x01], 0);
    e.registers.accumulator = 0x7F;
    e.execute_next().unwrap();
    assert_eq!(0x80, e.registers.accumulator);
    assert!(e.registers.status.get(Flag::Negative));
    assert!(e.registers.status.get(Flag::Overflow));
    assert!(!e.registers.status.get(Flag::Carry));
    assert!(!e.registers.status.get(Flag::Zero));
}

#[test]
fn brk_semantics() {
    let mut e = machine(&[], 0);
    e.memory.memory[0xFFFE] = 0x33;
    e.memory.memory[0xFFFF] = 0x22;
    e.brk();
    assert_eq!(0x06, e.memory.memory[0x1FF]);
    assert_eq!(0x01, e.memory.memory[0x1FE]);
    assert_eq!(0b00110000, e.memory.memory[0x1FD]);
    assert!(e.registers.status.get(Flag::Interrupt));
    assert!(!e.registers.status.get(Flag::Break));
    assert_eq!(0x2233, e.registers.program_counter);
}

#[test]
fn brk_through_execute_next_skips_signature_byte() {
    let mut e = machine(&[0x00, 0xEA], 0);
    e.memory.memory[0xFFFE] = 0x33;
    e.memory.memory[0xFFFF] = 0x22;
    e.execute_next().unwrap();
    assert_eq!(0x06, e.memory.memory[0x1FF]);
    assert_eq!(0x02, e.memory.memory[0x1FE]);
    assert_eq!(0x2233, e.registers.program_counter);
}

#[test]
fn relative_branch_backwards() {
    let mut e = machine(&[0xF0, 0xFB], 0b00000010);
    e.execute_next().unwrap();
    assert_eq!(0x600 - 3, e.registers.program_counter);
}

#[test]
fn relative_branch_not_taken() {
    let mut e = machine(&[0xF0, 0xFB], 0);
    e.execute_next().unwrap();
    assert_eq!(0x602, e.registers.program_counter);
}

#[test]
fn multi_byte_add_via_carry() {
    let mut e = machine(&[0xA9, 0x8C, 0x69, 0x8C, 0xAA, 0xA9, 0x01, 0x69, 0x01], 0);
    for _ in 0..5 {
        e.execute_next().unwrap();
    }
    let r = ((e.registers.accumulator as u16) << 8) | (e.registers.x as u16);
    assert_eq!(792, r);
}

#[test]
fn unknown_opcode_is_an_error() {
    let mut e = machine(&[0x02], 0);
    e.registers.accumulator = 9;
    let r = e.execute_next();
    assert_eq!(Err(UnknownOpcode { opcode: 0x02, program_counter: 0x600 }), r);
    assert_eq!(0x600, e.registers.program_counter);
    assert_eq!(9, e.registers.accumulator);
}

#[test]
fn nmi_is_served_before_the_next_instruction() {
    let mut e = machine(&[0xEA], 0b00000100);
    e.nmi = true;
    e.memory.memory[0xFFFA] = 0x00;
    e.memory.memory[0xFFFB] = 0x90;
    e.execute_next().unwrap();
    assert!(!e.nmi);
    assert_eq!(0x9000, e.registers.program_counter);
    assert_eq!(0x06, e.memory.memory[0x1FF]);
    assert_eq!(0x00, e.memory.memory[0x1FE]);
    assert_eq!(0b00100100, e.memory.memory[0x1FD]);
}

#[test]
fn irq_waits_while_interrupts_are_disabled() {
    let mut e = machine(&[0xEA], 0b00000100);
    e.irq = true;
    e.memory.memory[0xFFFE] = 0x00;
    e.memory.memory[0xFFFF] = 0x90;
    e.execute_next().unwrap();
    assert_eq!(0x601, e.registers.program_counter);

    let mut e = machine(&[0xEA], 0);
    e.irq = true;
    e.memory.memory[0xFFFE] = 0x00;
    e.memory.memory[0xFFFF] = 0x90;
    e.execute_next().unwrap();
    assert!(e.irq);
    assert_eq!(0x9000, e.registers.program_counter);
    assert!(e.registers.status.get(Flag::Interrupt));
}

#[test]
fn rti_restores_status_and_pc() {
    let mut e = machine(&[0x40], 0);
    e.registers.stack_pointer = 0xFC;
    e.memory.memory[0x1FD] = 0b11000011;
    e.memory.memory[0x1FE] = 0x34;
    e.memory.memory[0x1FF] = 0x12;
    e.execute_next().unwrap();
    assert_eq!(0x1234, e.registers.program_counter);
    assert_eq!(0b11100011, e.registers.status.flags);
    assert_eq!(0xFF, e.registers.stack_pointer);
}

#[test]
fn reset_reads_the_reset_vector() {
    let mut memory = DefaultMemory::empty();
    memory.set_program_counter(0xC123);
    assert_eq!(0x23, memory.memory[0xFFFC]);
    assert_eq!(0xC1, memory.memory[0xFFFD]);
    let e = Emulator::new(memory);
    assert_eq!(0xC123, e.registers.program_counter);
    assert_eq!(0xFF, e.registers.stack_pointer);
    assert_eq!(0b00100100, e.registers.status.flags);
    assert!(!e.irq && !e.nmi);
}

#[test]
fn pull_after_push_is_identity() {
    let mut e = machine(&[], 0);
    for sp in [0x00u8, 0x80, 0xFF] {
        e.registers.stack_pointer = sp;
        e.push(0x5A);
        assert_eq!(0x5A, e.pop());
        assert_eq!(sp, e.registers.stack_pointer);
    }
}

#[test]
fn zero_page_modes_stay_in_page_zero() {
    let mut e = machine(&[0xFF], 0);
    e.registers.x = 0xFF;
    e.registers.y = 0x01;
    assert_eq!(0xFE, e.address(AddressMode::ZeroPageX));
    e.registers.program_counter = 0x600;
    assert_eq!(0x00, e.address(AddressMode::ZeroPageY));
    e.registers.program_counter = 0x600;
    assert_eq!(0xFF, e.address(AddressMode::ZeroPage));
}

#[test]
fn binary_adc_and_sbc_sums() {
    let mut e = machine(&[0x69, 0xF0], 0b00000001);
    e.registers.accumulator = 0x20;
    e.execute_next().unwrap();
    // 0x20 + 0xF0 + 1 = 0x111.
    assert_eq!(0x11, e.registers.accumulator);
    assert!(e.registers.status.get(Flag::Carry));

    let mut e = machine(&[0xE9, 0x10], 0);
    e.registers.accumulator = 0x20;
    e.execute_next().unwrap();
    // 0x20 + (0x10 ^ 0xFF) + 0 = 0x10F.
    assert_eq!(0x0F, e.registers.accumulator);
    assert!(e.registers.status.get(Flag::Carry));
}

#[test]
fn compare_keeps_register() {
    let mut e = machine(&[0xE0, 0x90], 0);
    e.registers.x = 0x10;
    e.execute_next().unwrap();
    assert_eq!(0x10, e.registers.x);
    assert!(!e.registers.status.get(Flag::Carry));
    assert!(!e.registers.status.get(Flag::Zero));
    // 0x10 - 0x90 = 0x80 modulo 256.
    assert!(e.registers.status.get(Flag::Negative));
}

#[test]
fn rol_then_ror_restores_accumulator_and_carry() {
    for (a, flags) in [(0x81u8, 0u8), (0x81, 1), (0x42, 1), (0x00, 0)] {
        let mut e = machine(&[0x2A, 0x6A], flags);
        e.registers.accumulator = a;
        e.execute_next().unwrap();
        e.execute_next().unwrap();
        assert_eq!(a, e.registers.accumulator);
        assert_eq!(flags == 1, e.registers.status.get(Flag::Carry));
    }
}

#[test]
fn php_then_plp_sets_break_and_reserved() {
    let mut e = machine(&[0x08, 0x28], 0b11001011);
    e.execute_next().unwrap();
    e.execute_next().unwrap();
    assert_eq!(0b11111011, e.registers.status.flags);
    assert_eq!(0xFF, e.registers.stack_pointer);
}

#[test]
fn clearing_reserved_keeps_it_set() {
    let mut s = Status::new();
    s.clear(Flag::Reserved);
    assert!(s.get(Flag::Reserved));
    s.set_to(Flag::Reserved, false);
    assert_eq!(0b00100000, s.flags);
}

#[test]
fn status_updates() {
    let mut s = Status::new();
    s.update_carry(0x100);
    assert!(s.get(Flag::Carry));
    s.update_carry(0xFF);
    assert!(!s.get(Flag::Carry));
    s.update_overflow(0x50, 0x50, 0xA0);
    assert!(s.get(Flag::Overflow));
    s.update_overflow(0x50, 0x90, 0xE0);
    assert!(!s.get(Flag::Overflow));
    s.update_zero_negative(0x80);
    assert!(s.get(Flag::Negative) && !s.get(Flag::Zero));
    s.update_zero_negative(0);
    assert!(!s.get(Flag::Negative) && s.get(Flag::Zero));
}

#[test]
fn opcode_encodings() {
    assert_eq!(vec![0xA9, 0x05], LDA::immediate(5));
    assert_eq!(vec![0x8D, 0x34, 0x12], STA::absolute(0x1234));
    assert_eq!(vec![0x7D, 0xCD, 0xAB], ADC::absolute_x(0xABCD));
    assert_eq!(vec![0x6C, 0xFF, 0x10], JMP::indirect(0x10FF));
    assert_eq!(vec![0xD0, 0xFB], BNE::relative(-5));
    assert_eq!(vec![0x0A], ASL::accumulator());
    assert_eq!(vec![0x06, 0x10], ASL::zero_page(0x10));
    assert_eq!(vec![0xEA], NOP::implied());
    assert_eq!((0x34, 0x12), bytes_little_endian(0x1234));
}

#[test]
fn decode_table() {
    assert_eq!(
        Some(Instruction { op: Op::LDA, address_mode: AddressMode::Immediate }),
        decode(0xA9)
    );
    assert_eq!(
        Some(Instruction { op: Op::JMP, address_mode: AddressMode::Indirect }),
        decode(0x6C)
    );
    assert_eq!(
        Some(Instruction { op: Op::ROR, address_mode: AddressMode::Accumulator }),
        decode(0x6A)
    );
    assert_eq!(None, decode(0xFF));
    let mut documented = 0;
    for b in 0..=255u8 {
        if decode(b).is_some() {
            documented += 1;
        }
    }
    assert_eq!(151, documented);
}

#[test]
fn load_copies_program() {
    let mut memory = DefaultMemory::empty();
    memory.load(vec![1, 2, 3], 0xFFFD);
    assert_eq!(1, memory.read(0xFFFD));
    assert_eq!(3, memory.read(0xFFFF));
    assert_eq!(0, memory.read(0xFFFC));
    memory.write(0x10, 7);
    assert_eq!(7, memory.memory[0x10]);
}

#[test]
fn irq_and_nmi_push_break_clear() {
    // PLP leaves Break set in the live status.
    let mut e = machine(&[0xEA], 0b00010000);
    assert!(e.registers.status.get(Flag::Break));
    e.irq = true;
    e.memory.memory[0xFFFE] = 0x00;
    e.memory.memory[0xFFFF] = 0x90;
    e.execute_next().unwrap();
    assert_eq!(0b00100000, e.memory.memory[0x1FD]);
    assert!(e.registers.status.get(Flag::Break));

    let mut e = machine(&[0xEA], 0b11010111);
    e.nmi = true;
    e.execute_next().unwrap();
    assert_eq!(0b11100111, e.memory.memory[0x1FD]);
}

#[test]
fn jsr_rts_around_a_subroutine_that_uses_the_stack() {
    // JSR $0610; then at 0x0610: PHA; LDA #$07; PLA; RTS.
    let mut e = machine(&[0x20, 0x10, 0x06], 0);
    e.memory.load(vec![0x48, 0xA9, 0x07, 0x68, 0x60], 0x610);
    for _ in 0..5 {
        e.execute_next().unwrap();
    }
    assert_eq!(0x0603, e.registers.program_counter);
    assert_eq!(0xFF, e.registers.stack_pointer);
}
