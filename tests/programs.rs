use emulator::emulator::instructions::opcodes::{
    Absolute, Immediate, Implied, Relative, ZeroPage, ADC, BCC, BCS, BEQ, BPL, BRK, BVC, BVS, CLD,
    DEC, DEX, DEY, INC, INX, INY, JSR, LDA, LDX, LDY, PHA, PLP, RTS, SED, STA,
};
use emulator::emulator::registers::Flag;
use emulator::emulator::registers::Flag::{Carry, Decimal, Negative, Overflow, Zero};
use emulator::emulator::Emulator;
use emulator::memory::default::DefaultMemory;
use emulator::memory::Memory;

const PROGRAM_START: usize = 0x8000;

fn flatten(instructions: Vec<Vec<u8>>) -> Vec<u8> {
    instructions.into_iter().flatten().collect()
}

/// Sets the flags through LDA, PHA and PLP, runs the instructions and stops at the BRK
/// that ends them.
fn test_with_flags(instructions: Vec<Vec<u8>>, flags: Vec<Flag>) -> Emulator<DefaultMemory> {
    let mut initial_status = 0b00100000u8;
    for f in flags {
        initial_status |= match f {
            Carry => 0x01,
            Zero => 0x02,
            Decimal => 0x08,
            Overflow => 0x40,
            Negative => 0x80,
            _ => 0,
        };
    }
    let mut program = flatten(vec![
        LDA::immediate(initial_status),
        PHA::implied(),
        PLP::implied(),
    ]);
    program.extend(flatten(instructions));
    program.extend(BRK::implied());

    let mut memory = DefaultMemory::empty();
    memory.load(program, PROGRAM_START);
    memory.set_program_counter(PROGRAM_START as u16);

    let mut core = Emulator::new(memory);
    while core.memory.read(core.registers.program_counter) != 0x00 {
        core.execute_next().unwrap();
    }
    core
}

fn test(instructions: Vec<Vec<u8>>) -> Emulator<DefaultMemory> {
    test_with_flags(instructions, vec![])
}

fn assert_flags_set(core: &Emulator<DefaultMemory>, expected_flags_set: Vec<Flag>) {
    [Carry, Zero, Decimal, Overflow, Negative].iter().for_each(|f| {
        let expectation = expected_flags_set.contains(f);
        assert_eq!(core.registers.status.get(*f), expectation, "Expectation for {:?} flag failed.", f);
    });
}


#[test]
fn test_multi_byte() {
    // Add 396 to itself by splitting it into two bytes.
    let core = test(vec![
        vec![0xa9u8, 0b10001100 as u8],
        vec![0x69u8, 0b10001100 as u8],
        vec![0xaau8],
        vec![0xa9u8, 0b00000001 as u8],
        vec![0x69u8, 0b00000001 as u8],
    ]);

    let r = ((core.registers.accumulator as u16) << 8) | (core.registers.x as u16);
    assert_eq!(r, 792)
}

#[test]
fn test_setup_flags_no_flags() {
    let t = test_with_flags(vec![], vec![]);
    assert_flags_set(&t, vec![]);
}

#[test]
fn test_setup_flags() {
    let v = vec![Flag::Carry, Flag::Overflow];
    let t = test_with_flags(vec![], v.clone());
    assert_flags_set(&t, v);
}

#[test]
fn test_adc_program() {
    let core = test(vec![
        vec![0x18u8],
        vec![0xa9u8, 3 as u8],
        vec![0x69u8, 5 as u8],
    ]);
    assert_flags_set(&core, vec![]);
    assert_eq!(core.registers.accumulator as i8, 8);
}

// Exercise various instructions, addressing modes, flags and the stack in a compact
// machine-code test.
#[test]
fn smoke() {
    let number = 396u16;
    let least_sig_byte: u8 = (number & 0xFF) as u8;
    let most_sig_byte: u8 = ((number & 0xFF00) >> 8) as u8;

    let program_main = vec![
        JSR::absolute(0x600),
        // Trap.
        LDA::immediate(0),
        BEQ::relative(-2), // Skip 2 bytes backwards to the beginning of BEQ.
    ]
    .into_iter()
    .flatten()
    .collect();

    let program_routine = vec![
        LDA::immediate(least_sig_byte),
        ADC::immediate(least_sig_byte),
        STA::zero_page(0x0),
        LDA::immediate(most_sig_byte),
        ADC::immediate(most_sig_byte),
        STA::zero_page(0x1),
        RTS::implied(),
    ]
    .into_iter()
    .flatten()
    .collect();

    let mut memory = DefaultMemory::empty();
    memory.load(program_main, 0x400);
    memory.load(program_routine, 0x600);
    memory.set_program_counter(0x400);

    let mut emulator = Emulator::new(memory);

    let mut program_counter = 0x0u16;
    while program_counter != emulator.registers.program_counter {
        program_counter = emulator.registers.program_counter;
        emulator.execute_next().unwrap();
    }

    let r = ((emulator.memory.read(0x1) as u16) << 8) | (emulator.memory.read(0x0) as u16);
    assert_eq!(r, number * 2)
}

fn assert_x(core: &Emulator<DefaultMemory>, expected: i8) {
    assert_eq!(core.registers.x as i8, expected)
}

fn assert_y(core: &Emulator<DefaultMemory>, expected: i8) {
    assert_eq!(core.registers.y as i8, expected)
}

fn assert_accumulator(core: &Emulator<DefaultMemory>, expected: i8) {
    assert_eq!(core.registers.accumulator as i8, expected)
}

fn test_branch_forwards<T: Relative>(setup_flag: Option<Flag>, expected_branch: bool) {
    let flags: Vec<Flag> = setup_flag.into_iter().collect();

    let core = test_with_flags(
        vec![
            CLD::implied(),
            T::relative(1),     // Execute branch.
            SED::implied(),     // Skipped when the branch is taken.
            LDA::immediate(10), // Lands here.
        ],
        flags,
    );

    assert_eq!(core.registers.accumulator, 10);
    assert_eq!(core.registers.get_flag(Flag::Decimal), !expected_branch, "Branch expectation failed.");
}

#[test]
fn test_bcc_clear() {
    test_branch_forwards::<BCC>(None, true)
}

#[test]
fn test_bcc_set() {
    test_branch_forwards::<BCC>(Some(Flag::Carry), false)
}

#[test]
fn bcs_set() {
    test_branch_forwards::<BCS>(Some(Flag::Carry), true)
}

#[test]
fn bcs_clear() {
    test_branch_forwards::<BCS>(None, false)
}

#[test]
fn beq_eq() {
    test_branch_forwards::<BEQ>(Some(Flag::Zero), true)
}

#[test]
fn beq_ne() {
    test_branch_forwards::<BEQ>(None, false)
}

#[test]
fn bvc_clear() {
    test_branch_forwards::<BVC>(None, true)
}

#[test]
fn bvc_set() {
    test_branch_forwards::<BVC>(Some(Flag::Overflow), false)
}

#[test]
fn bvs_set() {
    test_branch_forwards::<BVS>(Some(Flag::Overflow), true)
}

#[test]
fn bvs_clear() {
    test_branch_forwards::<BVS>(None, false)
}

#[test]
fn bpl_pos() {
    test_branch_forwards::<BPL>(None, true)
}

#[test]
fn bpl_neg() {
    test_branch_forwards::<BPL>(Some(Flag::Negative), false)
}

fn test_x<T: Implied>(x_register_init: i8, expected: i8, expected_flags: Vec<Flag>) {
    let t = test(vec![LDX::immediate(x_register_init as u8), T::implied()]);
    assert_x(&t, expected);
    assert_flags_set(&t, expected_flags);
}

fn test_y<T: Implied>(y_register_init: i8, expected: i8, expected_flags: Vec<Flag>) {
    let t = test(vec![LDY::immediate(y_register_init as u8), T::implied()]);
    assert_y(&t, expected);
    assert_flags_set(&t, expected_flags);
}

fn test_other<T: ZeroPage>(init: i8, expected: i8, expected_flags: Vec<Flag>) {
    let t = test(vec![
        LDA::immediate(init as u8),
        STA::zero_page(0u8),
        T::zero_page(0u8),
        LDA::zero_page(0u8),
    ]);
    assert_accumulator(&t, expected);
    assert_flags_set(&t, expected_flags);
}

#[test]
fn test_inx_0() {
    test_x::<INX>(0i8, 1i8, vec![])
}

#[test]
fn test_inx_neg1() {
    test_x::<INX>(-1i8, 0i8, vec![Zero])
}

#[test]
fn test_inx_overflow() {
    test_x::<INX>(127i8, -128i8, vec![Negative])
}

#[test]
fn test_dex_0() {
    test_x::<DEX>(0i8, -1i8, vec![Negative])
}

#[test]
fn test_dex_1() {
    test_x::<DEX>(1i8, 0i8, vec![Zero])
}

#[test]
fn test_dex_neg1() {
    test_x::<DEX>(-1i8, -2i8, vec![Negative])
}

#[test]
fn test_dex_overflow() {
    test_x::<DEX>(-128i8, 127i8, vec![])
}

#[test]
fn test_iny_0() {
    test_y::<INY>(0i8, 1i8, vec![]);
}

#[test]
fn test_iny_neg1() {
    test_y::<INY>(-1i8, 0i8, vec![Zero]);
}

#[test]
fn test_iny_overflow() {
    test_y::<INY>(127i8, -128i8, vec![Negative])
}

#[test]
fn test_dey_0() {
    test_y::<DEY>(0i8, -1i8, vec![Negative])
}

#[test]
fn test_dey_1() {
    test_y::<DEY>(1i8, 0i8, vec![Zero])
}

#[test]
fn test_dey_neg1() {
    test_y::<DEY>(-1i8, -2i8, vec![Negative])
}

#[test]
fn test_dey_overflow() {
    test_y::<DEY>(-128i8, 127i8, vec![])
}

#[test]
fn test_inc_0() {
    test_other::<INC>(0i8, 1i8, vec![]);
}

#[test]
fn test_inc_neg1() {
    test_other::<INC>(-1i8, 0i8, vec![Zero]);
}

#[test]
fn test_inc_overflow() {
    test_other::<INC>(127i8, -128i8, vec![Negative])
}

#[test]
fn test_dec_0() {
    test_other::<DEC>(0i8, -1i8, vec![Negative])
}

#[test]
fn test_dec_1() {
    test_other::<DEC>(1i8, 0i8, vec![Zero])
}

#[test]
fn test_dec_neg1() {
    test_other::<DEC>(-1i8, -2i8, vec![Negative])
}

#[test]
fn test_dec_overflow() {
    test_other::<DEC>(-128i8, 127i8, vec![])
}

fn test_ld<T: Immediate, F: Fn(&Emulator<DefaultMemory>) -> u8>(f: F) {
    let core = test(vec![T::immediate(0b10101010)]);
    assert_eq!(f(&core), 0b10101010);
}

#[test]
fn test_lda() {
    test_ld::<LDA, _>(|c| c.registers.accumulator);
}

#[test]
fn test_ldx() {
    test_ld::<LDX, _>(|c| c.registers.x);
}

#[test]
fn test_ldy() {
    test_ld::<LDY, _>(|c| c.registers.y);
}

#[test]
fn test_rol_carry_cleared() {
    let core = test(vec![
        vec![0x18u8],                   // Clear carry.
        vec![0xa9u8, 0b10001111 as u8], // Load 'value' into accumulator.
        vec![0x2au8],                   // ROL
    ]);

    assert_flags_set(&core, vec![Carry]);
    assert_eq!(core.registers.accumulator, 0b00011110);
}

#[test]
fn test_ror_carry_cleared() {
    let core = test(vec![
        vec![0x18u8],                   // Clear carry.
        vec![0xa9u8, 0b10001111 as u8], // Load 'value' into accumulator.
        vec![0x6au8],                   // ROR
    ]);

    assert_flags_set(&core, vec![Carry]);
    assert_eq!(core.registers.accumulator, 0b01000111);
}
