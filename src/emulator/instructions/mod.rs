use vstd::prelude::*;

use crate::emulator::addressing::AddressMode;

pub mod arithmetic;
pub mod logical;
pub mod shifts;
pub mod branches;
pub mod flags;
pub mod increments_decrements;
pub mod load_store;
pub mod registers;
pub mod stack;
pub mod jumps_calls;
pub mod system;
pub mod dispatch;
pub mod opcodes;

verus! {

/// The mnemonics of the documented instructions.
#[derive(Debug, Copy, Clone, PartialEq, Eq, Structural)]
pub enum Op {
    ADC, AND, ASL, BCC, BCS, BEQ, BIT, BMI, BNE, BPL, BRK, BVC, BVS, CLC, CLD, CLI, CLV, CMP,
    CPX, CPY, DEC, DEX, DEY, EOR, INC, INX, INY, JMP, JSR, LDA, LDX, LDY, LSR, NOP, ORA, PHA,
    PHP, PLA, PLP, ROL, ROR, RTI, RTS, SBC, SEC, SED, SEI, STA, STX, STY, TAX, TAY, TSX, TXA,
    TXS, TYA,
}

/// A decoded instruction: its operation and addressing mode.
#[derive(Debug, Copy, Clone, PartialEq, Eq, Structural)]
pub struct Instruction {
    pub op: Op,
    pub address_mode: AddressMode,
}

} // verus!
