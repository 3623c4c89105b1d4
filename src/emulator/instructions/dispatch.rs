use vstd::prelude::*;

use crate::emulator::addressing::AddressMode;
use crate::emulator::instructions::{Instruction, Op};
use crate::emulator::model::Machine;
use crate::emulator::registers::Flag;
use crate::emulator::Emulator;
use crate::memory::Memory;

verus! {

/// The opcode table: each documented opcode byte and its operation and addressing mode.
pub open spec fn decode_spec(opcode: u8) -> Option<Instruction> {
    match opcode {
        0x00 => Some(Instruction { op: Op::BRK, address_mode: AddressMode::Implied }),
        0x01 => Some(Instruction { op: Op::ORA, address_mode: AddressMode::IndexedIndirect }),
        0x05 => Some(Instruction { op: Op::ORA, address_mode: AddressMode::ZeroPage }),
        0x06 => Some(Instruction { op: Op::ASL, address_mode: AddressMode::ZeroPage }),
        0x08 => Some(Instruction { op: Op::PHP, address_mode: AddressMode::Implied }),
        0x09 => Some(Instruction { op: Op::ORA, address_mode: AddressMode::Immediate }),
        0x0a => Some(Instruction { op: Op::ASL, address_mode: AddressMode::Accumulator }),
        0x0d => Some(Instruction { op: Op::ORA, address_mode: AddressMode::Absolute }),
        0x0e => Some(Instruction { op: Op::ASL, address_mode: AddressMode::Absolute }),
        0x10 => Some(Instruction { op: Op::BPL, address_mode: AddressMode::Relative }),
        0x11 => Some(Instruction { op: Op::ORA, address_mode: AddressMode::IndirectIndexed }),
        0x15 => Some(Instruction { op: Op::ORA, address_mode: AddressMode::ZeroPageX }),
        0x16 => Some(Instruction { op: Op::ASL, address_mode: AddressMode::ZeroPageX }),
        0x18 => Some(Instruction { op: Op::CLC, address_mode: AddressMode::Implied }),
        0x19 => Some(Instruction { op: Op::ORA, address_mode: AddressMode::AbsoluteY }),
        0x1d => Some(Instruction { op: Op::ORA, address_mode: AddressMode::AbsoluteX }),
        0x1e => Some(Instruction { op: Op::ASL, address_mode: AddressMode::AbsoluteX }),
        0x20 => Some(Instruction { op: Op::JSR, address_mode: AddressMode::Absolute }),
        0x21 => Some(Instruction { op: Op::AND, address_mode: AddressMode::IndexedIndirect }),
        0x24 => Some(Instruction { op: Op::BIT, address_mode: AddressMode::ZeroPage }),
        0x25 => Some(Instruction { op: Op::AND, address_mode: AddressMode::ZeroPage }),
        0x26 => Some(Instruction { op: Op::ROL, address_mode: AddressMode::ZeroPage }),
        0x28 => Some(Instruction { op: Op::PLP, address_mode: AddressMode::Implied }),
        0x29 => Some(Instruction { op: Op::AND, address_mode: AddressMode::Immediate }),
        0x2a => Some(Instruction { op: Op::ROL, address_mode: AddressMode::Accumulator }),
        0x2c => Some(Instruction { op: Op::BIT, address_mode: AddressMode::Absolute }),
        0x2d => Some(Instruction { op: Op::AND, address_mode: AddressMode::Absolute }),
        0x2e => Some(Instruction { op: Op::ROL, address_mode: AddressMode::Absolute }),
        0x30 => Some(Instruction { op: Op::BMI, address_mode: AddressMode::Relative }),
        0x31 => Some(Instruction { op: Op::AND, address_mode: AddressMode::IndirectIndexed }),
        0x35 => Some(Instruction { op: Op::AND, address_mode: AddressMode::ZeroPageX }),
        0x36 => Some(Instruction { op: Op::ROL, address_mode: AddressMode::ZeroPageX }),
        0x38 => Some(Instruction { op: Op::SEC, address_mode: AddressMode::Implied }),
        0x39 => Some(Instruction { op: Op::AND, address_mode: AddressMode::AbsoluteY }),
        0x3d => Some(Instruction { op: Op::AND, address_mode: AddressMode::AbsoluteX }),
        0x3e => Some(Instruction { op: Op::ROL, address_mode: AddressMode::AbsoluteX }),
        0x40 => Some(Instruction { op: Op::RTI, address_mode: AddressMode::Implied }),
        0x41 => Some(Instruction { op: Op::EOR, address_mode: AddressMode::IndexedIndirect }),
        0x45 => Some(Instruction { op: Op::EOR, address_mode: AddressMode::ZeroPage }),
        0x46 => Some(Instruction { op: Op::LSR, address_mode: AddressMode::ZeroPage }),
        0x48 => Some(Instruction { op: Op::PHA, address_mode: AddressMode::Implied }),
        0x49 => Some(Instruction { op: Op::EOR, address_mode: AddressMode::Immediate }),
        0x4a => Some(Instruction { op: Op::LSR, address_mode: AddressMode::Accumulator }),
        0x4c => Some(Instruction { op: Op::JMP, address_mode: AddressMode::Absolute }),
        0x4d => Some(Instruction { op: Op::EOR, address_mode: AddressMode::Absolute }),
        0x4e => Some(Instruction { op: Op::LSR, address_mode: AddressMode::Absolute }),
        0x50 => Some(Instruction { op: Op::BVC, address_mode: AddressMode::Relative }),
        0x51 => Some(Instruction { op: Op::EOR, address_mode: AddressMode::IndirectIndexed }),
        0x55 => Some(Instruction { op: Op::EOR, address_mode: AddressMode::ZeroPageX }),
        0x56 => Some(Instruction { op: Op::LSR, address_mode: AddressMode::ZeroPageX }),
        0x58 => Some(Instruction { op: Op::CLI, address_mode: AddressMode::Implied }),
        0x59 => Some(Instruction { op: Op::EOR, address_mode: AddressMode::AbsoluteY }),
        0x5d => Some(Instruction { op: Op::EOR, address_mode: AddressMode::AbsoluteX }),
        0x5e => Some(Instruction { op: Op::LSR, address_mode: AddressMode::AbsoluteX }),
        0x60 => Some(Instruction { op: Op::RTS, address_mode: AddressMode::Implied }),
        0x61 => Some(Instruction { op: Op::ADC, address_mode: AddressMode::IndexedIndirect }),
        0x65 => Some(Instruction { op: Op::ADC, address_mode: AddressMode::ZeroPage }),
        0x66 => Some(Instruction { op: Op::ROR, address_mode: AddressMode::ZeroPage }),
        0x68 => Some(Instruction { op: Op::PLA, address_mode: AddressMode::Implied }),
        0x69 => Some(Instruction { op: Op::ADC, address_mode: AddressMode::Immediate }),
        0x6a => Some(Instruction { op: Op::ROR, address_mode: AddressMode::Accumulator }),
        0x6c => Some(Instruction { op: Op::JMP, address_mode: AddressMode::Indirect }),
        0x6d => Some(Instruction { op: Op::ADC, address_mode: AddressMode::Absolute }),
        0x6e => Some(Instruction { op: Op::ROR, address_mode: AddressMode::Absolute }),
        0x70 => Some(Instruction { op: Op::BVS, address_mode: AddressMode::Relative }),
        0x71 => Some(Instruction { op: Op::ADC, address_mode: AddressMode::IndirectIndexed }),
        0x75 => Some(Instruction { op: Op::ADC, address_mode: AddressMode::ZeroPageX }),
        0x76 => Some(Instruction { op: Op::ROR, address_mode: AddressMode::ZeroPageX }),
        0x78 => Some(Instruction { op: Op::SEI, address_mode: AddressMode::Implied }),
        0x79 => Some(Instruction { op: Op::ADC, address_mode: AddressMode::AbsoluteY }),
        0x7d => Some(Instruction { op: Op::ADC, address_mode: AddressMode::AbsoluteX }),
        0x7e => Some(Instruction { op: Op::ROR, address_mode: AddressMode::AbsoluteX }),
        0x81 => Some(Instruction { op: Op::STA, address_mode: AddressMode::IndexedIndirect }),
        0x84 => Some(Instruction { op: Op::STY, address_mode: AddressMode::ZeroPage }),
        0x85 => Some(Instruction { op: Op::STA, address_mode: AddressMode::ZeroPage }),
        0x86 => Some(Instruction { op: Op::STX, address_mode: AddressMode::ZeroPage }),
        0x88 => Some(Instruction { op: Op::DEY, address_mode: AddressMode::Implied }),
        0x8a => Some(Instruction { op: Op::TXA, address_mode: AddressMode::Implied }),
        0x8c => Some(Instruction { op: Op::STY, address_mode: AddressMode::Absolute }),
        0x8d => Some(Instruction { op: Op::STA, address_mode: AddressMode::Absolute }),
        0x8e => Some(Instruction { op: Op::STX, address_mode: AddressMode::Absolute }),
        0x90 => Some(Instruction { op: Op::BCC, address_mode: AddressMode::Relative }),
        0x91 => Some(Instruction { op: Op::STA, address_mode: AddressMode::IndirectIndexed }),
        0x94 => Some(Instruction { op: Op::STY, address_mode: AddressMode::ZeroPageX }),
        0x95 => Some(Instruction { op: Op::STA, address_mode: AddressMode::ZeroPageX }),
        0x96 => Some(Instruction { op: Op::STX, address_mode: AddressMode::ZeroPageY }),
        0x98 => Some(Instruction { op: Op::TYA, address_mode: AddressMode::Implied }),
        0x99 => Some(Instruction { op: Op::STA, address_mode: AddressMode::AbsoluteY }),
        0x9a => Some(Instruction { op: Op::TXS, address_mode: AddressMode::Implied }),
        0x9d => Some(Instruction { op: Op::STA, address_mode: AddressMode::AbsoluteX }),
        0xa0 => Some(Instruction { op: Op::LDY, address_mode: AddressMode::Immediate }),
        0xa1 => Some(Instruction { op: Op::LDA, address_mode: AddressMode::IndexedIndirect }),
        0xa2 => Some(Instruction { op: Op::LDX, address_mode: AddressMode::Immediate }),
        0xa4 => Some(Instruction { op: Op::LDY, address_mode: AddressMode::ZeroPage }),
        0xa5 => Some(Instruction { op: Op::LDA, address_mode: AddressMode::ZeroPage }),
        0xa6 => Some(Instruction { op: Op::LDX, address_mode: AddressMode::ZeroPage }),
        0xa8 => Some(Instruction { op: Op::TAY, address_mode: AddressMode::Implied }),
        0xa9 => Some(Instruction { op: Op::LDA, address_mode: AddressMode::Immediate }),
        0xaa => Some(Instruction { op: Op::TAX, address_mode: AddressMode::Implied }),
        0xac => Some(Instruction { op: Op::LDY, address_mode: AddressMode::Absolute }),
        0xad => Some(Instruction { op: Op::LDA, address_mode: AddressMode::Absolute }),
        0xae => Some(Instruction { op: Op::LDX, address_mode: AddressMode::Absolute }),
        0xb0 => Some(Instruction { op: Op::BCS, address_mode: AddressMode::Relative }),
        0xb1 => Some(Instruction { op: Op::LDA, address_mode: AddressMode::IndirectIndexed }),
        0xb4 => Some(Instruction { op: Op::LDY, address_mode: AddressMode::ZeroPageX }),
        0xb5 => Some(Instruction { op: Op::LDA, address_mode: AddressMode::ZeroPageX }),
        0xb6 => Some(Instruction { op: Op::LDX, address_mode: AddressMode::ZeroPageY }),
        0xb8 => Some(Instruction { op: Op::CLV, address_mode: AddressMode::Implied }),
        0xb9 => Some(Instruction { op: Op::LDA, address_mode: AddressMode::AbsoluteY }),
        0xba => Some(Instruction { op: Op::TSX, address_mode: AddressMode::Implied }),
        0xbc => Some(Instruction { op: Op::LDY, address_mode: AddressMode::AbsoluteX }),
        0xbd => Some(Instruction { op: Op::LDA, address_mode: AddressMode::AbsoluteX }),
        0xbe => Some(Instruction { op: Op::LDX, address_mode: AddressMode::AbsoluteY }),
        0xc0 => Some(Instruction { op: Op::CPY, address_mode: AddressMode::Immediate }),
        0xc1 => Some(Instruction { op: Op::CMP, address_mode: AddressMode::IndexedIndirect }),
        0xc4 => Some(Instruction { op: Op::CPY, address_mode: AddressMode::ZeroPage }),
        0xc5 => Some(Instruction { op: Op::CMP, address_mode: AddressMode::ZeroPage }),
        0xc6 => Some(Instruction { op: Op::DEC, address_mode: AddressMode::ZeroPage }),
        0xc8 => Some(Instruction { op: Op::INY, address_mode: AddressMode::Implied }),
        0xc9 => Some(Instruction { op: Op::CMP, address_mode: AddressMode::Immediate }),
        0xca => Some(Instruction { op: Op::DEX, address_mode: AddressMode::Implied }),
        0xcc => Some(Instruction { op: Op::CPY, address_mode: AddressMode::Absolute }),
        0xcd => Some(Instruction { op: Op::CMP, address_mode: AddressMode::Absolute }),
        0xce => Some(Instruction { op: Op::DEC, address_mode: AddressMode::Absolute }),
        0xd0 => Some(Instruction { op: Op::BNE, address_mode: AddressMode::Relative }),
        0xd1 => Some(Instruction { op: Op::CMP, address_mode: AddressMode::IndirectIndexed }),
        0xd5 => Some(Instruction { op: Op::CMP, address_mode: AddressMode::ZeroPageX }),
        0xd6 => Some(Instruction { op: Op::DEC, address_mode: AddressMode::ZeroPageX }),
        0xd8 => Some(Instruction { op: Op::CLD, address_mode: AddressMode::Implied }),
        0xd9 => Some(Instruction { op: Op::CMP, address_mode: AddressMode::AbsoluteY }),
        0xdd => Some(Instruction { op: Op::CMP, address_mode: AddressMode::AbsoluteX }),
        0xde => Some(Instruction { op: Op::DEC, address_mode: AddressMode::AbsoluteX }),
        0xe0 => Some(Instruction { op: Op::CPX, address_mode: AddressMode::Immediate }),
        0xe1 => Some(Instruction { op: Op::SBC, address_mode: AddressMode::IndexedIndirect }),
        0xe4 => Some(Instruction { op: Op::CPX, address_mode: AddressMode::ZeroPage }),
        0xe5 => Some(Instruction { op: Op::SBC, address_mode: AddressMode::ZeroPage }),
        0xe6 => Some(Instruction { op: Op::INC, address_mode: AddressMode::ZeroPage }),
        0xe8 => Some(Instruction { op: Op::INX, address_mode: AddressMode::Implied }),
        0xe9 => Some(Instruction { op: Op::SBC, address_mode: AddressMode::Immediate }),
        0xea => Some(Instruction { op: Op::NOP, address_mode: AddressMode::Implied }),
        0xec => Some(Instruction { op: Op::CPX, address_mode: AddressMode::Absolute }),
        0xed => Some(Instruction { op: Op::SBC, address_mode: AddressMode::Absolute }),
        0xee => Some(Instruction { op: Op::INC, address_mode: AddressMode::Absolute }),
        0xf0 => Some(Instruction { op: Op::BEQ, address_mode: AddressMode::Relative }),
        0xf1 => Some(Instruction { op: Op::SBC, address_mode: AddressMode::IndirectIndexed }),
        0xf5 => Some(Instruction { op: Op::SBC, address_mode: AddressMode::ZeroPageX }),
        0xf6 => Some(Instruction { op: Op::INC, address_mode: AddressMode::ZeroPageX }),
        0xf8 => Some(Instruction { op: Op::SED, address_mode: AddressMode::Implied }),
        0xf9 => Some(Instruction { op: Op::SBC, address_mode: AddressMode::AbsoluteY }),
        0xfd => Some(Instruction { op: Op::SBC, address_mode: AddressMode::AbsoluteX }),
        0xfe => Some(Instruction { op: Op::INC, address_mode: AddressMode::AbsoluteX }),
        _ => None,
    }
}

/// Looks `opcode` up in the opcode table; `None` for an undocumented opcode.
pub fn decode(opcode: u8) -> (r: Option<Instruction>)
    ensures
        r == decode_spec(opcode),
{
    match opcode {
        0x00 => Some(Instruction { op: Op::BRK, address_mode: AddressMode::Implied }),
        0x01 => Some(Instruction { op: Op::ORA, address_mode: AddressMode::IndexedIndirect }),
        0x05 => Some(Instruction { op: Op::ORA, address_mode: AddressMode::ZeroPage }),
        0x06 => Some(Instruction { op: Op::ASL, address_mode: AddressMode::ZeroPage }),
        0x08 => Some(Instruction { op: Op::PHP, address_mode: AddressMode::Implied }),
        0x09 => Some(Instruction { op: Op::ORA, address_mode: AddressMode::Immediate }),
        0x0a => Some(Instruction { op: Op::ASL, address_mode: AddressMode::Accumulator }),
        0x0d => Some(Instruction { op: Op::ORA, address_mode: AddressMode::Absolute }),
        0x0e => Some(Instruction { op: Op::ASL, address_mode: AddressMode::Absolute }),
        0x10 => Some(Instruction { op: Op::BPL, address_mode: AddressMode::Relative }),
        0x11 => Some(Instruction { op: Op::ORA, address_mode: AddressMode::IndirectIndexed }),
        0x15 => Some(Instruction { op: Op::ORA, address_mode: AddressMode::ZeroPageX }),
        0x16 => Some(Instruction { op: Op::ASL, address_mode: AddressMode::ZeroPageX }),
        0x18 => Some(Instruction { op: Op::CLC, address_mode: AddressMode::Implied }),
        0x19 => Some(Instruction { op: Op::ORA, address_mode: AddressMode::AbsoluteY }),
        0x1d => Some(Instruction { op: Op::ORA, address_mode: AddressMode::AbsoluteX }),
        0x1e => Some(Instruction { op: Op::ASL, address_mode: AddressMode::AbsoluteX }),
        0x20 => Some(Instruction { op: Op::JSR, address_mode: AddressMode::Absolute }),
        0x21 => Some(Instruction { op: Op::AND, address_mode: AddressMode::IndexedIndirect }),
        0x24 => Some(Instruction { op: Op::BIT, address_mode: AddressMode::ZeroPage }),
        0x25 => Some(Instruction { op: Op::AND, address_mode: AddressMode::ZeroPage }),
        0x26 => Some(Instruction { op: Op::ROL, address_mode: AddressMode::ZeroPage }),
        0x28 => Some(Instruction { op: Op::PLP, address_mode: AddressMode::Implied }),
        0x29 => Some(Instruction { op: Op::AND, address_mode: AddressMode::Immediate }),
        0x2a => Some(Instruction { op: Op::ROL, address_mode: AddressMode::Accumulator }),
        0x2c => Some(Instruction { op: Op::BIT, address_mode: AddressMode::Absolute }),
        0x2d => Some(Instruction { op: Op::AND, address_mode: AddressMode::Absolute }),
        0x2e => Some(Instruction { op: Op::ROL, address_mode: AddressMode::Absolute }),
        0x30 => Some(Instruction { op: Op::BMI, address_mode: AddressMode::Relative }),
        0x31 => Some(Instruction { op: Op::AND, address_mode: AddressMode::IndirectIndexed }),
        0x35 => Some(Instruction { op: Op::AND, address_mode: AddressMode::ZeroPageX }),
        0x36 => Some(Instruction { op: Op::ROL, address_mode: AddressMode::ZeroPageX }),
        0x38 => Some(Instruction { op: Op::SEC, address_mode: AddressMode::Implied }),
        0x39 => Some(Instruction { op: Op::AND, address_mode: AddressMode::AbsoluteY }),
        0x3d => Some(Instruction { op: Op::AND, address_mode: AddressMode::AbsoluteX }),
        0x3e => Some(Instruction { op: Op::ROL, address_mode: AddressMode::AbsoluteX }),
        0x40 => Some(Instruction { op: Op::RTI, address_mode: AddressMode::Implied }),
        0x41 => Some(Instruction { op: Op::EOR, address_mode: AddressMode::IndexedIndirect }),
        0x45 => Some(Instruction { op: Op::EOR, address_mode: AddressMode::ZeroPage }),
        0x46 => Some(Instruction { op: Op::LSR, address_mode: AddressMode::ZeroPage }),
        0x48 => Some(Instruction { op: Op::PHA, address_mode: AddressMode::Implied }),
        0x49 => Some(Instruction { op: Op::EOR, address_mode: AddressMode::Immediate }),
        0x4a => Some(Instruction { op: Op::LSR, address_mode: AddressMode::Accumulator }),
        0x4c => Some(Instruction { op: Op::JMP, address_mode: AddressMode::Absolute }),
        0x4d => Some(Instruction { op: Op::EOR, address_mode: AddressMode::Absolute }),
        0x4e => Some(Instruction { op: Op::LSR, address_mode: AddressMode::Absolute }),
        0x50 => Some(Instruction { op: Op::BVC, address_mode: AddressMode::Relative }),
        0x51 => Some(Instruction { op: Op::EOR, address_mode: AddressMode::IndirectIndexed }),
        0x55 => Some(Instruction { op: Op::EOR, address_mode: AddressMode::ZeroPageX }),
        0x56 => Some(Instruction { op: Op::LSR, address_mode: AddressMode::ZeroPageX }),
        0x58 => Some(Instruction { op: Op::CLI, address_mode: AddressMode::Implied }),
        0x59 => Some(Instruction { op: Op::EOR, address_mode: AddressMode::AbsoluteY }),
        0x5d => Some(Instruction { op: Op::EOR, address_mode: AddressMode::AbsoluteX }),
        0x5e => Some(Instruction { op: Op::LSR, address_mode: AddressMode::AbsoluteX }),
        0x60 => Some(Instruction { op: Op::RTS, address_mode: AddressMode::Implied }),
        0x61 => Some(Instruction { op: Op::ADC, address_mode: AddressMode::IndexedIndirect }),
        0x65 => Some(Instruction { op: Op::ADC, address_mode: AddressMode::ZeroPage }),
        0x66 => Some(Instruction { op: Op::ROR, address_mode: AddressMode::ZeroPage }),
        0x68 => Some(Instruction { op: Op::PLA, address_mode: AddressMode::Implied }),
        0x69 => Some(Instruction { op: Op::ADC, address_mode: AddressMode::Immediate }),
        0x6a => Some(Instruction { op: Op::ROR, address_mode: AddressMode::Accumulator }),
        0x6c => Some(Instruction { op: Op::JMP, address_mode: AddressMode::Indirect }),
        0x6d => Some(Instruction { op: Op::ADC, address_mode: AddressMode::Absolute }),
        0x6e => Some(Instruction { op: Op::ROR, address_mode: AddressMode::Absolute }),
        0x70 => Some(Instruction { op: Op::BVS, address_mode: AddressMode::Relative }),
        0x71 => Some(Instruction { op: Op::ADC, address_mode: AddressMode::IndirectIndexed }),
        0x75 => Some(Instruction { op: Op::ADC, address_mode: AddressMode::ZeroPageX }),
        0x76 => Some(Instruction { op: Op::ROR, address_mode: AddressMode::ZeroPageX }),
        0x78 => Some(Instruction { op: Op::SEI, address_mode: AddressMode::Implied }),
        0x79 => Some(Instruction { op: Op::ADC, address_mode: AddressMode::AbsoluteY }),
        0x7d => Some(Instruction { op: Op::ADC, address_mode: AddressMode::AbsoluteX }),
        0x7e => Some(Instruction { op: Op::ROR, address_mode: AddressMode::AbsoluteX }),
        0x81 => Some(Instruction { op: Op::STA, address_mode: AddressMode::IndexedIndirect }),
        0x84 => Some(Instruction { op: Op::STY, address_mode: AddressMode::ZeroPage }),
        0x85 => Some(Instruction { op: Op::STA, address_mode: AddressMode::ZeroPage }),
        0x86 => Some(Instruction { op: Op::STX, address_mode: AddressMode::ZeroPage }),
        0x88 => Some(Instruction { op: Op::DEY, address_mode: AddressMode::Implied }),
        0x8a => Some(Instruction { op: Op::TXA, address_mode: AddressMode::Implied }),
        0x8c => Some(Instruction { op: Op::STY, address_mode: AddressMode::Absolute }),
        0x8d => Some(Instruction { op: Op::STA, address_mode: AddressMode::Absolute }),
        0x8e => Some(Instruction { op: Op::STX, address_mode: AddressMode::Absolute }),
        0x90 => Some(Instruction { op: Op::BCC, address_mode: AddressMode::Relative }),
        0x91 => Some(Instruction { op: Op::STA, address_mode: AddressMode::IndirectIndexed }),
        0x94 => Some(Instruction { op: Op::STY, address_mode: AddressMode::ZeroPageX }),
        0x95 => Some(Instruction { op: Op::STA, address_mode: AddressMode::ZeroPageX }),
        0x96 => Some(Instruction { op: Op::STX, address_mode: AddressMode::ZeroPageY }),
        0x98 => Some(Instruction { op: Op::TYA, address_mode: AddressMode::Implied }),
        0x99 => Some(Instruction { op: Op::STA, address_mode: AddressMode::AbsoluteY }),
        0x9a => Some(Instruction { op: Op::TXS, address_mode: AddressMode::Implied }),
        0x9d => Some(Instruction { op: Op::STA, address_mode: AddressMode::AbsoluteX }),
        0xa0 => Some(Instruction { op: Op::LDY, address_mode: AddressMode::Immediate }),
        0xa1 => Some(Instruction { op: Op::LDA, address_mode: AddressMode::IndexedIndirect }),
        0xa2 => Some(Instruction { op: Op::LDX, address_mode: AddressMode::Immediate }),
        0xa4 => Some(Instruction { op: Op::LDY, address_mode: AddressMode::ZeroPage }),
        0xa5 => Some(Instruction { op: Op::LDA, address_mode: AddressMode::ZeroPage }),
        0xa6 => Some(Instruction { op: Op::LDX, address_mode: AddressMode::ZeroPage }),
        0xa8 => Some(Instruction { op: Op::TAY, address_mode: AddressMode::Implied }),
        0xa9 => Some(Instruction { op: Op::LDA, address_mode: AddressMode::Immediate }),
        0xaa => Some(Instruction { op: Op::TAX, address_mode: AddressMode::Implied }),
        0xac => Some(Instruction { op: Op::LDY, address_mode: AddressMode::Absolute }),
        0xad => Some(Instruction { op: Op::LDA, address_mode: AddressMode::Absolute }),
        0xae => Some(Instruction { op: Op::LDX, address_mode: AddressMode::Absolute }),
        0xb0 => Some(Instruction { op: Op::BCS, address_mode: AddressMode::Relative }),
        0xb1 => Some(Instruction { op: Op::LDA, address_mode: AddressMode::IndirectIndexed }),
        0xb4 => Some(Instruction { op: Op::LDY, address_mode: AddressMode::ZeroPageX }),
        0xb5 => Some(Instruction { op: Op::LDA, address_mode: AddressMode::ZeroPageX }),
        0xb6 => Some(Instruction { op: Op::LDX, address_mode: AddressMode::ZeroPageY }),
        0xb8 => Some(Instruction { op: Op::CLV, address_mode: AddressMode::Implied }),
        0xb9 => Some(Instruction { op: Op::LDA, address_mode: AddressMode::AbsoluteY }),
        0xba => Some(Instruction { op: Op::TSX, address_mode: AddressMode::Implied }),
        0xbc => Some(Instruction { op: Op::LDY, address_mode: AddressMode::AbsoluteX }),
        0xbd => Some(Instruction { op: Op::LDA, address_mode: AddressMode::AbsoluteX }),
        0xbe => Some(Instruction { op: Op::LDX, address_mode: AddressMode::AbsoluteY }),
        0xc0 => Some(Instruction { op: Op::CPY, address_mode: AddressMode::Immediate }),
        0xc1 => Some(Instruction { op: Op::CMP, address_mode: AddressMode::IndexedIndirect }),
        0xc4 => Some(Instruction { op: Op::CPY, address_mode: AddressMode::ZeroPage }),
        0xc5 => Some(Instruction { op: Op::CMP, address_mode: AddressMode::ZeroPage }),
        0xc6 => Some(Instruction { op: Op::DEC, address_mode: AddressMode::ZeroPage }),
        0xc8 => Some(Instruction { op: Op::INY, address_mode: AddressMode::Implied }),
        0xc9 => Some(Instruction { op: Op::CMP, address_mode: AddressMode::Immediate }),
        0xca => Some(Instruction { op: Op::DEX, address_mode: AddressMode::Implied }),
        0xcc => Some(Instruction { op: Op::CPY, address_mode: AddressMode::Absolute }),
        0xcd => Some(Instruction { op: Op::CMP, address_mode: AddressMode::Absolute }),
        0xce => Some(Instruction { op: Op::DEC, address_mode: AddressMode::Absolute }),
        0xd0 => Some(Instruction { op: Op::BNE, address_mode: AddressMode::Relative }),
        0xd1 => Some(Instruction { op: Op::CMP, address_mode: AddressMode::IndirectIndexed }),
        0xd5 => Some(Instruction { op: Op::CMP, address_mode: AddressMode::ZeroPageX }),
        0xd6 => Some(Instruction { op: Op::DEC, address_mode: AddressMode::ZeroPageX }),
        0xd8 => Some(Instruction { op: Op::CLD, address_mode: AddressMode::Implied }),
        0xd9 => Some(Instruction { op: Op::CMP, address_mode: AddressMode::AbsoluteY }),
        0xdd => Some(Instruction { op: Op::CMP, address_mode: AddressMode::AbsoluteX }),
        0xde => Some(Instruction { op: Op::DEC, address_mode: AddressMode::AbsoluteX }),
        0xe0 => Some(Instruction { op: Op::CPX, address_mode: AddressMode::Immediate }),
        0xe1 => Some(Instruction { op: Op::SBC, address_mode: AddressMode::IndexedIndirect }),
        0xe4 => Some(Instruction { op: Op::CPX, address_mode: AddressMode::ZeroPage }),
        0xe5 => Some(Instruction { op: Op::SBC, address_mode: AddressMode::ZeroPage }),
        0xe6 => Some(Instruction { op: Op::INC, address_mode: AddressMode::ZeroPage }),
        0xe8 => Some(Instruction { op: Op::INX, address_mode: AddressMode::Implied }),
        0xe9 => Some(Instruction { op: Op::SBC, address_mode: AddressMode::Immediate }),
        0xea => Some(Instruction { op: Op::NOP, address_mode: AddressMode::Implied }),
        0xec => Some(Instruction { op: Op::CPX, address_mode: AddressMode::Absolute }),
        0xed => Some(Instruction { op: Op::SBC, address_mode: AddressMode::Absolute }),
        0xee => Some(Instruction { op: Op::INC, address_mode: AddressMode::Absolute }),
        0xf0 => Some(Instruction { op: Op::BEQ, address_mode: AddressMode::Relative }),
        0xf1 => Some(Instruction { op: Op::SBC, address_mode: AddressMode::IndirectIndexed }),
        0xf5 => Some(Instruction { op: Op::SBC, address_mode: AddressMode::ZeroPageX }),
        0xf6 => Some(Instruction { op: Op::INC, address_mode: AddressMode::ZeroPageX }),
        0xf8 => Some(Instruction { op: Op::SED, address_mode: AddressMode::Implied }),
        0xf9 => Some(Instruction { op: Op::SBC, address_mode: AddressMode::AbsoluteY }),
        0xfd => Some(Instruction { op: Op::SBC, address_mode: AddressMode::AbsoluteX }),
        0xfe => Some(Instruction { op: Op::INC, address_mode: AddressMode::AbsoluteX }),
        _ => None,
    }
}

/// Whether `op` is an arithmetic, logic or compare operation.
pub open spec fn is_arithmetic(op: Op) -> bool {
    op == Op::ADC || op == Op::SBC || op == Op::AND || op == Op::EOR || op == Op::ORA ||
        op == Op::BIT || op == Op::CMP || op == Op::CPX || op == Op::CPY
}

/// Whether `op` is a shift, rotate, increment or decrement.
pub open spec fn is_read_modify_write(op: Op) -> bool {
    op == Op::ASL || op == Op::LSR || op == Op::ROL || op == Op::ROR || op == Op::INC ||
        op == Op::DEC
}

/// Whether `op` is a conditional branch.
pub open spec fn is_branch(op: Op) -> bool {
    op == Op::BCC || op == Op::BCS || op == Op::BEQ || op == Op::BNE || op == Op::BMI ||
        op == Op::BPL || op == Op::BVC || op == Op::BVS
}

/// Whether `op` sets or clears a flag, or does nothing.
pub open spec fn is_flag(op: Op) -> bool {
    op == Op::CLC || op == Op::CLD || op == Op::CLI || op == Op::CLV || op == Op::SEC ||
        op == Op::SED || op == Op::SEI || op == Op::NOP
}

/// Whether `op` is a load or a store.
pub open spec fn is_load_store(op: Op) -> bool {
    op == Op::LDA || op == Op::LDX || op == Op::LDY || op == Op::STA || op == Op::STX ||
        op == Op::STY
}

/// Whether `op` transfers, increments or decrements a register.
pub open spec fn is_register(op: Op) -> bool {
    op == Op::TAX || op == Op::TAY || op == Op::TXA || op == Op::TYA || op == Op::TSX ||
        op == Op::TXS || op == Op::INX || op == Op::INY || op == Op::DEX || op == Op::DEY
}

/// Whether `op` jumps, calls, returns, interrupts or uses the stack.
pub open spec fn is_control(op: Op) -> bool {
    op == Op::JMP || op == Op::JSR || op == Op::RTS || op == Op::RTI || op == Op::BRK ||
        op == Op::PHA || op == Op::PHP || op == Op::PLA || op == Op::PLP
}

impl Instruction {
    /// Performs the instruction on `emulator`, whose program counter is past the opcode.
    pub fn run<C: Memory>(self, emulator: &mut Emulator<C>)
        requires
            old(emulator).wf(),
        ensures
            final(emulator).wf(),
            final(emulator).state() == old(emulator).state().execute(self),
    {
        let op = self.op;
        if matches!(
            op,
            Op::ADC | Op::SBC | Op::AND | Op::EOR | Op::ORA | Op::BIT | Op::CMP | Op::CPX |
            Op::CPY,
        ) {
            self.run_arithmetic(emulator)
        } else if matches!(
            op,
            Op::ASL | Op::LSR | Op::ROL | Op::ROR | Op::INC | Op::DEC,
        ) {
            self.run_read_modify_write(emulator)
        } else if matches!(
            op,
            Op::BCC | Op::BCS | Op::BEQ | Op::BNE | Op::BMI | Op::BPL | Op::BVC | Op::BVS,
        ) {
            self.run_branch(emulator)
        } else if matches!(
            op,
            Op::CLC | Op::CLD | Op::CLI | Op::CLV | Op::SEC | Op::SED | Op::SEI | Op::NOP,
        ) {
            self.run_flag(emulator)
        } else if matches!(
            op,
            Op::LDA | Op::LDX | Op::LDY | Op::STA | Op::STX | Op::STY,
        ) {
            self.run_load_store(emulator)
        } else if matches!(
            op,
            Op::TAX | Op::TAY | Op::TXA | Op::TYA | Op::TSX | Op::TXS | Op::INX | Op::INY |
            Op::DEX | Op::DEY,
        ) {
            self.run_register(emulator)
        } else {
            self.run_control(emulator)
        }
    }

    fn run_arithmetic<C: Memory>(self, emulator: &mut Emulator<C>)
        requires
            old(emulator).wf(),
            is_arithmetic(self.op),
        ensures
            final(emulator).wf(),
            final(emulator).state() == old(emulator).state().execute(self),
    {
        let mode = self.address_mode;
        let ghost s = old(emulator).state();
        let ghost r = s.registers;
        match self.op {
            Op::ADC => {
                emulator.adc(mode);
                assert(s.execute(self) == s.adc(mode)) by {
                    reveal(Machine::execute);
                }
            },
            Op::SBC => {
                emulator.sbc(mode);
                assert(s.execute(self) == s.sbc(mode)) by {
                    reveal(Machine::execute);
                }
            },
            Op::AND => {
                emulator.and(mode);
                assert(s.execute(self) == s.and(mode)) by {
                    reveal(Machine::execute);
                }
            },
            Op::EOR => {
                emulator.eor(mode);
                assert(s.execute(self) == s.eor(mode)) by {
                    reveal(Machine::execute);
                }
            },
            Op::ORA => {
                emulator.ora(mode);
                assert(s.execute(self) == s.ora(mode)) by {
                    reveal(Machine::execute);
                }
            },
            Op::BIT => {
                emulator.bit(mode);
                assert(s.execute(self) == s.bit(mode)) by {
                    reveal(Machine::execute);
                }
            },
            Op::CMP => {
                emulator.cmp(mode);
                assert(s.execute(self) == s.compare(mode, r.accumulator)) by {
                    reveal(Machine::execute);
                }
            },
            Op::CPX => {
                emulator.cpx(mode);
                assert(s.execute(self) == s.compare(mode, r.x)) by {
                    reveal(Machine::execute);
                }
            },
            Op::CPY => {
                emulator.cpy(mode);
                assert(s.execute(self) == s.compare(mode, r.y)) by {
                    reveal(Machine::execute);
                }
            },
            _ => {},
        }
    }

    fn run_read_modify_write<C: Memory>(self, emulator: &mut Emulator<C>)
        requires
            old(emulator).wf(),
            is_read_modify_write(self.op),
        ensures
            final(emulator).wf(),
            final(emulator).state() == old(emulator).state().execute(self),
    {
        let mode = self.address_mode;
        let ghost s = old(emulator).state();
        let ghost r = s.registers;
        match self.op {
            Op::ASL => {
                if mode == AddressMode::Accumulator {
                    emulator.asl_acc();
                } else {
                    emulator.asl_mem(mode);
                }
                assert(s.execute(self) == if mode == AddressMode::Accumulator { s.shift_acc(self.op) } else { s.shift_mem(self.op, mode) }) by {
                    reveal(Machine::execute);
                }
            },
            Op::LSR => {
                if mode == AddressMode::Accumulator {
                    emulator.lsr_acc();
                } else {
                    emulator.lsr_mem(mode);
                }
                assert(s.execute(self) == if mode == AddressMode::Accumulator { s.shift_acc(self.op) } else { s.shift_mem(self.op, mode) }) by {
                    reveal(Machine::execute);
                }
            },
            Op::ROL => {
                if mode == AddressMode::Accumulator {
                    emulator.rol_acc();
                } else {
                    emulator.rol_mem(mode);
                }
                assert(s.execute(self) == if mode == AddressMode::Accumulator { s.shift_acc(self.op) } else { s.shift_mem(self.op, mode) }) by {
                    reveal(Machine::execute);
                }
            },
            Op::ROR => {
                if mode == AddressMode::Accumulator {
                    emulator.ror_acc();
                } else {
                    emulator.ror_mem(mode);
                }
                assert(s.execute(self) == if mode == AddressMode::Accumulator { s.shift_acc(self.op) } else { s.shift_mem(self.op, mode) }) by {
                    reveal(Machine::execute);
                }
            },
            Op::INC => {
                emulator.inc(mode);
                assert(s.execute(self) == s.step_mem(mode, 1)) by {
                    reveal(Machine::execute);
                }
            },
            Op::DEC => {
                emulator.dec(mode);
                assert(s.execute(self) == s.step_mem(mode, -1)) by {
                    reveal(Machine::execute);
                }
            },
            _ => {},
        }
    }

    fn run_branch<C: Memory>(self, emulator: &mut Emulator<C>)
        requires
            old(emulator).wf(),
            is_branch(self.op),
        ensures
            final(emulator).wf(),
            final(emulator).state() == old(emulator).state().execute(self),
    {
        let mode = self.address_mode;
        let ghost s = old(emulator).state();
        let ghost r = s.registers;
        match self.op {
            Op::BCC => {
                emulator.bcc();
                assert(s.execute(self) == s.branch(Flag::Carry, false)) by {
                    reveal(Machine::execute);
                }
            },
            Op::BCS => {
                emulator.bcs();
                assert(s.execute(self) == s.branch(Flag::Carry, true)) by {
                    reveal(Machine::execute);
                }
            },
            Op::BEQ => {
                emulator.beq();
                assert(s.execute(self) == s.branch(Flag::Zero, true)) by {
                    reveal(Machine::execute);
                }
            },
            Op::BNE => {
                emulator.bne();
                assert(s.execute(self) == s.branch(Flag::Zero, false)) by {
                    reveal(Machine::execute);
                }
            },
            Op::BMI => {
                emulator.bmi();
                assert(s.execute(self) == s.branch(Flag::Negative, true)) by {
                    reveal(Machine::execute);
                }
            },
            Op::BPL => {
                emulator.bpl();
                assert(s.execute(self) == s.branch(Flag::Negative, false)) by {
                    reveal(Machine::execute);
                }
            },
            Op::BVC => {
                emulator.bvc();
                assert(s.execute(self) == s.branch(Flag::Overflow, false)) by {
                    reveal(Machine::execute);
                }
            },
            Op::BVS => {
                emulator.bvs();
                assert(s.execute(self) == s.branch(Flag::Overflow, true)) by {
                    reveal(Machine::execute);
                }
            },
            _ => {},
        }
    }

    fn run_flag<C: Memory>(self, emulator: &mut Emulator<C>)
        requires
            old(emulator).wf(),
            is_flag(self.op),
        ensures
            final(emulator).wf(),
            final(emulator).state() == old(emulator).state().execute(self),
    {
        let mode = self.address_mode;
        let ghost s = old(emulator).state();
        let ghost r = s.registers;
        match self.op {
            Op::CLC => {
                emulator.clc();
                assert(s.execute(self) == s.set_flag(Flag::Carry, false)) by {
                    reveal(Machine::execute);
                }
            },
            Op::CLD => {
                emulator.cld();
                assert(s.execute(self) == s.set_flag(Flag::Decimal, false)) by {
                    reveal(Machine::execute);
                }
            },
            Op::CLI => {
                emulator.cli();
                assert(s.execute(self) == s.set_flag(Flag::Interrupt, false)) by {
                    reveal(Machine::execute);
                }
            },
            Op::CLV => {
                emulator.clv();
                assert(s.execute(self) == s.set_flag(Flag::Overflow, false)) by {
                    reveal(Machine::execute);
                }
            },
            Op::SEC => {
                emulator.sec();
                assert(s.execute(self) == s.set_flag(Flag::Carry, true)) by {
                    reveal(Machine::execute);
                }
            },
            Op::SED => {
                emulator.sed();
                assert(s.execute(self) == s.set_flag(Flag::Decimal, true)) by {
                    reveal(Machine::execute);
                }
            },
            Op::SEI => {
                emulator.sei();
                assert(s.execute(self) == s.set_flag(Flag::Interrupt, true)) by {
                    reveal(Machine::execute);
                }
            },
            Op::NOP => {
                emulator.nop();
                assert(s.execute(self) == s) by {
                    reveal(Machine::execute);
                }
            },
            _ => {},
        }
    }

    fn run_load_store<C: Memory>(self, emulator: &mut Emulator<C>)
        requires
            old(emulator).wf(),
            is_load_store(self.op),
        ensures
            final(emulator).wf(),
            final(emulator).state() == old(emulator).state().execute(self),
    {
        let mode = self.address_mode;
        let ghost s = old(emulator).state();
        let ghost r = s.registers;
        match self.op {
            Op::LDA => {
                emulator.lda(mode);
                assert(s.execute(self) == s.load(mode).0.set_a(s.load(mode).1)) by {
                    reveal(Machine::execute);
                }
            },
            Op::LDX => {
                emulator.ldx(mode);
                assert(s.execute(self) == s.load(mode).0.set_x(s.load(mode).1)) by {
                    reveal(Machine::execute);
                }
            },
            Op::LDY => {
                emulator.ldy(mode);
                assert(s.execute(self) == s.load(mode).0.set_y(s.load(mode).1)) by {
                    reveal(Machine::execute);
                }
            },
            Op::STA => {
                emulator.sta(mode);
                assert(s.execute(self) == s.store_to(mode, r.accumulator)) by {
                    reveal(Machine::execute);
                }
            },
            Op::STX => {
                emulator.stx(mode);
                assert(s.execute(self) == s.store_to(mode, r.x)) by {
                    reveal(Machine::execute);
                }
            },
            Op::STY => {
                emulator.sty(mode);
                assert(s.execute(self) == s.store_to(mode, r.y)) by {
                    reveal(Machine::execute);
                }
            },
            _ => {},
        }
    }

    fn run_register<C: Memory>(self, emulator: &mut Emulator<C>)
        requires
            old(emulator).wf(),
            is_register(self.op),
        ensures
            final(emulator).wf(),
            final(emulator).state() == old(emulator).state().execute(self),
    {
        let mode = self.address_mode;
        let ghost s = old(emulator).state();
        let ghost r = s.registers;
        match self.op {
            Op::TAX => {
                emulator.tax();
                assert(s.execute(self) == s.set_x(r.accumulator).set_zn(r.accumulator)) by {
                    reveal(Machine::execute);
                }
            },
            Op::TAY => {
                emulator.tay();
                assert(s.execute(self) == s.set_y(r.accumulator).set_zn(r.accumulator)) by {
                    reveal(Machine::execute);
                }
            },
            Op::TXA => {
                emulator.txa();
                assert(s.execute(self) == s.set_a(r.x).set_zn(r.x)) by {
                    reveal(Machine::execute);
                }
            },
            Op::TYA => {
                emulator.tya();
                assert(s.execute(self) == s.set_a(r.y).set_zn(r.y)) by {
                    reveal(Machine::execute);
                }
            },
            Op::TSX => {
                emulator.tsx();
                assert(s.execute(self) == s.set_x(r.stack_pointer).set_zn(r.stack_pointer)) by {
                    reveal(Machine::execute);
                }
            },
            Op::TXS => {
                emulator.txs();
                assert(s.execute(self) == s.set_sp(r.x)) by {
                    reveal(Machine::execute);
                }
            },
            Op::INX => {
                emulator.inx();
                assert(s.execute(self) == s.set_x(((r.x as int + 1) % 256) as u8).set_zn(((r.x as int + 1) % 256) as u8)) by {
                    reveal(Machine::execute);
                }
            },
            Op::INY => {
                emulator.iny();
                assert(s.execute(self) == s.set_y(((r.y as int + 1) % 256) as u8).set_zn(((r.y as int + 1) % 256) as u8)) by {
                    reveal(Machine::execute);
                }
            },
            Op::DEX => {
                emulator.dex();
                assert(s.execute(self) == s.set_x(((r.x as int - 1) % 256) as u8).set_zn(((r.x as int - 1) % 256) as u8)) by {
                    reveal(Machine::execute);
                }
            },
            Op::DEY => {
                emulator.dey();
                assert(s.execute(self) == s.set_y(((r.y as int - 1) % 256) as u8).set_zn(((r.y as int - 1) % 256) as u8)) by {
                    reveal(Machine::execute);
                }
            },
            _ => {},
        }
    }

    fn run_control<C: Memory>(self, emulator: &mut Emulator<C>)
        requires
            old(emulator).wf(),
            is_control(self.op),
        ensures
            final(emulator).wf(),
            final(emulator).state() == old(emulator).state().execute(self),
    {
        let mode = self.address_mode;
        let ghost s = old(emulator).state();
        let ghost r = s.registers;
        match self.op {
            Op::JMP => {
                emulator.jmp(mode);
                assert(s.execute(self) == s.set_pc(s.operand_address(mode))) by {
                    reveal(Machine::execute);
                }
            },
            Op::JSR => {
                emulator.jsr();
                assert(s.execute(self) == s.jsr()) by {
                    reveal(Machine::execute);
                }
            },
            Op::RTS => {
                emulator.rts();
                assert(s.execute(self) == s.rts()) by {
                    reveal(Machine::execute);
                }
            },
            Op::RTI => {
                emulator.rti();
                assert(s.execute(self) == s.rti()) by {
                    reveal(Machine::execute);
                }
            },
            Op::BRK => {
                emulator.brk();
                assert(s.execute(self) == s.interrupt(true, 0xfffe)) by {
                    reveal(Machine::execute);
                }
            },
            Op::PHA => {
                emulator.pha();
                assert(s.execute(self) == s.push(r.accumulator)) by {
                    reveal(Machine::execute);
                }
            },
            Op::PHP => {
                emulator.php();
                assert(s.execute(self) == s.php()) by {
                    reveal(Machine::execute);
                }
            },
            Op::PLA => {
                emulator.pla();
                assert(s.execute(self) == s.pull().set_a(s.stack_top()).set_zn(s.stack_top())) by {
                    reveal(Machine::execute);
                }
            },
            Op::PLP => {
                emulator.plp();
                assert(s.execute(self) == s.plp()) by {
                    reveal(Machine::execute);
                }
            },
            _ => {},
        }
    }
}

} // verus!
