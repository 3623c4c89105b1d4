//! Turns parsed lines into machine code with the opcode table.
use vstd::prelude::*;

use crate::assembler::parser::{ParsedAddress, ParsedInstruction};
use crate::emulator::addressing::AddressMode;
use crate::emulator::instructions::dispatch::{decode, decode_spec, is_branch};
use crate::emulator::instructions::{Instruction, Op};

verus! {

/// The operation that an upper-case three-letter mnemonic names.
pub open spec fn mnemonic_op(m: Seq<u8>) -> Option<Op> {
    if m.len() == 3 {
        match (m[0], m[1], m[2]) {
            (0x41, 0x44, 0x43) => Some(Op::ADC),
            (0x41, 0x4E, 0x44) => Some(Op::AND),
            (0x41, 0x53, 0x4C) => Some(Op::ASL),
            (0x42, 0x43, 0x43) => Some(Op::BCC),
            (0x42, 0x43, 0x53) => Some(Op::BCS),
            (0x42, 0x45, 0x51) => Some(Op::BEQ),
            (0x42, 0x49, 0x54) => Some(Op::BIT),
            (0x42, 0x4D, 0x49) => Some(Op::BMI),
            (0x42, 0x4E, 0x45) => Some(Op::BNE),
            (0x42, 0x50, 0x4C) => Some(Op::BPL),
            (0x42, 0x52, 0x4B) => Some(Op::BRK),
            (0x42, 0x56, 0x43) => Some(Op::BVC),
            (0x42, 0x56, 0x53) => Some(Op::BVS),
            (0x43, 0x4C, 0x43) => Some(Op::CLC),
            (0x43, 0x4C, 0x44) => Some(Op::CLD),
            (0x43, 0x4C, 0x49) => Some(Op::CLI),
            (0x43, 0x4C, 0x56) => Some(Op::CLV),
            (0x43, 0x4D, 0x50) => Some(Op::CMP),
            (0x43, 0x50, 0x58) => Some(Op::CPX),
            (0x43, 0x50, 0x59) => Some(Op::CPY),
            (0x44, 0x45, 0x43) => Some(Op::DEC),
            (0x44, 0x45, 0x58) => Some(Op::DEX),
            (0x44, 0x45, 0x59) => Some(Op::DEY),
            (0x45, 0x4F, 0x52) => Some(Op::EOR),
            (0x49, 0x4E, 0x43) => Some(Op::INC),
            (0x49, 0x4E, 0x58) => Some(Op::INX),
            (0x49, 0x4E, 0x59) => Some(Op::INY),
            (0x4A, 0x4D, 0x50) => Some(Op::JMP),
            (0x4A, 0x53, 0x52) => Some(Op::JSR),
            (0x4C, 0x44, 0x41) => Some(Op::LDA),
            (0x4C, 0x44, 0x58) => Some(Op::LDX),
            (0x4C, 0x44, 0x59) => Some(Op::LDY),
            (0x4C, 0x53, 0x52) => Some(Op::LSR),
            (0x4E, 0x4F, 0x50) => Some(Op::NOP),
            (0x4F, 0x52, 0x41) => Some(Op::ORA),
            (0x50, 0x48, 0x41) => Some(Op::PHA),
            (0x50, 0x48, 0x50) => Some(Op::PHP),
            (0x50, 0x4C, 0x41) => Some(Op::PLA),
            (0x50, 0x4C, 0x50) => Some(Op::PLP),
            (0x52, 0x4F, 0x4C) => Some(Op::ROL),
            (0x52, 0x4F, 0x52) => Some(Op::ROR),
            (0x52, 0x54, 0x49) => Some(Op::RTI),
            (0x52, 0x54, 0x53) => Some(Op::RTS),
            (0x53, 0x42, 0x43) => Some(Op::SBC),
            (0x53, 0x45, 0x43) => Some(Op::SEC),
            (0x53, 0x45, 0x44) => Some(Op::SED),
            (0x53, 0x45, 0x49) => Some(Op::SEI),
            (0x53, 0x54, 0x41) => Some(Op::STA),
            (0x53, 0x54, 0x58) => Some(Op::STX),
            (0x53, 0x54, 0x59) => Some(Op::STY),
            (0x54, 0x41, 0x58) => Some(Op::TAX),
            (0x54, 0x41, 0x59) => Some(Op::TAY),
            (0x54, 0x53, 0x58) => Some(Op::TSX),
            (0x54, 0x58, 0x41) => Some(Op::TXA),
            (0x54, 0x58, 0x53) => Some(Op::TXS),
            (0x54, 0x59, 0x41) => Some(Op::TYA),
            _ => None,
        }
    } else {
        None
    }
}

fn op_of_mnemonic(m: &[u8]) -> (r: Option<Op>)
    ensures
        r == mnemonic_op(m@),
{
    if m.len() == 3 {
        match (m[0], m[1], m[2]) {
            (0x41, 0x44, 0x43) => Some(Op::ADC),
            (0x41, 0x4E, 0x44) => Some(Op::AND),
            (0x41, 0x53, 0x4C) => Some(Op::ASL),
            (0x42, 0x43, 0x43) => Some(Op::BCC),
            (0x42, 0x43, 0x53) => Some(Op::BCS),
            (0x42, 0x45, 0x51) => Some(Op::BEQ),
            (0x42, 0x49, 0x54) => Some(Op::BIT),
            (0x42, 0x4D, 0x49) => Some(Op::BMI),
            (0x42, 0x4E, 0x45) => Some(Op::BNE),
            (0x42, 0x50, 0x4C) => Some(Op::BPL),
            (0x42, 0x52, 0x4B) => Some(Op::BRK),
            (0x42, 0x56, 0x43) => Some(Op::BVC),
            (0x42, 0x56, 0x53) => Some(Op::BVS),
            (0x43, 0x4C, 0x43) => Some(Op::CLC),
            (0x43, 0x4C, 0x44) => Some(Op::CLD),
            (0x43, 0x4C, 0x49) => Some(Op::CLI),
            (0x43, 0x4C, 0x56) => Some(Op::CLV),
            (0x43, 0x4D, 0x50) => Some(Op::CMP),
            (0x43, 0x50, 0x58) => Some(Op::CPX),
            (0x43, 0x50, 0x59) => Some(Op::CPY),
            (0x44, 0x45, 0x43) => Some(Op::DEC),
            (0x44, 0x45, 0x58) => Some(Op::DEX),
            (0x44, 0x45, 0x59) => Some(Op::DEY),
            (0x45, 0x4F, 0x52) => Some(Op::EOR),
            (0x49, 0x4E, 0x43) => Some(Op::INC),
            (0x49, 0x4E, 0x58) => Some(Op::INX),
            (0x49, 0x4E, 0x59) => Some(Op::INY),
            (0x4A, 0x4D, 0x50) => Some(Op::JMP),
            (0x4A, 0x53, 0x52) => Some(Op::JSR),
            (0x4C, 0x44, 0x41) => Some(Op::LDA),
            (0x4C, 0x44, 0x58) => Some(Op::LDX),
            (0x4C, 0x44, 0x59) => Some(Op::LDY),
            (0x4C, 0x53, 0x52) => Some(Op::LSR),
            (0x4E, 0x4F, 0x50) => Some(Op::NOP),
            (0x4F, 0x52, 0x41) => Some(Op::ORA),
            (0x50, 0x48, 0x41) => Some(Op::PHA),
            (0x50, 0x48, 0x50) => Some(Op::PHP),
            (0x50, 0x4C, 0x41) => Some(Op::PLA),
            (0x50, 0x4C, 0x50) => Some(Op::PLP),
            (0x52, 0x4F, 0x4C) => Some(Op::ROL),
            (0x52, 0x4F, 0x52) => Some(Op::ROR),
            (0x52, 0x54, 0x49) => Some(Op::RTI),
            (0x52, 0x54, 0x53) => Some(Op::RTS),
            (0x53, 0x42, 0x43) => Some(Op::SBC),
            (0x53, 0x45, 0x43) => Some(Op::SEC),
            (0x53, 0x45, 0x44) => Some(Op::SED),
            (0x53, 0x45, 0x49) => Some(Op::SEI),
            (0x53, 0x54, 0x41) => Some(Op::STA),
            (0x53, 0x54, 0x58) => Some(Op::STX),
            (0x53, 0x54, 0x59) => Some(Op::STY),
            (0x54, 0x41, 0x58) => Some(Op::TAX),
            (0x54, 0x41, 0x59) => Some(Op::TAY),
            (0x54, 0x53, 0x58) => Some(Op::TSX),
            (0x54, 0x58, 0x41) => Some(Op::TXA),
            (0x54, 0x58, 0x53) => Some(Op::TXS),
            (0x54, 0x59, 0x41) => Some(Op::TYA),
            _ => None,
        }
    } else {
        None
    }
}

/// The addressing mode that an operand selects for `op`. Without an operand, shifts and
/// rotates act on the accumulator; a bare byte is a displacement for branches and a
/// zero-page address for the rest.
pub open spec fn mode_for(op: Op, address: Option<ParsedAddress>) -> Option<AddressMode> {
    match address {
        None | Some(ParsedAddress::Empty) => if op == Op::ASL || op == Op::LSR || op == Op::ROL
            || op == Op::ROR {
            Some(AddressMode::Accumulator)
        } else {
            Some(AddressMode::Implied)
        },
        Some(ParsedAddress::Immediate { .. }) => Some(AddressMode::Immediate),
        Some(ParsedAddress::ZeroPageOrRelative { .. }) => if is_branch(op) {
            Some(AddressMode::Relative)
        } else {
            Some(AddressMode::ZeroPage)
        },
        Some(ParsedAddress::AbsoluteX { .. }) => Some(AddressMode::AbsoluteX),
        Some(ParsedAddress::Unknown) => None,
    }
}

/// The operand bytes that follow the opcode, low byte first.
pub open spec fn operand_bytes(address: Option<ParsedAddress>) -> Seq<u8> {
    match address {
        Some(ParsedAddress::Immediate { value }) => seq![value],
        Some(ParsedAddress::ZeroPageOrRelative { value }) => seq![value],
        Some(ParsedAddress::AbsoluteX { value }) => seq![(value % 256) as u8, (value / 256) as u8],
        _ => Seq::empty(),
    }
}

/// The first opcode byte, from `b` upwards, that decodes to `i`.
pub open spec fn opcode_from(i: Instruction, b: int) -> Option<u8>
    decreases 256 - b,
{
    if b < 0 || b > 255 {
        None
    } else if decode_spec(b as u8) == Some(i) {
        Some(b as u8)
    } else {
        opcode_from(i, b + 1)
    }
}

/// The machine code for a mnemonic and operand, when the opcode table has that pairing.
pub open spec fn encoding(mnemonic: Seq<u8>, address: Option<ParsedAddress>) -> Option<Seq<u8>> {
    match mnemonic_op(mnemonic) {
        None => None,
        Some(op) => match mode_for(op, address) {
            None => None,
            Some(mode) => match opcode_from(Instruction { op, address_mode: mode }, 0) {
                None => None,
                Some(b) => Some(seq![b] + operand_bytes(address)),
            },
        },
    }
}

proof fn lemma_opcode_from_decodes(i: Instruction, b: int)
    requires
        opcode_from(i, b) is Some,
    ensures
        decode_spec(opcode_from(i, b).unwrap()) == Some(i),
    decreases 256 - b,
{
    if 0 <= b <= 255 && decode_spec(b as u8) != Some(i) {
        lemma_opcode_from_decodes(i, b + 1);
    }
}

/// The opcode of `i` in the opcode table, searched from the lowest byte up.
fn opcode_for(i: Instruction) -> (r: Option<u8>)
    ensures
        r == opcode_from(i, 0),
        r matches Some(b) ==> decode_spec(b) == Some(i),
{
    let mut b: u16 = 0;
    while b < 256
        invariant
            b <= 256,
            opcode_from(i, b as int) == opcode_from(i, 0),
        decreases 256 - b,
    {
        if decode(b as u8) == Some(i) {
            proof {
                lemma_opcode_from_decodes(i, 0);
            }
            return Some(b as u8);
        }
        b = b + 1;
    }
    None
}

/// Encodes parsed assembly with the opcode table.
pub struct Encoder {}

impl Encoder {
    pub fn new() -> Self {
        Encoder {  }
    }

    /// The machine code of one parsed line; `None` for an unknown mnemonic or an operand
    /// that the mnemonic does not take. The first byte decodes back to the mnemonic's
    /// operation and the operand's mode.
    pub fn encode_instruction(&self, parsed_instr: &ParsedInstruction) -> (r: Option<Vec<u8>>)
        ensures
            match encoding(parsed_instr.instruction@, parsed_instr.address) {
                Some(s) => r is Some && r.unwrap()@ == s,
                None => r is None,
            },
            r matches Some(v) ==> decode_spec(v@[0]) == Some(
                Instruction {
                    op: mnemonic_op(parsed_instr.instruction@).unwrap(),
                    address_mode: mode_for(
                        mnemonic_op(parsed_instr.instruction@).unwrap(),
                        parsed_instr.address,
                    ).unwrap(),
                },
            ),
    {
        let op = match op_of_mnemonic(parsed_instr.instruction) {
            Some(op) => op,
            None => return None,
        };
        let is_shift = op == Op::ASL || op == Op::LSR || op == Op::ROL || op == Op::ROR;
        let is_branch = op == Op::BCC || op == Op::BCS || op == Op::BEQ || op == Op::BNE || op
            == Op::BMI || op == Op::BPL || op == Op::BVC || op == Op::BVS;
        let mode = match parsed_instr.address {
            None | Some(ParsedAddress::Empty) => if is_shift {
                AddressMode::Accumulator
            } else {
                AddressMode::Implied
            },
            Some(ParsedAddress::Immediate { .. }) => AddressMode::Immediate,
            Some(ParsedAddress::ZeroPageOrRelative { .. }) => if is_branch {
                AddressMode::Relative
            } else {
                AddressMode::ZeroPage
            },
            Some(ParsedAddress::AbsoluteX { .. }) => AddressMode::AbsoluteX,
            Some(ParsedAddress::Unknown) => return None,
        };
        let opcode = match opcode_for(Instruction { op, address_mode: mode }) {
            Some(b) => b,
            None => return None,
        };
        let mut bytes = vec![opcode];
        match parsed_instr.address {
            Some(ParsedAddress::Immediate { value }) => bytes.push(value),
            Some(ParsedAddress::ZeroPageOrRelative { value }) => bytes.push(value),
            Some(ParsedAddress::AbsoluteX { value }) => {
                bytes.push((value % 256) as u8);
                bytes.push((value / 256) as u8);
            },
            _ => {},
        }
        assert(bytes@ =~= seq![opcode] + operand_bytes(parsed_instr.address));
        Some(bytes)
    }
}

} // verus!
