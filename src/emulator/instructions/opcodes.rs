//! Opcode bytes by mnemonic and addressing mode, for writing machine code by hand.
use vstd::prelude::*;

use crate::emulator::addressing::AddressMode;
use crate::emulator::bytes_little_endian;
use crate::emulator::instructions::dispatch::decode_spec;
use crate::emulator::instructions::{Instruction, Op};

verus! {

pub trait Immediate {
    const IMMEDIATE: u8;

    /// The opcode followed by its one-byte operand.
    fn immediate(value: u8) -> (r: Vec<u8>)
        ensures
            r@ == seq![Self::IMMEDIATE, value],
    {
        vec![Self::IMMEDIATE, value]
    }
}

pub trait ZeroPage {
    const ZEROPAGE: u8;

    /// The opcode followed by its one-byte operand.
    fn zero_page(value: u8) -> (r: Vec<u8>)
        ensures
            r@ == seq![Self::ZEROPAGE, value],
    {
        vec![Self::ZEROPAGE, value]
    }
}

pub trait ZeroPageX {
    const ZEROPAGEX: u8;

    /// The opcode followed by its one-byte operand.
    fn zero_page_x(value: u8) -> (r: Vec<u8>)
        ensures
            r@ == seq![Self::ZEROPAGEX, value],
    {
        vec![Self::ZEROPAGEX, value]
    }
}

pub trait ZeroPageY {
    const ZEROPAGEY: u8;

    /// The opcode followed by its one-byte operand.
    fn zero_page_y(value: u8) -> (r: Vec<u8>)
        ensures
            r@ == seq![Self::ZEROPAGEY, value],
    {
        vec![Self::ZEROPAGEY, value]
    }
}

pub trait Absolute {
    const ABSOLUTE: u8;

    /// The opcode followed by the address, low byte first.
    fn absolute(value: u16) -> (r: Vec<u8>)
        ensures
            r@ == seq![Self::ABSOLUTE, (value % 256) as u8, (value / 256) as u8],
    {
        let (least, most) = bytes_little_endian(value);
        vec![Self::ABSOLUTE, least, most]
    }
}

pub trait AbsoluteX {
    const ABSOLUTEX: u8;

    /// The opcode followed by the address, low byte first.
    fn absolute_x(value: u16) -> (r: Vec<u8>)
        ensures
            r@ == seq![Self::ABSOLUTEX, (value % 256) as u8, (value / 256) as u8],
    {
        let (least, most) = bytes_little_endian(value);
        vec![Self::ABSOLUTEX, least, most]
    }
}

pub trait AbsoluteY {
    const ABSOLUTEY: u8;

    /// The opcode followed by the address, low byte first.
    fn absolute_y(value: u16) -> (r: Vec<u8>)
        ensures
            r@ == seq![Self::ABSOLUTEY, (value % 256) as u8, (value / 256) as u8],
    {
        let (least, most) = bytes_little_endian(value);
        vec![Self::ABSOLUTEY, least, most]
    }
}

pub trait IndexedIndirect {
    const INDEXEDINDIRECT: u8;

    /// The opcode followed by its one-byte operand.
    fn indexed_indirect(value: u8) -> (r: Vec<u8>)
        ensures
            r@ == seq![Self::INDEXEDINDIRECT, value],
    {
        vec![Self::INDEXEDINDIRECT, value]
    }
}

pub trait IndirectIndexed {
    const INDIRECTINDEXED: u8;

    /// The opcode followed by its one-byte operand.
    fn indirect_indexed(value: u8) -> (r: Vec<u8>)
        ensures
            r@ == seq![Self::INDIRECTINDEXED, value],
    {
        vec![Self::INDIRECTINDEXED, value]
    }
}

pub trait Relative {
    const RELATIVE: u8;

    /// The opcode followed by the displacement as a two's-complement byte.
    fn relative(displacement: i8) -> (r: Vec<u8>)
        ensures
            r@ == seq![Self::RELATIVE, displacement as u8],
    {
        vec![Self::RELATIVE, displacement as u8]
    }
}

pub trait Accumulator {
    const ACCUMULATOR: u8;

    /// The one-byte instruction.
    fn accumulator() -> (r: Vec<u8>)
        ensures
            r@ == seq![Self::ACCUMULATOR],
    {
        vec![Self::ACCUMULATOR]
    }
}

pub trait Implied {
    const IMPLIED: u8;

    /// The one-byte instruction.
    fn implied() -> (r: Vec<u8>)
        ensures
            r@ == seq![Self::IMPLIED],
    {
        vec![Self::IMPLIED]
    }
}

pub trait Indirect {
    const INDIRECT: u8;

    /// The opcode followed by the address, low byte first.
    fn indirect(value: u16) -> (r: Vec<u8>)
        ensures
            r@ == seq![Self::INDIRECT, (value % 256) as u8, (value / 256) as u8],
    {
        let (least, most) = bytes_little_endian(value);
        vec![Self::INDIRECT, least, most]
    }
}

pub struct ADC;

impl IndexedIndirect for ADC {
    const INDEXEDINDIRECT: u8 = 0x61u8;
}

impl ZeroPage for ADC {
    const ZEROPAGE: u8 = 0x65u8;
}

impl Immediate for ADC {
    const IMMEDIATE: u8 = 0x69u8;
}

impl Absolute for ADC {
    const ABSOLUTE: u8 = 0x6du8;
}

impl IndirectIndexed for ADC {
    const INDIRECTINDEXED: u8 = 0x71u8;
}

impl ZeroPageX for ADC {
    const ZEROPAGEX: u8 = 0x75u8;
}

impl AbsoluteY for ADC {
    const ABSOLUTEY: u8 = 0x79u8;
}

impl AbsoluteX for ADC {
    const ABSOLUTEX: u8 = 0x7du8;
}

pub struct AND;

impl IndexedIndirect for AND {
    const INDEXEDINDIRECT: u8 = 0x21u8;
}

impl ZeroPage for AND {
    const ZEROPAGE: u8 = 0x25u8;
}

impl Immediate for AND {
    const IMMEDIATE: u8 = 0x29u8;
}

impl Absolute for AND {
    const ABSOLUTE: u8 = 0x2du8;
}

impl IndirectIndexed for AND {
    const INDIRECTINDEXED: u8 = 0x31u8;
}

impl ZeroPageX for AND {
    const ZEROPAGEX: u8 = 0x35u8;
}

impl AbsoluteY for AND {
    const ABSOLUTEY: u8 = 0x39u8;
}

impl AbsoluteX for AND {
    const ABSOLUTEX: u8 = 0x3du8;
}

pub struct ASL;

impl ZeroPage for ASL {
    const ZEROPAGE: u8 = 0x06u8;
}

impl Accumulator for ASL {
    const ACCUMULATOR: u8 = 0x0au8;
}

impl Absolute for ASL {
    const ABSOLUTE: u8 = 0x0eu8;
}

impl ZeroPageX for ASL {
    const ZEROPAGEX: u8 = 0x16u8;
}

impl AbsoluteX for ASL {
    const ABSOLUTEX: u8 = 0x1eu8;
}

pub struct BCC;

impl Relative for BCC {
    const RELATIVE: u8 = 0x90u8;
}

pub struct BCS;

impl Relative for BCS {
    const RELATIVE: u8 = 0xb0u8;
}

pub struct BEQ;

impl Relative for BEQ {
    const RELATIVE: u8 = 0xf0u8;
}

pub struct BIT;

impl ZeroPage for BIT {
    const ZEROPAGE: u8 = 0x24u8;
}

impl Absolute for BIT {
    const ABSOLUTE: u8 = 0x2cu8;
}

pub struct BMI;

impl Relative for BMI {
    const RELATIVE: u8 = 0x30u8;
}

pub struct BNE;

impl Relative for BNE {
    const RELATIVE: u8 = 0xd0u8;
}

pub struct BPL;

impl Relative for BPL {
    const RELATIVE: u8 = 0x10u8;
}

pub struct BRK;

impl Implied for BRK {
    const IMPLIED: u8 = 0x00u8;
}

pub struct BVC;

impl Relative for BVC {
    const RELATIVE: u8 = 0x50u8;
}

pub struct BVS;

impl Relative for BVS {
    const RELATIVE: u8 = 0x70u8;
}

pub struct CLC;

impl Implied for CLC {
    const IMPLIED: u8 = 0x18u8;
}

pub struct CLD;

impl Implied for CLD {
    const IMPLIED: u8 = 0xd8u8;
}

pub struct CLI;

impl Implied for CLI {
    const IMPLIED: u8 = 0x58u8;
}

pub struct CLV;

impl Implied for CLV {
    const IMPLIED: u8 = 0xb8u8;
}

pub struct CMP;

impl IndexedIndirect for CMP {
    const INDEXEDINDIRECT: u8 = 0xc1u8;
}

impl ZeroPage for CMP {
    const ZEROPAGE: u8 = 0xc5u8;
}

impl Immediate for CMP {
    const IMMEDIATE: u8 = 0xc9u8;
}

impl Absolute for CMP {
    const ABSOLUTE: u8 = 0xcdu8;
}

impl IndirectIndexed for CMP {
    const INDIRECTINDEXED: u8 = 0xd1u8;
}

impl ZeroPageX for CMP {
    const ZEROPAGEX: u8 = 0xd5u8;
}

impl AbsoluteY for CMP {
    const ABSOLUTEY: u8 = 0xd9u8;
}

impl AbsoluteX for CMP {
    const ABSOLUTEX: u8 = 0xddu8;
}

pub struct CPX;

impl Immediate for CPX {
    const IMMEDIATE: u8 = 0xe0u8;
}

impl ZeroPage for CPX {
    const ZEROPAGE: u8 = 0xe4u8;
}

impl Absolute for CPX {
    const ABSOLUTE: u8 = 0xecu8;
}

pub struct CPY;

impl Immediate for CPY {
    const IMMEDIATE: u8 = 0xc0u8;
}

impl ZeroPage for CPY {
    const ZEROPAGE: u8 = 0xc4u8;
}

impl Absolute for CPY {
    const ABSOLUTE: u8 = 0xccu8;
}

pub struct DEC;

impl ZeroPage for DEC {
    const ZEROPAGE: u8 = 0xc6u8;
}

impl Absolute for DEC {
    const ABSOLUTE: u8 = 0xceu8;
}

impl ZeroPageX for DEC {
    const ZEROPAGEX: u8 = 0xd6u8;
}

impl AbsoluteX for DEC {
    const ABSOLUTEX: u8 = 0xdeu8;
}

pub struct DEX;

impl Implied for DEX {
    const IMPLIED: u8 = 0xcau8;
}

pub struct DEY;

impl Implied for DEY {
    const IMPLIED: u8 = 0x88u8;
}

pub struct EOR;

impl IndexedIndirect for EOR {
    const INDEXEDINDIRECT: u8 = 0x41u8;
}

impl ZeroPage for EOR {
    const ZEROPAGE: u8 = 0x45u8;
}

impl Immediate for EOR {
    const IMMEDIATE: u8 = 0x49u8;
}

impl Absolute for EOR {
    const ABSOLUTE: u8 = 0x4du8;
}

impl IndirectIndexed for EOR {
    const INDIRECTINDEXED: u8 = 0x51u8;
}

impl ZeroPageX for EOR {
    const ZEROPAGEX: u8 = 0x55u8;
}

impl AbsoluteY for EOR {
    const ABSOLUTEY: u8 = 0x59u8;
}

impl AbsoluteX for EOR {
    const ABSOLUTEX: u8 = 0x5du8;
}

pub struct INC;

impl ZeroPage for INC {
    const ZEROPAGE: u8 = 0xe6u8;
}

impl Absolute for INC {
    const ABSOLUTE: u8 = 0xeeu8;
}

impl ZeroPageX for INC {
    const ZEROPAGEX: u8 = 0xf6u8;
}

impl AbsoluteX for INC {
    const ABSOLUTEX: u8 = 0xfeu8;
}

pub struct INX;

impl Implied for INX {
    const IMPLIED: u8 = 0xe8u8;
}

pub struct INY;

impl Implied for INY {
    const IMPLIED: u8 = 0xc8u8;
}

pub struct JMP;

impl Absolute for JMP {
    const ABSOLUTE: u8 = 0x4cu8;
}

impl Indirect for JMP {
    const INDIRECT: u8 = 0x6cu8;
}

pub struct JSR;

impl Absolute for JSR {
    const ABSOLUTE: u8 = 0x20u8;
}

pub struct LDA;

impl IndexedIndirect for LDA {
    const INDEXEDINDIRECT: u8 = 0xa1u8;
}

impl ZeroPage for LDA {
    const ZEROPAGE: u8 = 0xa5u8;
}

impl Immediate for LDA {
    const IMMEDIATE: u8 = 0xa9u8;
}

impl Absolute for LDA {
    const ABSOLUTE: u8 = 0xadu8;
}

impl IndirectIndexed for LDA {
    const INDIRECTINDEXED: u8 = 0xb1u8;
}

impl ZeroPageX for LDA {
    const ZEROPAGEX: u8 = 0xb5u8;
}

impl AbsoluteY for LDA {
    const ABSOLUTEY: u8 = 0xb9u8;
}

impl AbsoluteX for LDA {
    const ABSOLUTEX: u8 = 0xbdu8;
}

pub struct LDX;

impl Immediate for LDX {
    const IMMEDIATE: u8 = 0xa2u8;
}

impl ZeroPage for LDX {
    const ZEROPAGE: u8 = 0xa6u8;
}

impl Absolute for LDX {
    const ABSOLUTE: u8 = 0xaeu8;
}

impl ZeroPageY for LDX {
    const ZEROPAGEY: u8 = 0xb6u8;
}

impl AbsoluteY for LDX {
    const ABSOLUTEY: u8 = 0xbeu8;
}

pub struct LDY;

impl Immediate for LDY {
    const IMMEDIATE: u8 = 0xa0u8;
}

impl ZeroPage for LDY {
    const ZEROPAGE: u8 = 0xa4u8;
}

impl Absolute for LDY {
    const ABSOLUTE: u8 = 0xacu8;
}

impl ZeroPageX for LDY {
    const ZEROPAGEX: u8 = 0xb4u8;
}

impl AbsoluteX for LDY {
    const ABSOLUTEX: u8 = 0xbcu8;
}

pub struct LSR;

impl ZeroPage for LSR {
    const ZEROPAGE: u8 = 0x46u8;
}

impl Accumulator for LSR {
    const ACCUMULATOR: u8 = 0x4au8;
}

impl Absolute for LSR {
    const ABSOLUTE: u8 = 0x4eu8;
}

impl ZeroPageX for LSR {
    const ZEROPAGEX: u8 = 0x56u8;
}

impl AbsoluteX for LSR {
    const ABSOLUTEX: u8 = 0x5eu8;
}

pub struct NOP;

impl Implied for NOP {
    const IMPLIED: u8 = 0xeau8;
}

pub struct ORA;

impl IndexedIndirect for ORA {
    const INDEXEDINDIRECT: u8 = 0x01u8;
}

impl ZeroPage for ORA {
    const ZEROPAGE: u8 = 0x05u8;
}

impl Immediate for ORA {
    const IMMEDIATE: u8 = 0x09u8;
}

impl Absolute for ORA {
    const ABSOLUTE: u8 = 0x0du8;
}

impl IndirectIndexed for ORA {
    const INDIRECTINDEXED: u8 = 0x11u8;
}

impl ZeroPageX for ORA {
    const ZEROPAGEX: u8 = 0x15u8;
}

impl AbsoluteY for ORA {
    const ABSOLUTEY: u8 = 0x19u8;
}

impl AbsoluteX for ORA {
    const ABSOLUTEX: u8 = 0x1du8;
}

pub struct PHA;

impl Implied for PHA {
    const IMPLIED: u8 = 0x48u8;
}

pub struct PHP;

impl Implied for PHP {
    const IMPLIED: u8 = 0x08u8;
}

pub struct PLA;

impl Implied for PLA {
    const IMPLIED: u8 = 0x68u8;
}

pub struct PLP;

impl Implied for PLP {
    const IMPLIED: u8 = 0x28u8;
}

pub struct ROL;

impl ZeroPage for ROL {
    const ZEROPAGE: u8 = 0x26u8;
}

impl Accumulator for ROL {
    const ACCUMULATOR: u8 = 0x2au8;
}

impl Absolute for ROL {
    const ABSOLUTE: u8 = 0x2eu8;
}

impl ZeroPageX for ROL {
    const ZEROPAGEX: u8 = 0x36u8;
}

impl AbsoluteX for ROL {
    const ABSOLUTEX: u8 = 0x3eu8;
}

pub struct ROR;

impl ZeroPage for ROR {
    const ZEROPAGE: u8 = 0x66u8;
}

impl Accumulator for ROR {
    const ACCUMULATOR: u8 = 0x6au8;
}

impl Absolute for ROR {
    const ABSOLUTE: u8 = 0x6eu8;
}

impl ZeroPageX for ROR {
    const ZEROPAGEX: u8 = 0x76u8;
}

impl AbsoluteX for ROR {
    const ABSOLUTEX: u8 = 0x7eu8;
}

pub struct RTI;

impl Implied for RTI {
    const IMPLIED: u8 = 0x40u8;
}

pub struct RTS;

impl Implied for RTS {
    const IMPLIED: u8 = 0x60u8;
}

pub struct SBC;

impl IndexedIndirect for SBC {
    const INDEXEDINDIRECT: u8 = 0xe1u8;
}

impl ZeroPage for SBC {
    const ZEROPAGE: u8 = 0xe5u8;
}

impl Immediate for SBC {
    const IMMEDIATE: u8 = 0xe9u8;
}

impl Absolute for SBC {
    const ABSOLUTE: u8 = 0xedu8;
}

impl IndirectIndexed for SBC {
    const INDIRECTINDEXED: u8 = 0xf1u8;
}

impl ZeroPageX for SBC {
    const ZEROPAGEX: u8 = 0xf5u8;
}

impl AbsoluteY for SBC {
    const ABSOLUTEY: u8 = 0xf9u8;
}

impl AbsoluteX for SBC {
    const ABSOLUTEX: u8 = 0xfdu8;
}

pub struct SEC;

impl Implied for SEC {
    const IMPLIED: u8 = 0x38u8;
}

pub struct SED;

impl Implied for SED {
    const IMPLIED: u8 = 0xf8u8;
}

pub struct SEI;

impl Implied for SEI {
    const IMPLIED: u8 = 0x78u8;
}

pub struct STA;

impl IndexedIndirect for STA {
    const INDEXEDINDIRECT: u8 = 0x81u8;
}

impl ZeroPage for STA {
    const ZEROPAGE: u8 = 0x85u8;
}

impl Absolute for STA {
    const ABSOLUTE: u8 = 0x8du8;
}

impl IndirectIndexed for STA {
    const INDIRECTINDEXED: u8 = 0x91u8;
}

impl ZeroPageX for STA {
    const ZEROPAGEX: u8 = 0x95u8;
}

impl AbsoluteY for STA {
    const ABSOLUTEY: u8 = 0x99u8;
}

impl AbsoluteX for STA {
    const ABSOLUTEX: u8 = 0x9du8;
}

pub struct STX;

impl ZeroPage for STX {
    const ZEROPAGE: u8 = 0x86u8;
}

impl Absolute for STX {
    const ABSOLUTE: u8 = 0x8eu8;
}

impl ZeroPageY for STX {
    const ZEROPAGEY: u8 = 0x96u8;
}

pub struct STY;

impl ZeroPage for STY {
    const ZEROPAGE: u8 = 0x84u8;
}

impl Absolute for STY {
    const ABSOLUTE: u8 = 0x8cu8;
}

impl ZeroPageX for STY {
    const ZEROPAGEX: u8 = 0x94u8;
}

pub struct TAX;

impl Implied for TAX {
    const IMPLIED: u8 = 0xaau8;
}

pub struct TAY;

impl Implied for TAY {
    const IMPLIED: u8 = 0xa8u8;
}

pub struct TSX;

impl Implied for TSX {
    const IMPLIED: u8 = 0xbau8;
}

pub struct TXA;

impl Implied for TXA {
    const IMPLIED: u8 = 0x8au8;
}

pub struct TXS;

impl Implied for TXS {
    const IMPLIED: u8 = 0x9au8;
}

pub struct TYA;

impl Implied for TYA {
    const IMPLIED: u8 = 0x98u8;
}

/// Every opcode constant above decodes to its own mnemonic and addressing mode.
pub proof fn lemma_opcodes_decode()
    ensures
        decode_spec(<ADC as IndexedIndirect>::INDEXEDINDIRECT) == Some(Instruction { op: Op::ADC, address_mode: AddressMode::IndexedIndirect }),
        decode_spec(<ADC as ZeroPage>::ZEROPAGE) == Some(Instruction { op: Op::ADC, address_mode: AddressMode::ZeroPage }),
        decode_spec(<ADC as Immediate>::IMMEDIATE) == Some(Instruction { op: Op::ADC, address_mode: AddressMode::Immediate }),
        decode_spec(<ADC as Absolute>::ABSOLUTE) == Some(Instruction { op: Op::ADC, address_mode: AddressMode::Absolute }),
        decode_spec(<ADC as IndirectIndexed>::INDIRECTINDEXED) == Some(Instruction { op: Op::ADC, address_mode: AddressMode::IndirectIndexed }),
        decode_spec(<ADC as ZeroPageX>::ZEROPAGEX) == Some(Instruction { op: Op::ADC, address_mode: AddressMode::ZeroPageX }),
        decode_spec(<ADC as AbsoluteY>::ABSOLUTEY) == Some(Instruction { op: Op::ADC, address_mode: AddressMode::AbsoluteY }),
        decode_spec(<ADC as AbsoluteX>::ABSOLUTEX) == Some(Instruction { op: Op::ADC, address_mode: AddressMode::AbsoluteX }),
        decode_spec(<AND as IndexedIndirect>::INDEXEDINDIRECT) == Some(Instruction { op: Op::AND, address_mode: AddressMode::IndexedIndirect }),
        decode_spec(<AND as ZeroPage>::ZEROPAGE) == Some(Instruction { op: Op::AND, address_mode: AddressMode::ZeroPage }),
        decode_spec(<AND as Immediate>::IMMEDIATE) == Some(Instruction { op: Op::AND, address_mode: AddressMode::Immediate }),
        decode_spec(<AND as Absolute>::ABSOLUTE) == Some(Instruction { op: Op::AND, address_mode: AddressMode::Absolute }),
        decode_spec(<AND as IndirectIndexed>::INDIRECTINDEXED) == Some(Instruction { op: Op::AND, address_mode: AddressMode::IndirectIndexed }),
        decode_spec(<AND as ZeroPageX>::ZEROPAGEX) == Some(Instruction { op: Op::AND, address_mode: AddressMode::ZeroPageX }),
        decode_spec(<AND as AbsoluteY>::ABSOLUTEY) == Some(Instruction { op: Op::AND, address_mode: AddressMode::AbsoluteY }),
        decode_spec(<AND as AbsoluteX>::ABSOLUTEX) == Some(Instruction { op: Op::AND, address_mode: AddressMode::AbsoluteX }),
        decode_spec(<ASL as ZeroPage>::ZEROPAGE) == Some(Instruction { op: Op::ASL, address_mode: AddressMode::ZeroPage }),
        decode_spec(<ASL as Accumulator>::ACCUMULATOR) == Some(Instruction { op: Op::ASL, address_mode: AddressMode::Accumulator }),
        decode_spec(<ASL as Absolute>::ABSOLUTE) == Some(Instruction { op: Op::ASL, address_mode: AddressMode::Absolute }),
        decode_spec(<ASL as ZeroPageX>::ZEROPAGEX) == Some(Instruction { op: Op::ASL, address_mode: AddressMode::ZeroPageX }),
        decode_spec(<ASL as AbsoluteX>::ABSOLUTEX) == Some(Instruction { op: Op::ASL, address_mode: AddressMode::AbsoluteX }),
        decode_spec(<BCC as Relative>::RELATIVE) == Some(Instruction { op: Op::BCC, address_mode: AddressMode::Relative }),
        decode_spec(<BCS as Relative>::RELATIVE) == Some(Instruction { op: Op::BCS, address_mode: AddressMode::Relative }),
        decode_spec(<BEQ as Relative>::RELATIVE) == Some(Instruction { op: Op::BEQ, address_mode: AddressMode::Relative }),
        decode_spec(<BIT as ZeroPage>::ZEROPAGE) == Some(Instruction { op: Op::BIT, address_mode: AddressMode::ZeroPage }),
        decode_spec(<BIT as Absolute>::ABSOLUTE) == Some(Instruction { op: Op::BIT, address_mode: AddressMode::Absolute }),
        decode_spec(<BMI as Relative>::RELATIVE) == Some(Instruction { op: Op::BMI, address_mode: AddressMode::Relative }),
        decode_spec(<BNE as Relative>::RELATIVE) == Some(Instruction { op: Op::BNE, address_mode: AddressMode::Relative }),
        decode_spec(<BPL as Relative>::RELATIVE) == Some(Instruction { op: Op::BPL, address_mode: AddressMode::Relative }),
        decode_spec(<BRK as Implied>::IMPLIED) == Some(Instruction { op: Op::BRK, address_mode: AddressMode::Implied }),
        decode_spec(<BVC as Relative>::RELATIVE) == Some(Instruction { op: Op::BVC, address_mode: AddressMode::Relative }),
        decode_spec(<BVS as Relative>::RELATIVE) == Some(Instruction { op: Op::BVS, address_mode: AddressMode::Relative }),
        decode_spec(<CLC as Implied>::IMPLIED) == Some(Instruction { op: Op::CLC, address_mode: AddressMode::Implied }),
        decode_spec(<CLD as Implied>::IMPLIED) == Some(Instruction { op: Op::CLD, address_mode: AddressMode::Implied }),
        decode_spec(<CLI as Implied>::IMPLIED) == Some(Instruction { op: Op::CLI, address_mode: AddressMode::Implied }),
        decode_spec(<CLV as Implied>::IMPLIED) == Some(Instruction { op: Op::CLV, address_mode: AddressMode::Implied }),
        decode_spec(<CMP as IndexedIndirect>::INDEXEDINDIRECT) == Some(Instruction { op: Op::CMP, address_mode: AddressMode::IndexedIndirect }),
        decode_spec(<CMP as ZeroPage>::ZEROPAGE) == Some(Instruction { op: Op::CMP, address_mode: AddressMode::ZeroPage }),
        decode_spec(<CMP as Immediate>::IMMEDIATE) == Some(Instruction { op: Op::CMP, address_mode: AddressMode::Immediate }),
        decode_spec(<CMP as Absolute>::ABSOLUTE) == Some(Instruction { op: Op::CMP, address_mode: AddressMode::Absolute }),
        decode_spec(<CMP as IndirectIndexed>::INDIRECTINDEXED) == Some(Instruction { op: Op::CMP, address_mode: AddressMode::IndirectIndexed }),
        decode_spec(<CMP as ZeroPageX>::ZEROPAGEX) == Some(Instruction { op: Op::CMP, address_mode: AddressMode::ZeroPageX }),
        decode_spec(<CMP as AbsoluteY>::ABSOLUTEY) == Some(Instruction { op: Op::CMP, address_mode: AddressMode::AbsoluteY }),
        decode_spec(<CMP as AbsoluteX>::ABSOLUTEX) == Some(Instruction { op: Op::CMP, address_mode: AddressMode::AbsoluteX }),
        decode_spec(<CPX as Immediate>::IMMEDIATE) == Some(Instruction { op: Op::CPX, address_mode: AddressMode::Immediate }),
        decode_spec(<CPX as ZeroPage>::ZEROPAGE) == Some(Instruction { op: Op::CPX, address_mode: AddressMode::ZeroPage }),
        decode_spec(<CPX as Absolute>::ABSOLUTE) == Some(Instruction { op: Op::CPX, address_mode: AddressMode::Absolute }),
        decode_spec(<CPY as Immediate>::IMMEDIATE) == Some(Instruction { op: Op::CPY, address_mode: AddressMode::Immediate }),
        decode_spec(<CPY as ZeroPage>::ZEROPAGE) == Some(Instruction { op: Op::CPY, address_mode: AddressMode::ZeroPage }),
        decode_spec(<CPY as Absolute>::ABSOLUTE) == Some(Instruction { op: Op::CPY, address_mode: AddressMode::Absolute }),
        decode_spec(<DEC as ZeroPage>::ZEROPAGE) == Some(Instruction { op: Op::DEC, address_mode: AddressMode::ZeroPage }),
        decode_spec(<DEC as Absolute>::ABSOLUTE) == Some(Instruction { op: Op::DEC, address_mode: AddressMode::Absolute }),
        decode_spec(<DEC as ZeroPageX>::ZEROPAGEX) == Some(Instruction { op: Op::DEC, address_mode: AddressMode::ZeroPageX }),
        decode_spec(<DEC as AbsoluteX>::ABSOLUTEX) == Some(Instruction { op: Op::DEC, address_mode: AddressMode::AbsoluteX }),
        decode_spec(<DEX as Implied>::IMPLIED) == Some(Instruction { op: Op::DEX, address_mode: AddressMode::Implied }),
        decode_spec(<DEY as Implied>::IMPLIED) == Some(Instruction { op: Op::DEY, address_mode: AddressMode::Implied }),
        decode_spec(<EOR as IndexedIndirect>::INDEXEDINDIRECT) == Some(Instruction { op: Op::EOR, address_mode: AddressMode::IndexedIndirect }),
        decode_spec(<EOR as ZeroPage>::ZEROPAGE) == Some(Instruction { op: Op::EOR, address_mode: AddressMode::ZeroPage }),
        decode_spec(<EOR as Immediate>::IMMEDIATE) == Some(Instruction { op: Op::EOR, address_mode: AddressMode::Immediate }),
        decode_spec(<EOR as Absolute>::ABSOLUTE) == Some(Instruction { op: Op::EOR, address_mode: AddressMode::Absolute }),
        decode_spec(<EOR as IndirectIndexed>::INDIRECTINDEXED) == Some(Instruction { op: Op::EOR, address_mode: AddressMode::IndirectIndexed }),
        decode_spec(<EOR as ZeroPageX>::ZEROPAGEX) == Some(Instruction { op: Op::EOR, address_mode: AddressMode::ZeroPageX }),
        decode_spec(<EOR as AbsoluteY>::ABSOLUTEY) == Some(Instruction { op: Op::EOR, address_mode: AddressMode::AbsoluteY }),
        decode_spec(<EOR as AbsoluteX>::ABSOLUTEX) == Some(Instruction { op: Op::EOR, address_mode: AddressMode::AbsoluteX }),
        decode_spec(<INC as ZeroPage>::ZEROPAGE) == Some(Instruction { op: Op::INC, address_mode: AddressMode::ZeroPage }),
        decode_spec(<INC as Absolute>::ABSOLUTE) == Some(Instruction { op: Op::INC, address_mode: AddressMode::Absolute }),
        decode_spec(<INC as ZeroPageX>::ZEROPAGEX) == Some(Instruction { op: Op::INC, address_mode: AddressMode::ZeroPageX }),
        decode_spec(<INC as AbsoluteX>::ABSOLUTEX) == Some(Instruction { op: Op::INC, address_mode: AddressMode::AbsoluteX }),
        decode_spec(<INX as Implied>::IMPLIED) == Some(Instruction { op: Op::INX, address_mode: AddressMode::Implied }),
        decode_spec(<INY as Implied>::IMPLIED) == Some(Instruction { op: Op::INY, address_mode: AddressMode::Implied }),
        decode_spec(<JMP as Absolute>::ABSOLUTE) == Some(Instruction { op: Op::JMP, address_mode: AddressMode::Absolute }),
        decode_spec(<JMP as Indirect>::INDIRECT) == Some(Instruction { op: Op::JMP, address_mode: AddressMode::Indirect }),
        decode_spec(<JSR as Absolute>::ABSOLUTE) == Some(Instruction { op: Op::JSR, address_mode: AddressMode::Absolute }),
        decode_spec(<LDA as IndexedIndirect>::INDEXEDINDIRECT) == Some(Instruction { op: Op::LDA, address_mode: AddressMode::IndexedIndirect }),
        decode_spec(<LDA as ZeroPage>::ZEROPAGE) == Some(Instruction { op: Op::LDA, address_mode: AddressMode::ZeroPage }),
        decode_spec(<LDA as Immediate>::IMMEDIATE) == Some(Instruction { op: Op::LDA, address_mode: AddressMode::Immediate }),
        decode_spec(<LDA as Absolute>::ABSOLUTE) == Some(Instruction { op: Op::LDA, address_mode: AddressMode::Absolute }),
        decode_spec(<LDA as IndirectIndexed>::INDIRECTINDEXED) == Some(Instruction { op: Op::LDA, address_mode: AddressMode::IndirectIndexed }),
        decode_spec(<LDA as ZeroPageX>::ZEROPAGEX) == Some(Instruction { op: Op::LDA, address_mode: AddressMode::ZeroPageX }),
        decode_spec(<LDA as AbsoluteY>::ABSOLUTEY) == Some(Instruction { op: Op::LDA, address_mode: AddressMode::AbsoluteY }),
        decode_spec(<LDA as AbsoluteX>::ABSOLUTEX) == Some(Instruction { op: Op::LDA, address_mode: AddressMode::AbsoluteX }),
        decode_spec(<LDX as Immediate>::IMMEDIATE) == Some(Instruction { op: Op::LDX, address_mode: AddressMode::Immediate }),
        decode_spec(<LDX as ZeroPage>::ZEROPAGE) == Some(Instruction { op: Op::LDX, address_mode: AddressMode::ZeroPage }),
        decode_spec(<LDX as Absolute>::ABSOLUTE) == Some(Instruction { op: Op::LDX, address_mode: AddressMode::Absolute }),
        decode_spec(<LDX as ZeroPageY>::ZEROPAGEY) == Some(Instruction { op: Op::LDX, address_mode: AddressMode::ZeroPageY }),
        decode_spec(<LDX as AbsoluteY>::ABSOLUTEY) == Some(Instruction { op: Op::LDX, address_mode: AddressMode::AbsoluteY }),
        decode_spec(<LDY as Immediate>::IMMEDIATE) == Some(Instruction { op: Op::LDY, address_mode: AddressMode::Immediate }),
        decode_spec(<LDY as ZeroPage>::ZEROPAGE) == Some(Instruction { op: Op::LDY, address_mode: AddressMode::ZeroPage }),
        decode_spec(<LDY as Absolute>::ABSOLUTE) == Some(Instruction { op: Op::LDY, address_mode: AddressMode::Absolute }),
        decode_spec(<LDY as ZeroPageX>::ZEROPAGEX) == Some(Instruction { op: Op::LDY, address_mode: AddressMode::ZeroPageX }),
        decode_spec(<LDY as AbsoluteX>::ABSOLUTEX) == Some(Instruction { op: Op::LDY, address_mode: AddressMode::AbsoluteX }),
        decode_spec(<LSR as ZeroPage>::ZEROPAGE) == Some(Instruction { op: Op::LSR, address_mode: AddressMode::ZeroPage }),
        decode_spec(<LSR as Accumulator>::ACCUMULATOR) == Some(Instruction { op: Op::LSR, address_mode: AddressMode::Accumulator }),
        decode_spec(<LSR as Absolute>::ABSOLUTE) == Some(Instruction { op: Op::LSR, address_mode: AddressMode::Absolute }),
        decode_spec(<LSR as ZeroPageX>::ZEROPAGEX) == Some(Instruction { op: Op::LSR, address_mode: AddressMode::ZeroPageX }),
        decode_spec(<LSR as AbsoluteX>::ABSOLUTEX) == Some(Instruction { op: Op::LSR, address_mode: AddressMode::AbsoluteX }),
        decode_spec(<NOP as Implied>::IMPLIED) == Some(Instruction { op: Op::NOP, address_mode: AddressMode::Implied }),
        decode_spec(<ORA as IndexedIndirect>::INDEXEDINDIRECT) == Some(Instruction { op: Op::ORA, address_mode: AddressMode::IndexedIndirect }),
        decode_spec(<ORA as ZeroPage>::ZEROPAGE) == Some(Instruction { op: Op::ORA, address_mode: AddressMode::ZeroPage }),
        decode_spec(<ORA as Immediate>::IMMEDIATE) == Some(Instruction { op: Op::ORA, address_mode: AddressMode::Immediate }),
        decode_spec(<ORA as Absolute>::ABSOLUTE) == Some(Instruction { op: Op::ORA, address_mode: AddressMode::Absolute }),
        decode_spec(<ORA as IndirectIndexed>::INDIRECTINDEXED) == Some(Instruction { op: Op::ORA, address_mode: AddressMode::IndirectIndexed }),
        decode_spec(<ORA as ZeroPageX>::ZEROPAGEX) == Some(Instruction { op: Op::ORA, address_mode: AddressMode::ZeroPageX }),
        decode_spec(<ORA as AbsoluteY>::ABSOLUTEY) == Some(Instruction { op: Op::ORA, address_mode: AddressMode::AbsoluteY }),
        decode_spec(<ORA as AbsoluteX>::ABSOLUTEX) == Some(Instruction { op: Op::ORA, address_mode: AddressMode::AbsoluteX }),
        decode_spec(<PHA as Implied>::IMPLIED) == Some(Instruction { op: Op::PHA, address_mode: AddressMode::Implied }),
        decode_spec(<PHP as Implied>::IMPLIED) == Some(Instruction { op: Op::PHP, address_mode: AddressMode::Implied }),
        decode_spec(<PLA as Implied>::IMPLIED) == Some(Instruction { op: Op::PLA, address_mode: AddressMode::Implied }),
        decode_spec(<PLP as Implied>::IMPLIED) == Some(Instruction { op: Op::PLP, address_mode: AddressMode::Implied }),
        decode_spec(<ROL as ZeroPage>::ZEROPAGE) == Some(Instruction { op: Op::ROL, address_mode: AddressMode::ZeroPage }),
        decode_spec(<ROL as Accumulator>::ACCUMULATOR) == Some(Instruction { op: Op::ROL, address_mode: AddressMode::Accumulator }),
        decode_spec(<ROL as Absolute>::ABSOLUTE) == Some(Instruction { op: Op::ROL, address_mode: AddressMode::Absolute }),
        decode_spec(<ROL as ZeroPageX>::ZEROPAGEX) == Some(Instruction { op: Op::ROL, address_mode: AddressMode::ZeroPageX }),
        decode_spec(<ROL as AbsoluteX>::ABSOLUTEX) == Some(Instruction { op: Op::ROL, address_mode: AddressMode::AbsoluteX }),
        decode_spec(<ROR as ZeroPage>::ZEROPAGE) == Some(Instruction { op: Op::ROR, address_mode: AddressMode::ZeroPage }),
        decode_spec(<ROR as Accumulator>::ACCUMULATOR) == Some(Instruction { op: Op::ROR, address_mode: AddressMode::Accumulator }),
        decode_spec(<ROR as Absolute>::ABSOLUTE) == Some(Instruction { op: Op::ROR, address_mode: AddressMode::Absolute }),
        decode_spec(<ROR as ZeroPageX>::ZEROPAGEX) == Some(Instruction { op: Op::ROR, address_mode: AddressMode::ZeroPageX }),
        decode_spec(<ROR as AbsoluteX>::ABSOLUTEX) == Some(Instruction { op: Op::ROR, address_mode: AddressMode::AbsoluteX }),
        decode_spec(<RTI as Implied>::IMPLIED) == Some(Instruction { op: Op::RTI, address_mode: AddressMode::Implied }),
        decode_spec(<RTS as Implied>::IMPLIED) == Some(Instruction { op: Op::RTS, address_mode: AddressMode::Implied }),
        decode_spec(<SBC as IndexedIndirect>::INDEXEDINDIRECT) == Some(Instruction { op: Op::SBC, address_mode: AddressMode::IndexedIndirect }),
        decode_spec(<SBC as ZeroPage>::ZEROPAGE) == Some(Instruction { op: Op::SBC, address_mode: AddressMode::ZeroPage }),
        decode_spec(<SBC as Immediate>::IMMEDIATE) == Some(Instruction { op: Op::SBC, address_mode: AddressMode::Immediate }),
        decode_spec(<SBC as Absolute>::ABSOLUTE) == Some(Instruction { op: Op::SBC, address_mode: AddressMode::Absolute }),
        decode_spec(<SBC as IndirectIndexed>::INDIRECTINDEXED) == Some(Instruction { op: Op::SBC, address_mode: AddressMode::IndirectIndexed }),
        decode_spec(<SBC as ZeroPageX>::ZEROPAGEX) == Some(Instruction { op: Op::SBC, address_mode: AddressMode::ZeroPageX }),
        decode_spec(<SBC as AbsoluteY>::ABSOLUTEY) == Some(Instruction { op: Op::SBC, address_mode: AddressMode::AbsoluteY }),
        decode_spec(<SBC as AbsoluteX>::ABSOLUTEX) == Some(Instruction { op: Op::SBC, address_mode: AddressMode::AbsoluteX }),
        decode_spec(<SEC as Implied>::IMPLIED) == Some(Instruction { op: Op::SEC, address_mode: AddressMode::Implied }),
        decode_spec(<SED as Implied>::IMPLIED) == Some(Instruction { op: Op::SED, address_mode: AddressMode::Implied }),
        decode_spec(<SEI as Implied>::IMPLIED) == Some(Instruction { op: Op::SEI, address_mode: AddressMode::Implied }),
        decode_spec(<STA as IndexedIndirect>::INDEXEDINDIRECT) == Some(Instruction { op: Op::STA, address_mode: AddressMode::IndexedIndirect }),
        decode_spec(<STA as ZeroPage>::ZEROPAGE) == Some(Instruction { op: Op::STA, address_mode: AddressMode::ZeroPage }),
        decode_spec(<STA as Absolute>::ABSOLUTE) == Some(Instruction { op: Op::STA, address_mode: AddressMode::Absolute }),
        decode_spec(<STA as IndirectIndexed>::INDIRECTINDEXED) == Some(Instruction { op: Op::STA, address_mode: AddressMode::IndirectIndexed }),
        decode_spec(<STA as ZeroPageX>::ZEROPAGEX) == Some(Instruction { op: Op::STA, address_mode: AddressMode::ZeroPageX }),
        decode_spec(<STA as AbsoluteY>::ABSOLUTEY) == Some(Instruction { op: Op::STA, address_mode: AddressMode::AbsoluteY }),
        decode_spec(<STA as AbsoluteX>::ABSOLUTEX) == Some(Instruction { op: Op::STA, address_mode: AddressMode::AbsoluteX }),
        decode_spec(<STX as ZeroPage>::ZEROPAGE) == Some(Instruction { op: Op::STX, address_mode: AddressMode::ZeroPage }),
        decode_spec(<STX as Absolute>::ABSOLUTE) == Some(Instruction { op: Op::STX, address_mode: AddressMode::Absolute }),
        decode_spec(<STX as ZeroPageY>::ZEROPAGEY) == Some(Instruction { op: Op::STX, address_mode: AddressMode::ZeroPageY }),
        decode_spec(<STY as ZeroPage>::ZEROPAGE) == Some(Instruction { op: Op::STY, address_mode: AddressMode::ZeroPage }),
        decode_spec(<STY as Absolute>::ABSOLUTE) == Some(Instruction { op: Op::STY, address_mode: AddressMode::Absolute }),
        decode_spec(<STY as ZeroPageX>::ZEROPAGEX) == Some(Instruction { op: Op::STY, address_mode: AddressMode::ZeroPageX }),
        decode_spec(<TAX as Implied>::IMPLIED) == Some(Instruction { op: Op::TAX, address_mode: AddressMode::Implied }),
        decode_spec(<TAY as Implied>::IMPLIED) == Some(Instruction { op: Op::TAY, address_mode: AddressMode::Implied }),
        decode_spec(<TSX as Implied>::IMPLIED) == Some(Instruction { op: Op::TSX, address_mode: AddressMode::Implied }),
        decode_spec(<TXA as Implied>::IMPLIED) == Some(Instruction { op: Op::TXA, address_mode: AddressMode::Implied }),
        decode_spec(<TXS as Implied>::IMPLIED) == Some(Instruction { op: Op::TXS, address_mode: AddressMode::Implied }),
        decode_spec(<TYA as Implied>::IMPLIED) == Some(Instruction { op: Op::TYA, address_mode: AddressMode::Implied }),
{
}

} // verus!
