//! The processor as a mathematical state machine: what each instruction does to
//! registers and memory.
use vstd::prelude::*;

use crate::emulator::addressing::AddressMode;
use crate::emulator::instructions::dispatch::decode_spec;
use crate::emulator::instructions::{Instruction, Op};
use crate::emulator::registers::{flag_of, overflows, with_flag, with_zero_negative, Flag, Registers, Status};

verus! {

/// A snapshot of the whole machine: registers, all of memory and the two interrupt lines.
pub struct Machine {
    pub registers: Registers,
    pub memory: Map<u16, u8>,
    pub irq: bool,
    pub nmi: bool,
}

/// `a + n`, wrapped to 16 bits.
pub open spec fn add16(a: u16, n: int) -> u16 {
    ((a as int + n) % 0x10000) as u16
}

/// The 16-bit value with low byte `lo` and high byte `hi`.
pub open spec fn word(lo: u8, hi: u8) -> u16 {
    (lo as int + 256 * hi as int) as u16
}

/// `b` read as a signed byte and widened to 16 bits by two's complement.
pub open spec fn sign_extend(b: u8) -> u16 {
    if b >= 0x80 {
        (b as int + 0xFF00) as u16
    } else {
        b as u16
    }
}

/// The address of the high byte of a JMP pointer: the low byte wraps within its page.
pub open spec fn indirect_high(p: u16) -> u16 {
    ((p as int / 256) * 256 + (p as int + 1) % 256) as u16
}

/// Number of operand bytes of a mode.
pub open spec fn operand_size(mode: AddressMode) -> int {
    match mode {
        AddressMode::Implied | AddressMode::Accumulator => 0,
        AddressMode::Absolute | AddressMode::AbsoluteX | AddressMode::AbsoluteY
        | AddressMode::Indirect => 2,
        _ => 1,
    }
}

/// The sum that ADC forms, before it is cut to a byte (binary or BCD).
pub open spec fn adc_sum(a: u8, m: u8, carry: bool, decimal: bool) -> u16 {
    let c: int = if carry { 1 } else { 0 };
    let lo: int = a as int % 16 + m as int % 16 + c;
    let hi: int = (a as int / 16) * 16 + (m as int / 16) * 16;
    if decimal {
        let lo2: int = if lo > 9 { (lo + 6) % 16 } else { lo };
        let hi2: int = if lo > 9 { hi + 0x10 } else { hi };
        let hi3: int = if hi2 > 0x90 { hi2 + 0x60 } else { hi2 };
        (lo2 + hi3) as u16
    } else {
        (lo + hi) as u16
    }
}

/// The byte that SBC adds: the one's complement of `m`, less 0x66 in decimal mode.
pub open spec fn sbc_operand(m: u8, decimal: bool) -> u8 {
    if decimal {
        ((255 - m as int - 0x66) % 256) as u8
    } else {
        (255 - m as int) as u8
    }
}

pub open spec fn asl_value(v: u8) -> u8 {
    ((v as int * 2) % 256) as u8
}

pub open spec fn lsr_value(v: u8) -> u8 {
    (v / 2) as u8
}

pub open spec fn rol_value(v: u8, carry: bool) -> u8 {
    ((v as int * 2) % 256 + if carry { 1int } else { 0int }) as u8
}

pub open spec fn ror_value(v: u8, carry: bool) -> u8 {
    (v as int / 2 + if carry { 128int } else { 0int }) as u8
}

impl Machine {
    pub open spec fn byte(self, a: u16) -> u8 {
        self.memory[a]
    }

    pub open spec fn pc(self) -> u16 {
        self.registers.program_counter
    }

    pub open spec fn flags(self) -> u8 {
        self.registers.status.flags
    }

    pub open spec fn flag(self, f: Flag) -> bool {
        flag_of(self.flags(), f)
    }

    pub open spec fn set_pc(self, pc: u16) -> Machine {
        Machine { registers: Registers { program_counter: pc, ..self.registers }, ..self }
    }

    pub open spec fn set_sp(self, sp: u8) -> Machine {
        Machine { registers: Registers { stack_pointer: sp, ..self.registers }, ..self }
    }

    pub open spec fn set_a(self, v: u8) -> Machine {
        Machine { registers: Registers { accumulator: v, ..self.registers }, ..self }
    }

    pub open spec fn set_x(self, v: u8) -> Machine {
        Machine { registers: Registers { x: v, ..self.registers }, ..self }
    }

    pub open spec fn set_y(self, v: u8) -> Machine {
        Machine { registers: Registers { y: v, ..self.registers }, ..self }
    }

    pub open spec fn set_flags(self, flags: u8) -> Machine {
        Machine { registers: Registers { status: Status { flags }, ..self.registers }, ..self }
    }

    pub open spec fn set_flag(self, f: Flag, v: bool) -> Machine {
        self.set_flags(with_flag(self.flags(), f, v))
    }

    /// Zero and Negative set from the result `v`.
    pub open spec fn set_zn(self, v: u8) -> Machine {
        self.set_flags(with_zero_negative(self.flags(), v))
    }

    pub open spec fn store(self, a: u16, v: u8) -> Machine {
        Machine { memory: self.memory.insert(a, v), ..self }
    }

    /// The little-endian word at `lo` and `hi`.
    pub open spec fn word_at(self, lo: u16, hi: u16) -> u16 {
        word(self.byte(lo), self.byte(hi))
    }

    /// The word stored at the two bytes that follow the opcode.
    pub open spec fn absolute(self) -> u16 {
        self.word_at(self.pc(), add16(self.pc(), 1))
    }

    /// The address that `mode` resolves to, read at the program counter.
    pub open spec fn operand_address(self, mode: AddressMode) -> u16 {
        let pc = self.pc();
        let x = self.registers.x;
        let y = self.registers.y;
        match mode {
            AddressMode::Immediate => pc,
            AddressMode::ZeroPage => self.byte(pc) as u16,
            AddressMode::ZeroPageX => ((self.byte(pc) as int + x as int) % 256) as u16,
            AddressMode::ZeroPageY => ((self.byte(pc) as int + y as int) % 256) as u16,
            AddressMode::Relative => sign_extend(self.byte(pc)),
            AddressMode::Absolute => self.absolute(),
            AddressMode::AbsoluteX => add16(self.absolute(), x as int),
            AddressMode::AbsoluteY => add16(self.absolute(), y as int),
            AddressMode::Indirect => {
                let p = self.absolute();
                self.word_at(p, indirect_high(p))
            },
            AddressMode::IndexedIndirect => {
                let zp = (self.byte(pc) as int + x as int) % 256;
                self.word_at(zp as u16, ((zp + 1) % 256) as u16)
            },
            AddressMode::IndirectIndexed => {
                let zp = self.byte(pc) as int;
                add16(self.word_at(zp as u16, ((zp + 1) % 256) as u16), y as int)
            },
            AddressMode::Implied | AddressMode::Accumulator => pc,
        }
    }

    /// The machine once the operand bytes of `mode` are consumed.
    pub open spec fn after_operand(self, mode: AddressMode) -> Machine {
        self.set_pc(add16(self.pc(), operand_size(mode)))
    }

    /// The byte that `mode` designates.
    pub open spec fn operand(self, mode: AddressMode) -> u8 {
        self.byte(self.operand_address(mode))
    }

    /// The byte on top of the stack: the one that a pull would return.
    pub open spec fn stack_top(self) -> u8 {
        self.byte((0x100 + (self.registers.stack_pointer as int + 1) % 256) as u16)
    }

    pub open spec fn push(self, v: u8) -> Machine {
        let sp = self.registers.stack_pointer;
        self.store((0x100 + sp as int) as u16, v).set_sp(((sp as int - 1) % 256) as u8)
    }

    /// The machine after a pull; the pulled byte is `stack_top`.
    pub open spec fn pull(self) -> Machine {
        self.set_sp(((self.registers.stack_pointer as int + 1) % 256) as u8)
    }

    /// Pushes the high byte of `pc`, then the low byte.
    pub open spec fn push_pc(self, pc: u16) -> Machine {
        self.push((pc / 256) as u8).push((pc % 256) as u8)
    }

    /// The word that `pull_pc` returns: low byte first, then high.
    pub open spec fn pulled_pc(self) -> u16 {
        word(self.stack_top(), self.pull().stack_top())
    }

    pub open spec fn pull_pc(self) -> Machine {
        self.pull().pull()
    }

    pub open spec fn adc_value(self, m: u8) -> Machine {
        let a = self.registers.accumulator;
        let sum = adc_sum(a, m, self.flag(Flag::Carry), self.flag(Flag::Decimal));
        let r = (sum % 256) as u8;
        self.set_flag(Flag::Carry, sum > 0xFF).set_flag(Flag::Overflow, overflows(a, m, sum)).set_a(
            r,
        ).set_zn(r)
    }

    pub open spec fn adc(self, mode: AddressMode) -> Machine {
        self.after_operand(mode).adc_value(self.operand(mode))
    }

    pub open spec fn sbc(self, mode: AddressMode) -> Machine {
        self.after_operand(mode).adc_value(
            sbc_operand(self.operand(mode), self.flag(Flag::Decimal)),
        )
    }

    /// Compares `r` with the operand: Carry when `r >= m`, Zero and Negative from `r - m`.
    pub open spec fn compare(self, mode: AddressMode, r: u8) -> Machine {
        let m = self.operand(mode);
        self.after_operand(mode).set_flag(Flag::Carry, r >= m).set_zn(
            ((r as int - m as int) % 256) as u8,
        )
    }

    pub open spec fn and(self, mode: AddressMode) -> Machine {
        let r = self.registers.accumulator & self.operand(mode);
        self.after_operand(mode).set_a(r).set_zn(r)
    }

    pub open spec fn eor(self, mode: AddressMode) -> Machine {
        let r = self.registers.accumulator ^ self.operand(mode);
        self.after_operand(mode).set_a(r).set_zn(r)
    }

    pub open spec fn ora(self, mode: AddressMode) -> Machine {
        let r = self.registers.accumulator | self.operand(mode);
        self.after_operand(mode).set_a(r).set_zn(r)
    }

    pub open spec fn bit(self, mode: AddressMode) -> Machine {
        let m = self.operand(mode);
        self.after_operand(mode).set_flag(Flag::Zero, self.registers.accumulator & m == 0).set_flag(
            Flag::Negative,
            m >= 0x80,
        ).set_flag(Flag::Overflow, m & 0x40 != 0)
    }

    /// The flags after a shift or rotate with result `r` and carry out `c`.
    pub open spec fn shifted(self, r: u8, c: bool) -> Machine {
        self.set_flag(Flag::Carry, c).set_zn(r)
    }

    pub open spec fn shift_acc(self, op: Op) -> Machine {
        let v = self.registers.accumulator;
        let r = shift_result(op, v, self.flag(Flag::Carry));
        self.shifted(r, shift_carry(op, v)).set_a(r)
    }

    pub open spec fn shift_mem(self, op: Op, mode: AddressMode) -> Machine {
        let a = self.operand_address(mode);
        let v = self.operand(mode);
        let r = shift_result(op, v, self.flag(Flag::Carry));
        self.after_operand(mode).shifted(r, shift_carry(op, v)).store(a, r)
    }

    /// INC or DEC on memory: `delta` is 1 or -1.
    pub open spec fn step_mem(self, mode: AddressMode, delta: int) -> Machine {
        let a = self.operand_address(mode);
        let r = ((self.operand(mode) as int + delta) % 256) as u8;
        self.after_operand(mode).set_zn(r).store(a, r)
    }

    pub open spec fn load(self, mode: AddressMode) -> (Machine, u8) {
        let v = self.operand(mode);
        (self.after_operand(mode).set_zn(v), v)
    }

    pub open spec fn store_to(self, mode: AddressMode, v: u8) -> Machine {
        self.after_operand(mode).store(self.operand_address(mode), v)
    }

    /// A conditional branch: taken when `flag` equals `branch_if`.
    pub open spec fn branch(self, flag: Flag, branch_if: bool) -> Machine {
        let d = self.operand_address(AddressMode::Relative);
        let s = self.after_operand(AddressMode::Relative);
        if self.flag(flag) == branch_if {
            s.set_pc(add16(s.pc(), d as int))
        } else {
            s
        }
    }

    pub open spec fn jsr(self) -> Machine {
        let s = self.push_pc(add16(self.pc(), 1));
        s.set_pc(s.absolute())
    }

    pub open spec fn rts(self) -> Machine {
        self.pull_pc().set_pc(add16(self.pulled_pc(), 1))
    }

    /// PHP: pushes the status byte with Break set; the live status is unchanged.
    pub open spec fn php(self) -> Machine {
        self.push(self.flags() | 0x10)
    }

    pub open spec fn plp(self) -> Machine {
        self.pull().set_flags(self.stack_top() | Status::DEFAULT_STATUS)
    }

    /// Entry into an interrupt handler whose vector starts at `vector`. BRK pushes the
    /// status with Break set; IRQ and NMI push it with Break clear. Reserved is set in both.
    pub open spec fn interrupt(self, is_brk: bool, vector: u16) -> Machine {
        let s = self.push_pc(add16(self.pc(), if is_brk { 1int } else { 0int }));
        let s2 = if is_brk {
            s.push(self.flags() | 0x10)
        } else {
            s.push((self.flags() | 0x20) & 0xEF)
        };
        let s3 = s2.set_flag(Flag::Interrupt, true);
        s3.set_pc(s3.word_at(vector, add16(vector, 1)))
    }

    /// NMI entry, which also clears the NMI latch.
    pub open spec fn serve_nmi(self) -> Machine {
        Machine { nmi: false, ..self.interrupt(false, 0xfffa) }
    }

    /// One step: NMI entry when the NMI latch is set, else IRQ entry when the request line
    /// is high and interrupts are enabled, else the instruction at the program counter.
    /// `None` when that opcode is not in the opcode table.
    pub open spec fn step(self) -> Option<Machine> {
        if self.nmi {
            Some(self.serve_nmi())
        } else if self.irq && !self.flag(Flag::Interrupt) {
            Some(self.interrupt(false, 0xfffe))
        } else {
            match decode_spec(self.byte(self.pc())) {
                Some(i) => Some(self.set_pc(add16(self.pc(), 1)).execute(i)),
                None => None,
            }
        }
    }

    pub open spec fn rti(self) -> Machine {
        let s = self.plp();
        s.pull_pc().set_pc(s.pulled_pc())
    }

    /// One instruction, once its opcode byte has been consumed.
    #[verifier::opaque]
    pub open spec fn execute(self, i: Instruction) -> Machine {
        let mode = i.address_mode;
        let r = self.registers;
        match i.op {
            Op::ADC => self.adc(mode),
            Op::SBC => self.sbc(mode),
            Op::AND => self.and(mode),
            Op::ASL | Op::LSR | Op::ROL | Op::ROR => if mode == AddressMode::Accumulator {
                self.shift_acc(i.op)
            } else {
                self.shift_mem(i.op, mode)
            },
            Op::BCC => self.branch(Flag::Carry, false),
            Op::BCS => self.branch(Flag::Carry, true),
            Op::BEQ => self.branch(Flag::Zero, true),
            Op::BNE => self.branch(Flag::Zero, false),
            Op::BMI => self.branch(Flag::Negative, true),
            Op::BPL => self.branch(Flag::Negative, false),
            Op::BVC => self.branch(Flag::Overflow, false),
            Op::BVS => self.branch(Flag::Overflow, true),
            Op::BIT => self.bit(mode),
            Op::BRK => self.interrupt(true, 0xfffe),
            Op::CLC => self.set_flag(Flag::Carry, false),
            Op::CLD => self.set_flag(Flag::Decimal, false),
            Op::CLI => self.set_flag(Flag::Interrupt, false),
            Op::CLV => self.set_flag(Flag::Overflow, false),
            Op::SEC => self.set_flag(Flag::Carry, true),
            Op::SED => self.set_flag(Flag::Decimal, true),
            Op::SEI => self.set_flag(Flag::Interrupt, true),
            Op::CMP => self.compare(mode, r.accumulator),
            Op::CPX => self.compare(mode, r.x),
            Op::CPY => self.compare(mode, r.y),
            Op::DEC => self.step_mem(mode, -1),
            Op::INC => self.step_mem(mode, 1),
            Op::DEX => self.set_x(((r.x as int - 1) % 256) as u8).set_zn(
                ((r.x as int - 1) % 256) as u8,
            ),
            Op::DEY => self.set_y(((r.y as int - 1) % 256) as u8).set_zn(
                ((r.y as int - 1) % 256) as u8,
            ),
            Op::INX => self.set_x(((r.x as int + 1) % 256) as u8).set_zn(
                ((r.x as int + 1) % 256) as u8,
            ),
            Op::INY => self.set_y(((r.y as int + 1) % 256) as u8).set_zn(
                ((r.y as int + 1) % 256) as u8,
            ),
            Op::EOR => self.eor(mode),
            Op::ORA => self.ora(mode),
            Op::JMP => self.set_pc(self.operand_address(mode)),
            Op::JSR => self.jsr(),
            Op::RTS => self.rts(),
            Op::RTI => self.rti(),
            Op::LDA => self.load(mode).0.set_a(self.load(mode).1),
            Op::LDX => self.load(mode).0.set_x(self.load(mode).1),
            Op::LDY => self.load(mode).0.set_y(self.load(mode).1),
            Op::STA => self.store_to(mode, r.accumulator),
            Op::STX => self.store_to(mode, r.x),
            Op::STY => self.store_to(mode, r.y),
            Op::NOP => self,
            Op::PHA => self.push(r.accumulator),
            Op::PHP => self.php(),
            Op::PLA => self.pull().set_a(self.stack_top()).set_zn(self.stack_top()),
            Op::PLP => self.plp(),
            Op::TAX => self.set_x(r.accumulator).set_zn(r.accumulator),
            Op::TAY => self.set_y(r.accumulator).set_zn(r.accumulator),
            Op::TXA => self.set_a(r.x).set_zn(r.x),
            Op::TYA => self.set_a(r.y).set_zn(r.y),
            Op::TSX => self.set_x(r.stack_pointer).set_zn(r.stack_pointer),
            Op::TXS => self.set_sp(r.x),
        }
    }
}

/// The result of the shift or rotate `op` on `v`, with carry in `carry`.
pub open spec fn shift_result(op: Op, v: u8, carry: bool) -> u8 {
    match op {
        Op::ASL => asl_value(v),
        Op::LSR => lsr_value(v),
        Op::ROL => rol_value(v, carry),
        _ => ror_value(v, carry),
    }
}

/// The carry out of the shift or rotate `op` on `v`: bit 7 to the left, bit 0 to the right.
pub open spec fn shift_carry(op: Op, v: u8) -> bool {
    match op {
        Op::ASL | Op::ROL => v >= 0x80,
        _ => v % 2 == 1,
    }
}

} // verus!
