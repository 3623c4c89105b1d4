//! Properties of the instruction set that hold for every machine state.
use vstd::prelude::*;

use crate::emulator::addressing::AddressMode;
use crate::emulator::instructions::{Instruction, Op};
use crate::emulator::model::{add16, Machine};
use crate::emulator::registers::{flag_of, lemma_with_flag, Flag};

verus! {

/// A pull right after a push returns the pushed byte and puts the stack pointer back.
pub proof fn lemma_pull_after_push(s: Machine, v: u8)
    ensures
        s.push(v).stack_top() == v,
        s.push(v).pull().registers == s.registers,
{
}

/// The zero-page modes resolve to an address in page zero.
pub proof fn lemma_zero_page_in_page(s: Machine, mode: AddressMode)
    requires
        mode == AddressMode::ZeroPage || mode == AddressMode::ZeroPageX || mode
            == AddressMode::ZeroPageY,
    ensures
        s.operand_address(mode) <= 0xFF,
{
}

/// In binary mode ADC leaves `(A + M + C) mod 256` in the accumulator, and sets Carry
/// exactly when the full sum exceeds 0xFF.
pub proof fn lemma_adc_binary(s: Machine, mode: AddressMode)
    requires
        !s.flag(Flag::Decimal),
    ensures
        ({
            let m = s.operand(mode);
            let c: int = if s.flag(Flag::Carry) {
                1
            } else {
                0
            };
            let sum = s.registers.accumulator as int + m as int + c;
            &&& s.adc(mode).registers.accumulator as int == sum % 256
            &&& s.adc(mode).flag(Flag::Carry) == (sum > 0xFF)
        }),
{
    broadcast use lemma_with_flag;

    let a = s.registers.accumulator;
    let m = s.operand(mode);
    assert(a as int == (a as int / 16) * 16 + a as int % 16);
    assert(m as int == (m as int / 16) * 16 + m as int % 16);
}

/// In binary mode SBC adds `M XOR 0xFF` and the carry: `(A + (M ^ 0xFF) + C) mod 256`
/// lands in the accumulator, and Carry is set exactly when that sum exceeds 0xFF.
pub proof fn lemma_sbc_binary(s: Machine, mode: AddressMode)
    requires
        !s.flag(Flag::Decimal),
    ensures
        ({
            let m = s.operand(mode);
            let c: int = if s.flag(Flag::Carry) {
                1
            } else {
                0
            };
            let sum = s.registers.accumulator as int + (m ^ 0xFF) as int + c;
            &&& s.sbc(mode).registers.accumulator as int == sum % 256
            &&& s.sbc(mode).flag(Flag::Carry) == (sum > 0xFF)
        }),
{
    broadcast use lemma_with_flag;

    let a = s.registers.accumulator;
    let m = s.operand(mode);
    assert(m ^ 0xFFu8 == (0xFFu8 - m) as u8) by (bit_vector);
    let n = (255 - m as int) as u8;
    assert(a as int == (a as int / 16) * 16 + a as int % 16);
    assert(n as int == (n as int / 16) * 16 + n as int % 16);
}

/// A compare sets Zero when the register equals the operand, Carry when it is not below
/// it, and Negative from bit 7 of their difference; it changes no register but the status.
pub proof fn lemma_compare(s: Machine, mode: AddressMode, r: u8)
    ensures
        ({
            let m = s.operand(mode);
            let t = s.compare(mode, r);
            &&& t.flag(Flag::Zero) == (r == m)
            &&& t.flag(Flag::Carry) == (r >= m)
            &&& t.flag(Flag::Negative) == (((r as int - m as int) % 256) >= 0x80)
            &&& t.registers.accumulator == s.registers.accumulator
            &&& t.registers.x == s.registers.x
            &&& t.registers.y == s.registers.y
            &&& t.registers.stack_pointer == s.registers.stack_pointer
        }),
{
    broadcast use lemma_with_flag;

}

/// ROL then ROR on the accumulator gives back the accumulator and the carry.
pub proof fn lemma_rol_then_ror(s: Machine)
    ensures
        s.shift_acc(Op::ROL).shift_acc(Op::ROR).registers.accumulator == s.registers.accumulator,
        s.shift_acc(Op::ROL).shift_acc(Op::ROR).flag(Flag::Carry) == s.flag(Flag::Carry),
{
    broadcast use lemma_with_flag;

}

/// PHP then PLP gives back the status byte, except that Break and Reserved end up set;
/// the stack pointer is back where it was.
pub proof fn lemma_php_then_plp(s: Machine)
    ensures
        s.php().plp().flags() == s.flags() | 0x30,
        forall|f: Flag|
            f != Flag::Break && f != Flag::Reserved ==> #[trigger] s.php().plp().flag(f) == s.flag(
                f,
            ),
        s.php().plp().flag(Flag::Break),
        s.php().plp().flag(Flag::Reserved),
        s.php().plp().registers.stack_pointer == s.registers.stack_pointer,
{
    let b = s.flags();
    assert((b | 0x10u8) | 0x20u8 == b | 0x30u8) by (bit_vector);
    assert forall|f: Flag| f != Flag::Break && f != Flag::Reserved implies #[trigger] s.php().plp().flag(
        f,
    ) == s.flag(f) by {
        let i = f.index_spec();
        assert(i < 8 && i != 4 && i != 5 ==> (((b | 0x30u8) & (1u8 << i) != 0) == (b & (1u8 << i)
            != 0))) by (bit_vector);
    }
    assert(((b | 0x30u8) & (1u8 << 4u8)) != 0 && ((b | 0x30u8) & (1u8 << 5u8)) != 0)
        by (bit_vector);
}

/// JSR then RTS: whatever the subroutine does in between, if it leaves the stack pointer
/// and the two return-address bytes as the JSR left them and then executes RTS, control
/// returns to the byte after the three-byte JSR with the stack pointer where it was.
pub proof fn lemma_jsr_then_rts(s: Machine, u: Machine)
    requires
        !s.nmi,
        !s.irq,
        s.byte(s.pc()) == 0x20,
        s.step() matches Some(t) && u.registers.stack_pointer == t.registers.stack_pointer
            && u.stack_top() == t.stack_top() && u.pull().stack_top() == t.pull().stack_top(),
        !u.nmi,
        !u.irq,
        u.byte(u.pc()) == 0x60,
    ensures
        u.step() matches Some(v) && v.pc() == add16(s.pc(), 3) && v.registers.stack_pointer
            == s.registers.stack_pointer,
{
    reveal(Machine::execute);
    let p = add16(s.pc(), 1);
    let t = s.set_pc(p).jsr();
    assert(s.step() == Some(t));
    lemma_pull_after_push(s.set_pc(p).push((add16(p, 1) / 256) as u8), (add16(p, 1) % 256) as u8);
    let w = u.set_pc(add16(u.pc(), 1));
    assert(u.step() == Some(w.rts()));
    assert(w.stack_top() == u.stack_top() && w.pull().stack_top() == u.pull().stack_top());
    assert(t.pulled_pc() == add16(p, 1));
}

/// IRQ and NMI entry push the status with Break clear and Reserved set; BRK pushes it with
/// both set. The live status keeps its Break bit.
pub proof fn lemma_interrupt_pushed_status(s: Machine, is_brk: bool, vector: u16)
    requires
        s.flag(Flag::Reserved),
    ensures
        ({
            let t = s.interrupt(is_brk, vector);
            let pushed = t.byte((0x100 + (s.registers.stack_pointer as int - 2) % 256) as u16);
            &&& flag_of(pushed, Flag::Break) == is_brk
            &&& flag_of(pushed, Flag::Reserved)
            &&& forall|f: Flag|
                f != Flag::Break && f != Flag::Reserved ==> #[trigger] flag_of(pushed, f) == s.flag(
                    f,
                )
            &&& t.flag(Flag::Break) == s.flag(Flag::Break)
            &&& t.flag(Flag::Interrupt)
        }),
{
    broadcast use lemma_with_flag;

    let b = s.flags();
    let pushed = if is_brk {
        b | 0x10
    } else {
        (b | 0x20) & 0xEF
    };
    let sp = s.registers.stack_pointer as int;
    let s1 = s.push_pc(add16(s.pc(), if is_brk { 1int } else { 0int }));
    assert(s1.registers.stack_pointer as int == (sp - 2) % 256);
    assert(s.interrupt(is_brk, vector).byte((0x100 + (sp - 2) % 256) as u16) == pushed);
    assert(is_brk ==> ((b | 0x10u8) & (1u8 << 4u8)) != 0) by (bit_vector);
    assert(((b | 0x20u8) & 0xEFu8) & (1u8 << 4u8) == 0) by (bit_vector);
    assert(((b | 0x20u8) & 0xEFu8) & (1u8 << 5u8) != 0) by (bit_vector);
    assert forall|f: Flag| f != Flag::Break && f != Flag::Reserved implies #[trigger] flag_of(
        pushed,
        f,
    ) == s.flag(f) by {
        let i = f.index_spec();
        assert(i < 8 && i != 4 && i != 5 ==> (((b | 0x10u8) & (1u8 << i) != 0) == (b & (1u8 << i)
            != 0))) by (bit_vector);
        assert(i < 8 && i != 4 && i != 5 ==> ((((b | 0x20u8) & 0xEFu8) & (1u8 << i) != 0) == (b & (
        1u8 << i) != 0))) by (bit_vector);
    }
    if is_brk {
        assert(flag_of(b | 0x10, Flag::Reserved)) by {
            assert(flag_of(b, Flag::Reserved) ==> ((b | 0x10u8) & (1u8 << 5u8)) != 0)
                by (bit_vector);
        }
    }
}

} // verus!
