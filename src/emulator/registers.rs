use vstd::prelude::*;

verus! {

/// The flags of the status register, in the order of their bits.
#[derive(Clone, Copy, Debug, PartialEq, Eq, Structural)]
pub enum Flag {
    Carry,
    Zero,
    Interrupt,
    Decimal,
    Break,
    Reserved,
    Overflow,
    Negative,
}

impl Flag {
    /// Position of the flag's bit in the status byte.
    pub open spec fn index_spec(self) -> u8 {
        match self {
            Flag::Carry => 0,
            Flag::Zero => 1,
            Flag::Interrupt => 2,
            Flag::Decimal => 3,
            Flag::Break => 4,
            Flag::Reserved => 5,
            Flag::Overflow => 6,
            Flag::Negative => 7,
        }
    }

    pub open spec fn mask_spec(self) -> u8 {
        (1u8 << self.index_spec()) as u8
    }

    #[verifier::when_used_as_spec(mask_spec)]
    pub fn mask(self) -> (r: u8)
        ensures
            r == self.mask_spec(),
    {
        let i: u8 = match self {
            Flag::Carry => 0,
            Flag::Zero => 1,
            Flag::Interrupt => 2,
            Flag::Decimal => 3,
            Flag::Break => 4,
            Flag::Reserved => 5,
            Flag::Overflow => 6,
            Flag::Negative => 7,
        };
        1u8 << i
    }
}

/// Whether `flag` is set in the status byte `flags`.
pub open spec fn flag_of(flags: u8, flag: Flag) -> bool {
    flags & flag.mask_spec() != 0
}

/// The status byte `flags` with `flag` set to `v`; the Reserved bit cannot be cleared.
pub open spec fn with_flag(flags: u8, flag: Flag, v: bool) -> u8 {
    if v || flag == Flag::Reserved {
        flags | flag.mask_spec()
    } else {
        flags & !flag.mask_spec()
    }
}

/// The status byte with Zero and Negative set from the result byte `v`.
pub open spec fn with_zero_negative(flags: u8, v: u8) -> u8 {
    with_flag(with_flag(flags, Flag::Zero, v == 0), Flag::Negative, v >= 0x80)
}

proof fn lemma_bits(s: u8, i: u8, j: u8)
    requires
        i < 8,
        j < 8,
    ensures
        (s | (1u8 << i)) & (1u8 << i) != 0,
        (s & !(1u8 << i)) & (1u8 << i) == 0,
        i != j ==> (((s | (1u8 << i)) & (1u8 << j) != 0) == (s & (1u8 << j) != 0)),
        i != j ==> (((s & !(1u8 << i)) & (1u8 << j) != 0) == (s & (1u8 << j) != 0)),
{
    assert((s | (1u8 << i)) & (1u8 << i) != 0) by (bit_vector)
        requires
            i < 8,
    ;
    assert((s & !(1u8 << i)) & (1u8 << i) == 0) by (bit_vector)
        requires
            i < 8,
    ;
    assert(i != j ==> (((s | (1u8 << i)) & (1u8 << j) != 0) == (s & (1u8 << j) != 0)))
        by (bit_vector)
        requires
            i < 8,
            j < 8,
    ;
    assert(i != j ==> (((s & !(1u8 << i)) & (1u8 << j) != 0) == (s & (1u8 << j) != 0)))
        by (bit_vector)
        requires
            i < 8,
            j < 8,
    ;
}

/// Setting or clearing one flag changes that flag alone.
pub broadcast proof fn lemma_with_flag(flags: u8, f: Flag, v: bool, g: Flag)
    ensures
        #[trigger] flag_of(with_flag(flags, f, v), g) == if f == g {
            v || f == Flag::Reserved
        } else {
            flag_of(flags, g)
        },
{
    lemma_bits(flags, f.index_spec(), g.index_spec());
}

/// The eight bits of the processor status.
#[derive(Clone, Copy, Debug, PartialEq, Eq, Structural)]
pub struct Status {
    pub flags: u8,
}

impl Status {
    /// Only the Reserved bit is set.
    pub const DEFAULT_STATUS: u8 = 0b00100000;

    /// The Reserved bit is set, as in every live status register.
    pub open spec fn wf(&self) -> bool {
        flag_of(self.flags, Flag::Reserved)
    }

    pub open spec fn flag(&self, flag: Flag) -> bool {
        flag_of(self.flags, flag)
    }

    pub fn new() -> (r: Status)
        ensures
            r.flags == Status::DEFAULT_STATUS,
            r.wf(),
    {
        let r = Status { flags: Status::DEFAULT_STATUS };
        assert(0b00100000u8 & (1u8 << 5u8) != 0) by (bit_vector);
        r
    }

    /// Copies all bits of `contents`, and sets the Reserved bit.
    pub fn load_from(&mut self, contents: u8)
        ensures
            final(self).flags == contents | Status::DEFAULT_STATUS,
            final(self).wf(),
    {
        self.flags = contents | Status::DEFAULT_STATUS;
        assert((contents | 0b00100000u8) & (1u8 << 5u8) != 0) by (bit_vector);
    }

    pub fn set_to(&mut self, flag: Flag, v: bool)
        ensures
            final(self).flags == with_flag(old(self).flags, flag, v),
            old(self).wf() ==> final(self).wf(),
    {
        if v || flag == Flag::Reserved {
            self.set(flag);
        } else {
            self.clear(flag);
        }
    }

    pub fn set(&mut self, flag: Flag)
        ensures
            final(self).flags == with_flag(old(self).flags, flag, true),
            old(self).wf() ==> final(self).wf(),
    {
        self.flags = self.flags | flag.mask();
        proof {
            lemma_with_flag(old(self).flags, flag, true, Flag::Reserved);
        }
    }

    pub fn get(&self, flag: Flag) -> (r: bool)
        ensures
            r == self.flag(flag),
    {
        (self.flags & flag.mask()) != 0
    }

    /// Clears `flag`; the Reserved bit stays set.
    pub fn clear(&mut self, flag: Flag)
        ensures
            final(self).flags == with_flag(old(self).flags, flag, false),
            old(self).wf() ==> final(self).wf(),
    {
        if flag == Flag::Reserved {
            self.flags = self.flags | flag.mask();
        } else {
            self.flags = self.flags & !flag.mask();
        }
        proof {
            lemma_with_flag(old(self).flags, flag, false, Flag::Reserved);
        }
    }

    pub fn update_zero(&mut self, v: u8)
        ensures
            final(self).flags == with_flag(old(self).flags, Flag::Zero, v == 0),
            old(self).wf() ==> final(self).wf(),
    {
        let is_zero = v == 0u8;
        self.set_to(Flag::Zero, is_zero);
    }

    pub fn update_negative(&mut self, v: u8)
        ensures
            final(self).flags == with_flag(old(self).flags, Flag::Negative, v >= 0x80),
            old(self).wf() ==> final(self).wf(),
    {
        let is_negative = (v & 0b10000000) != 0;
        assert(((v & 0b10000000u8) != 0) == (v >= 0x80u8)) by (bit_vector);
        self.set_to(Flag::Negative, is_negative);
    }

    pub fn update_zero_negative(&mut self, v: u8)
        ensures
            final(self).flags == with_zero_negative(old(self).flags, v),
            old(self).wf() ==> final(self).wf(),
    {
        self.update_zero(v);
        self.update_negative(v);
    }

    /// Carry is set when the wide result does not fit in a byte.
    pub fn update_carry(&mut self, v: u16)
        ensures
            final(self).flags == with_flag(old(self).flags, Flag::Carry, v > 0xFF),
            old(self).wf() ==> final(self).wf(),
    {
        let is_carry = v > 0xFF;
        self.set_to(Flag::Carry, is_carry);
    }

    /// Overflow is set when `a` and `b` have one sign and `result` the other.
    pub fn update_overflow(&mut self, a: u8, b: u8, result: u16)
        ensures
            final(self).flags == with_flag(
                old(self).flags,
                Flag::Overflow,
                overflows(a, b, result),
            ),
            old(self).wf() ==> final(self).wf(),
    {
        let sign_a_differs_from_result = (a & 0b10000000) as u16 != (result & 0b10000000);
        let sign_b_differs_from_result = (b & 0b10000000) as u16 != (result & 0b10000000);
        let is_overflow = sign_a_differs_from_result && sign_b_differs_from_result;
        assert(((a & 0b10000000u8) as u16 != (result & 0b10000000u16)) == ((a >= 0x80u8) != (
        result & 0x80u16 != 0))) by (bit_vector);
        assert(((b & 0b10000000u8) as u16 != (result & 0b10000000u16)) == ((b >= 0x80u8) != (
        result & 0x80u16 != 0))) by (bit_vector);
        self.set_to(Flag::Overflow, is_overflow);
    }
}

/// Signed overflow: `a` and `b` share a sign that bit 7 of `result` does not have.
pub open spec fn overflows(a: u8, b: u8, result: u16) -> bool {
    let sign = result & 0x80 != 0;
    (a >= 0x80) != sign && (b >= 0x80) != sign
}

/// The register file.
#[derive(Clone, Copy, Debug, PartialEq, Eq, Structural)]
pub struct Registers {
    pub program_counter: u16,
    pub stack_pointer: u8,
    pub accumulator: u8,
    pub x: u8,
    pub y: u8,
    pub status: Status,
}

impl Registers {
    pub open spec fn wf(&self) -> bool {
        self.status.wf()
    }

    /// Whether `flag` is set in the status register.
    pub fn get_flag(&self, flag: Flag) -> (r: bool)
        ensures
            r == self.status.flag(flag),
    {
        self.status.get(flag)
    }

    pub fn new() -> (r: Registers)
        ensures
            r.program_counter == 0,
            r.stack_pointer == 0xFF,
            r.accumulator == 0,
            r.x == 0,
            r.y == 0,
            r.status.flags == Status::DEFAULT_STATUS,
            r.wf(),
    {
        Registers {
            program_counter: 0,
            stack_pointer: 0xFF,
            accumulator: 0,
            x: 0,
            y: 0,
            status: Status::new(),
        }
    }
}

} // verus!
