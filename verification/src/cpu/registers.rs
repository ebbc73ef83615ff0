//! The register file of the CPU.

use vstd::prelude::*;
use crate::bits::{high_byte, low_byte, make_word, mask_if, split_word, word_of};

verus! {

/// The 8-bit registers that an instruction can name.
#[derive(Debug, Clone, Copy, PartialEq, Eq, Structural)]
pub enum Reg8 {
    A,
    B,
    C,
    D,
    E,
    H,
    L,
}

/// The 16-bit registers and register pairs.
#[derive(Debug, Clone, Copy, PartialEq, Eq, Structural)]
pub enum Reg16 {
    AF,
    BC,
    DE,
    HL,
    PC,
    SP,
}

/// Eight 8-bit registers, the program counter and the stack pointer. The
/// flag register `f` holds the zero, subtract, half-carry and carry flag in
/// its upper four bits.
#[derive(Debug, Clone, Copy, PartialEq, Eq, Structural)]
pub struct Registers {
    pub a: u8,
    pub f: u8,
    pub b: u8,
    pub c: u8,
    pub d: u8,
    pub e: u8,
    pub h: u8,
    pub l: u8,
    pub pc: u16,
    pub sp: u16,
}

/// The bit of the zero flag in the flag register.
pub const ZERO_FLAG: u8 = 0x80;

/// The bit of the subtract flag in the flag register.
pub const SUBTRACT_FLAG: u8 = 0x40;

/// The bit of the half-carry flag in the flag register.
pub const HALF_CARRY_FLAG: u8 = 0x20;

/// The bit of the carry flag in the flag register.
pub const CARRY_FLAG: u8 = 0x10;

/// The flag register that holds the four given flags: zero in bit 7,
/// subtract in bit 6, half-carry in bit 5, carry in bit 4, and nothing in
/// the lower four bits.
pub open spec fn flags_byte(zero: bool, sub: bool, half_carry: bool, carry: bool) -> u8 {
    mask_if(zero, 0x80) | mask_if(sub, 0x40) | mask_if(half_carry, 0x20) | mask_if(carry, 0x10)
}

/// Packs four flags into a flag register.
pub fn pack_flags(zero: bool, sub: bool, half_carry: bool, carry: bool) -> (f: u8)
    ensures
        f == flags_byte(zero, sub, half_carry, carry),
        f & 0x0F == 0,
        (f & 0x80 != 0) == zero,
        (f & 0x40 != 0) == sub,
        (f & 0x20 != 0) == half_carry,
        (f & 0x10 != 0) == carry,
{
    proof {
        lemma_flags_unpack(zero, sub, half_carry, carry);
    }
    let z: u8 = if zero {
        0x80
    } else {
        0
    };
    let n: u8 = if sub {
        0x40
    } else {
        0
    };
    let h: u8 = if half_carry {
        0x20
    } else {
        0
    };
    let c: u8 = if carry {
        0x10
    } else {
        0
    };
    z | n | h | c
}

impl Registers {
    /// Whether the zero flag is set.
    pub open spec fn zf(&self) -> bool {
        self.f & 0x80 != 0
    }

    /// Whether the subtract flag is set.
    pub open spec fn nf(&self) -> bool {
        self.f & 0x40 != 0
    }

    /// Whether the half-carry flag is set.
    pub open spec fn hf(&self) -> bool {
        self.f & 0x20 != 0
    }

    /// Whether the carry flag is set.
    pub open spec fn cf(&self) -> bool {
        self.f & 0x10 != 0
    }

    /// The registers with the four flags set as given.
    pub open spec fn with_flags(self, zero: bool, sub: bool, half_carry: bool, carry: bool)
        -> Registers {
        Registers { f: flags_byte(zero, sub, half_carry, carry), ..self }
    }

    /// The value of an 8-bit register.
    pub open spec fn get(self, reg: Reg8) -> u8 {
        match reg {
            Reg8::A => self.a,
            Reg8::B => self.b,
            Reg8::C => self.c,
            Reg8::D => self.d,
            Reg8::E => self.e,
            Reg8::H => self.h,
            Reg8::L => self.l,
        }
    }

    /// The registers with an 8-bit register set to `value`.
    pub open spec fn with(self, reg: Reg8, value: u8) -> Registers {
        match reg {
            Reg8::A => Registers { a: value, ..self },
            Reg8::B => Registers { b: value, ..self },
            Reg8::C => Registers { c: value, ..self },
            Reg8::D => Registers { d: value, ..self },
            Reg8::E => Registers { e: value, ..self },
            Reg8::H => Registers { h: value, ..self },
            Reg8::L => Registers { l: value, ..self },
        }
    }

    /// The value of a 16-bit register. A pair has its first register as the
    /// high byte.
    pub open spec fn pair(self, reg: Reg16) -> u16 {
        match reg {
            Reg16::AF => word_of(self.a, self.f),
            Reg16::BC => word_of(self.b, self.c),
            Reg16::DE => word_of(self.d, self.e),
            Reg16::HL => word_of(self.h, self.l),
            Reg16::PC => self.pc,
            Reg16::SP => self.sp,
        }
    }

    /// The registers with a 16-bit register set to `value`. The lower four
    /// bits of the flag register take no value: they stay zero.
    pub open spec fn with_pair(self, reg: Reg16, value: u16) -> Registers {
        match reg {
            Reg16::AF => Registers { a: high_byte(value), f: low_byte(value) & 0xF0, ..self },
            Reg16::BC => Registers { b: high_byte(value), c: low_byte(value), ..self },
            Reg16::DE => Registers { d: high_byte(value), e: low_byte(value), ..self },
            Reg16::HL => Registers { h: high_byte(value), l: low_byte(value), ..self },
            Reg16::PC => Registers { pc: value, ..self },
            Reg16::SP => Registers { sp: value, ..self },
        }
    }

    /// The registers as the CPU is made: all zero.
    pub open spec fn new_spec() -> Registers {
        Registers { a: 0, f: 0, b: 0, c: 0, d: 0, e: 0, h: 0, l: 0, pc: 0, sp: 0 }
    }

    /// A register file with every register zero.
    pub fn new() -> (regs: Registers)
        ensures
            regs == Registers::new_spec(),
    {
        Registers { a: 0, f: 0, b: 0, c: 0, d: 0, e: 0, h: 0, l: 0, pc: 0, sp: 0 }
    }

    /// Sets the zero flag and leaves the other flags as they are.
    pub fn set_zero(&mut self, flag: bool)
        ensures
            *final(self) == old(self).with_flags(
                flag,
                old(self).sub(),
                old(self).half_carry(),
                old(self).carry(),
            ),
            final(self).zero() == flag,
            final(self).sub() == old(self).sub(),
            final(self).half_carry() == old(self).half_carry(),
            final(self).carry() == old(self).carry(),
    {
        self.f = pack_flags(flag, self.sub(), self.half_carry(), self.carry());
    }

    /// Sets the subtract flag and leaves the other flags as they are.
    pub fn set_sub(&mut self, flag: bool)
        ensures
            *final(self) == old(self).with_flags(
                old(self).zero(),
                flag,
                old(self).half_carry(),
                old(self).carry(),
            ),
            final(self).zero() == old(self).zero(),
            final(self).sub() == flag,
            final(self).half_carry() == old(self).half_carry(),
            final(self).carry() == old(self).carry(),
    {
        self.f = pack_flags(self.zero(), flag, self.half_carry(), self.carry());
    }

    /// Sets the half-carry flag and leaves the other flags as they are.
    pub fn set_half_carry(&mut self, flag: bool)
        ensures
            *final(self) == old(self).with_flags(
                old(self).zero(),
                old(self).sub(),
                flag,
                old(self).carry(),
            ),
            final(self).zero() == old(self).zero(),
            final(self).sub() == old(self).sub(),
            final(self).half_carry() == flag,
            final(self).carry() == old(self).carry(),
    {
        self.f = pack_flags(self.zero(), self.sub(), flag, self.carry());
    }

    /// Sets the carry flag and leaves the other flags as they are.
    pub fn set_carry(&mut self, flag: bool)
        ensures
            *final(self) == old(self).with_flags(
                old(self).zero(),
                old(self).sub(),
                old(self).half_carry(),
                flag,
            ),
            final(self).zero() == old(self).zero(),
            final(self).sub() == old(self).sub(),
            final(self).half_carry() == old(self).half_carry(),
            final(self).carry() == flag,
    {
        self.f = pack_flags(self.zero(), self.sub(), self.half_carry(), flag);
    }

    /// Sets all four flags.
    pub fn set_flags(&mut self, zero: bool, sub: bool, half_carry: bool, carry: bool)
        ensures
            *final(self) == old(self).with_flags(zero, sub, half_carry, carry),
            final(self).zero() == zero,
            final(self).sub() == sub,
            final(self).half_carry() == half_carry,
            final(self).carry() == carry,
    {
        self.f = pack_flags(zero, sub, half_carry, carry);
    }

    /// Whether the zero flag is set.
    #[verifier::when_used_as_spec(zf)]
    pub fn zero(&self) -> (flag: bool)
        ensures
            flag == self.zf(),
    {
        (self.f & ZERO_FLAG) != 0
    }

    /// Whether the sub flag is set.
    #[verifier::when_used_as_spec(nf)]
    pub fn sub(&self) -> (flag: bool)
        ensures
            flag == self.nf(),
    {
        (self.f & SUBTRACT_FLAG) != 0
    }

    /// Whether the half-carry flag is set.
    #[verifier::when_used_as_spec(hf)]
    pub fn half_carry(&self) -> (flag: bool)
        ensures
            flag == self.hf(),
    {
        (self.f & HALF_CARRY_FLAG) != 0
    }

    /// Whether the carry flag is set.
    #[verifier::when_used_as_spec(cf)]
    pub fn carry(&self) -> (flag: bool)
        ensures
            flag == self.cf(),
    {
        (self.f & CARRY_FLAG) != 0
    }

    /// Reads an 8-bit register.
    pub fn read(&self, reg: Reg8) -> (value: u8)
        ensures
            value == self.get(reg),
    {
        match reg {
            Reg8::A => self.a,
            Reg8::B => self.b,
            Reg8::C => self.c,
            Reg8::D => self.d,
            Reg8::E => self.e,
            Reg8::H => self.h,
            Reg8::L => self.l,
        }
    }

    /// Writes an 8-bit register.
    pub fn write(&mut self, reg: Reg8, value: u8)
        ensures
            *final(self) == old(self).with(reg, value),
    {
        match reg {
            Reg8::A => self.a = value,
            Reg8::B => self.b = value,
            Reg8::C => self.c = value,
            Reg8::D => self.d = value,
            Reg8::E => self.e = value,
            Reg8::H => self.h = value,
            Reg8::L => self.l = value,
        }
    }

    /// Reads a 16-bit register.
    pub fn read_pair(&self, src: Reg16) -> (value: u16)
        ensures
            value == self.pair(src),
    {
        match src {
            Reg16::AF => make_word(self.a, self.f),
            Reg16::BC => make_word(self.b, self.c),
            Reg16::DE => make_word(self.d, self.e),
            Reg16::HL => make_word(self.h, self.l),
            Reg16::PC => self.pc,
            Reg16::SP => self.sp,
        }
    }

    /// Writes a 16-bit register.
    pub fn write_pair(&mut self, dest: Reg16, value: u16)
        ensures
            *final(self) == old(self).with_pair(dest, value),
    {
        let (hi, lo) = split_word(value);
        match dest {
            Reg16::AF => {
                self.a = hi;
                self.f = lo & 0xF0;
            },
            Reg16::BC => {
                self.b = hi;
                self.c = lo;
            },
            Reg16::DE => {
                self.d = hi;
                self.e = lo;
            },
            Reg16::HL => {
                self.h = hi;
                self.l = lo;
            },
            Reg16::SP => self.sp = value,
            Reg16::PC => self.pc = value,
        }
    }
}

/// Each of four flags reads back from the flag register they make, and the
/// lower four bits of that register are zero.
pub proof fn lemma_flags_unpack(zero: bool, sub: bool, half_carry: bool, carry: bool)
    by (bit_vector)
    ensures
        (flags_byte(zero, sub, half_carry, carry) & 0x80 != 0) == zero,
        (flags_byte(zero, sub, half_carry, carry) & 0x40 != 0) == sub,
        (flags_byte(zero, sub, half_carry, carry) & 0x20 != 0) == half_carry,
        (flags_byte(zero, sub, half_carry, carry) & 0x10 != 0) == carry,
        flags_byte(zero, sub, half_carry, carry) & 0x0F == 0,
{
}

/// The four flags of a flag register make the register again, without its
/// lower four bits; and masking those bits away changes no flag.
pub proof fn lemma_flags_pack(f: u8)
    by (bit_vector)
    ensures
        flags_byte(f & 0x80 != 0, f & 0x40 != 0, f & 0x20 != 0, f & 0x10 != 0) == f & 0xF0,
        (f & 0xF0) & 0x0F == 0,
        ((f & 0xF0) & 0x80 != 0) == (f & 0x80 != 0),
        ((f & 0xF0) & 0x40 != 0) == (f & 0x40 != 0),
        ((f & 0xF0) & 0x20 != 0) == (f & 0x20 != 0),
        ((f & 0xF0) & 0x10 != 0) == (f & 0x10 != 0),
        f & 0x0F == 0 ==> f & 0xF0 == f,
{
}

/// Whatever flags are set, the lower four bits of the flag register are
/// zero, and each flag reads back as it was set.
pub proof fn lemma_flags_low_nibble(regs: Registers, zero: bool, sub: bool, half_carry: bool, carry: bool)
    ensures
        regs.with_flags(zero, sub, half_carry, carry).f & 0x0F == 0,
        regs.with_flags(zero, sub, half_carry, carry).zero() == zero,
        regs.with_flags(zero, sub, half_carry, carry).sub() == sub,
        regs.with_flags(zero, sub, half_carry, carry).half_carry() == half_carry,
        regs.with_flags(zero, sub, half_carry, carry).carry() == carry,
{
    lemma_flags_unpack(zero, sub, half_carry, carry);
}

/// Whatever word is written to AF, the lower four bits of what AF reads
/// afterwards are zero: AF reads the word written without those bits.
pub proof fn lemma_af_low_nibble(regs: Registers, value: u16)
    ensures
        regs.with_pair(Reg16::AF, value).f & 0x0F == 0,
        regs.with_pair(Reg16::AF, value).pair(Reg16::AF) % 16 == 0,
        regs.with_pair(Reg16::AF, value).pair(Reg16::AF) == value - value % 16,
{
    let lo = low_byte(value);
    lemma_flags_pack(lo);
    crate::bits::lemma_low_nibble(lo);
    crate::bits::lemma_high_nibble(lo);
}

/// A register pair other than AF reads the word that was written to it, and
/// writing the word that a pair reads changes nothing. For AF the same
/// holds of every word and every flag register whose lower four bits are
/// zero.
pub proof fn lemma_pair_round_trip(regs: Registers, reg: Reg16, value: u16)
    ensures
        reg != Reg16::AF ==> regs.with_pair(reg, value).pair(reg) == value,
        reg != Reg16::AF ==> regs.with_pair(reg, regs.pair(reg)) == regs,
        value % 16 == 0 ==> regs.with_pair(Reg16::AF, value).pair(Reg16::AF) == value,
        regs.f & 0x0F == 0 ==> regs.with_pair(Reg16::AF, regs.pair(Reg16::AF)) == regs,
{
    lemma_af_low_nibble(regs, value);
    lemma_flags_pack(regs.f);
}

/// Writing one register pair leaves the other registers alone, but for the
/// overlap of a pair with itself.
pub proof fn lemma_pair_write_is_local(regs: Registers, reg: Reg16, value: u16, other: Reg16)
    ensures
        other != reg ==> regs.with_pair(reg, value).pair(other) == regs.pair(other),
{
}

} // verus!
