//! What each instruction does to the machine.
//!
//! An instruction is a function from machine to machine. It is put together
//! from the steps that cost time: a fetch, a read and a write take one
//! machine cycle each, and `tick` stands for the cycles that an instruction
//! spends without touching memory.

use vstd::prelude::*;
use crate::bits::{sign_extend, wrap16};
use crate::cpu::alu::{
    add16, add8, add_offset, and8, daa8, dec8, inc8, or8, rotate_a, shift8, sub8, xor8, AluResult,
    Shift,
};
use crate::cpu::decode::JumpCond;
use crate::cpu::operands::{ByteOperand, WordOperand};
use crate::cpu::registers::{flags_byte, Reg16, Registers};
use crate::cpu::{Cpu, Machine};

verus! {

impl Cpu {
    /// Whether the flags meet a jump condition.
    pub open spec fn meets(self, cond: JumpCond) -> bool {
        match cond {
            JumpCond::Always => true,
            JumpCond::NotZero => !self.regs.zf(),
            JumpCond::Zero => self.regs.zf(),
            JumpCond::NotCarry => !self.regs.cf(),
            JumpCond::Carry => self.regs.cf(),
        }
    }
}

impl Machine {
    /// The machine with the result of an operation in the accumulator and
    /// its flags in the flag register.
    pub open spec fn with_alu(self, result: AluResult) -> Machine {
        self.with_regs(Registers { a: result.value, f: result.flags, ..self.cpu.regs })
    }

    /// The machine with another flag register.
    pub open spec fn with_f(self, flags: u8) -> Machine {
        self.with_regs(Registers { f: flags, ..self.cpu.regs })
    }

    /// The machine with the interrupt master enable set or cleared.
    pub open spec fn with_ime(self, enabled: bool) -> Machine {
        Machine { cpu: Cpu { interrupt_enabled: enabled, ..self.cpu }, ..self }
    }

    /// Whether the flags meet a jump condition.
    pub open spec fn cond_met(self, cond: JumpCond) -> bool {
        self.cpu.meets(cond)
    }

    /// HALT: the CPU stops running until an interrupt is requested.
    #[verifier::opaque]
    pub open spec fn halt(self) -> Machine {
        Machine { cpu: Cpu { halted: true, ..self.cpu }, ..self }
    }

    /// DI: the interrupt master enable is cleared.
    #[verifier::opaque]
    pub open spec fn di(self) -> Machine {
        self.with_ime(false)
    }

    /// EI: the interrupt master enable is set.
    #[verifier::opaque]
    pub open spec fn ei(self) -> Machine {
        self.with_ime(true)
    }

    /// LD: `dest` takes the value of `src`.
    #[verifier::opaque]
    pub open spec fn load(self, dest: ByteOperand, src: ByteOperand) -> Machine {
        let (value, next) = self.read8(src);
        next.write8(dest, value)
    }

    /// ADD: the accumulator takes the sum of itself and `src`.
    #[verifier::opaque]
    pub open spec fn add(self, src: ByteOperand) -> Machine {
        let (x, next) = self.read8(src);
        next.with_alu(add8(next.cpu.regs.a, x, false))
    }

    /// ADC: the accumulator takes the sum of itself, `src` and the carry.
    #[verifier::opaque]
    pub open spec fn adc(self, src: ByteOperand) -> Machine {
        let (x, next) = self.read8(src);
        next.with_alu(add8(next.cpu.regs.a, x, next.cpu.regs.cf()))
    }

    /// SUB: `src` is taken off the accumulator.
    #[verifier::opaque]
    pub open spec fn sub(self, src: ByteOperand) -> Machine {
        let (x, next) = self.read8(src);
        next.with_alu(sub8(next.cpu.regs.a, x, false))
    }

    /// SBC: `src` and the carry are taken off the accumulator.
    #[verifier::opaque]
    pub open spec fn sbc(self, src: ByteOperand) -> Machine {
        let (x, next) = self.read8(src);
        next.with_alu(sub8(next.cpu.regs.a, x, next.cpu.regs.cf()))
    }

    /// AND: the accumulator keeps the bits that `src` has too.
    #[verifier::opaque]
    pub open spec fn and(self, src: ByteOperand) -> Machine {
        let (x, next) = self.read8(src);
        next.with_alu(and8(next.cpu.regs.a, x))
    }

    /// XOR: the accumulator keeps the bits in which it differs from `src`.
    #[verifier::opaque]
    pub open spec fn xor(self, src: ByteOperand) -> Machine {
        let (x, next) = self.read8(src);
        next.with_alu(xor8(next.cpu.regs.a, x))
    }

    /// OR: the accumulator takes the bits of `src` as well.
    #[verifier::opaque]
    pub open spec fn or(self, src: ByteOperand) -> Machine {
        let (x, next) = self.read8(src);
        next.with_alu(or8(next.cpu.regs.a, x))
    }

    /// CP: the flags of a subtraction, with the accumulator left alone.
    #[verifier::opaque]
    pub open spec fn cp(self, src: ByteOperand) -> Machine {
        let (x, next) = self.read8(src);
        next.with_f(sub8(next.cpu.regs.a, x, false).flags)
    }

    /// CPL: every bit of the accumulator is turned over; the subtract and
    /// the half-carry flag are set.
    #[verifier::opaque]
    pub open spec fn cpl(self) -> Machine {
        let regs = self.cpu.regs;
        self.with_regs(Registers { a: !regs.a, f: flags_byte(regs.zf(), true, true, regs.cf()), ..regs })
    }

    /// SCF: the carry flag is set; subtract and half-carry are cleared.
    #[verifier::opaque]
    pub open spec fn scf(self) -> Machine {
        self.with_f(flags_byte(self.cpu.regs.zf(), false, false, true))
    }

    /// CCF: the carry flag is turned over; subtract and half-carry are
    /// cleared.
    #[verifier::opaque]
    pub open spec fn ccf(self) -> Machine {
        self.with_f(flags_byte(self.cpu.regs.zf(), false, false, !self.cpu.regs.cf()))
    }

    /// INC: `target` goes up by one.
    #[verifier::opaque]
    pub open spec fn inc(self, target: ByteOperand) -> Machine {
        let (x, next) = self.read8(target);
        let result = inc8(x, next.cpu.regs.cf());
        next.with_f(result.flags).write8(target, result.value)
    }

    /// DEC: `target` goes down by one.
    #[verifier::opaque]
    pub open spec fn dec(self, target: ByteOperand) -> Machine {
        let (x, next) = self.read8(target);
        let result = dec8(x, next.cpu.regs.cf());
        next.with_f(result.flags).write8(target, result.value)
    }

    /// RLCA, RRCA, RLA and RRA: the accumulator is rotated by one bit.
    #[verifier::opaque]
    pub open spec fn rotate_accumulator(self, kind: Shift) -> Machine {
        self.with_alu(rotate_a(kind, self.cpu.regs.a, self.cpu.regs.cf()))
    }

    /// LD with 16 bits: `dest` takes the value of `src`.
    #[verifier::opaque]
    pub open spec fn load16(self, dest: WordOperand, src: WordOperand) -> Machine {
        let (value, next) = self.read16(src);
        next.write16(dest, value)
    }

    /// LD SP, HL, which takes one machine cycle more.
    #[verifier::opaque]
    pub open spec fn load16_sphl(self) -> Machine {
        self.with_sp(self.cpu.regs.pair(Reg16::HL)).tick(1)
    }

    /// LD HL, SP+e: HL takes the stack pointer plus the signed byte that
    /// follows the opcode, which takes one machine cycle more.
    #[verifier::opaque]
    pub open spec fn load16_hlsp_n(self) -> Machine {
        let (e, next) = self.fetch();
        let result = add_offset(next.cpu.regs.sp, e);
        next.with_regs(next.cpu.regs.with_pair(Reg16::HL, result.value)).with_f(result.flags).tick(
            1,
        )
    }

    /// INC with 16 bits: `target` goes up by one and no flag changes, which
    /// takes one machine cycle more.
    #[verifier::opaque]
    pub open spec fn inc16(self, target: WordOperand) -> Machine {
        let (value, next) = self.read16(target);
        next.write16(target, wrap16(value + 1)).tick(1)
    }

    /// DEC with 16 bits: `target` goes down by one and no flag changes,
    /// which takes one machine cycle more.
    #[verifier::opaque]
    pub open spec fn dec16(self, target: WordOperand) -> Machine {
        let (value, next) = self.read16(target);
        next.write16(target, wrap16(value - 1)).tick(1)
    }

    /// ADD SP, e: the signed byte that follows the opcode is added to the
    /// stack pointer, which takes two machine cycles more.
    #[verifier::opaque]
    pub open spec fn add16_sp_n(self) -> Machine {
        let (e, next) = self.fetch();
        let result = add_offset(next.cpu.regs.sp, e);
        next.with_f(result.flags).with_sp(result.value).tick(2)
    }

    /// ADD HL, rr: a 16-bit register is added to HL, which takes one
    /// machine cycle more.
    #[verifier::opaque]
    pub open spec fn add16hl(self, src: Reg16) -> Machine {
        let regs = self.cpu.regs;
        let result = add16(regs.pair(Reg16::HL), regs.pair(src), regs.zf());
        self.with_f(result.flags).with_regs(
            self.with_f(result.flags).cpu.regs.with_pair(Reg16::HL, result.value),
        ).tick(1)
    }

    /// PUSH: the stack pointer goes down by two, which takes a machine
    /// cycle, and the value of `src` is written where it points to.
    #[verifier::opaque]
    pub open spec fn push(self, src: WordOperand) -> Machine {
        let (value, next) = self.read16(src);
        let sp = wrap16(next.cpu.regs.sp - 2);
        next.with_sp(sp).tick(1).write_word(sp, value)
    }

    /// POP: `dest` takes the word that the stack pointer points to, and the
    /// stack pointer goes up by two.
    #[verifier::opaque]
    pub open spec fn pop(self, dest: WordOperand) -> Machine {
        let (value, next) = self.read_word(self.cpu.regs.sp);
        let written = next.write16(dest, value);
        written.with_sp(wrap16(written.cpu.regs.sp + 2))
    }

    /// CALL: if the condition is met, the address of the next instruction
    /// is pushed and the program goes on at the word that follows the
    /// opcode.
    #[verifier::opaque]
    pub open spec fn call(self, cond: JumpCond) -> Machine {
        let (address, next) = self.fetch_word();
        if next.cond_met(cond) {
            next.push(WordOperand::Register(Reg16::PC)).with_pc(address)
        } else {
            next
        }
    }

    /// JR: if the condition is met, the program counter moves by the signed
    /// byte that follows the opcode, which takes one machine cycle more.
    #[verifier::opaque]
    pub open spec fn jr(self, cond: JumpCond) -> Machine {
        let (e, next) = self.fetch();
        if next.cond_met(cond) {
            next.with_pc(wrap16(next.cpu.regs.pc + sign_extend(e))).tick(1)
        } else {
            next
        }
    }

    /// JP: if the condition is met, the program goes on at the value of
    /// `target`, which takes one machine cycle more.
    #[verifier::opaque]
    pub open spec fn jp(self, cond: JumpCond, target: WordOperand) -> Machine {
        let (address, next) = self.read16(target);
        if next.cond_met(cond) {
            next.with_pc(address).tick(1)
        } else {
            next
        }
    }

    /// JP (HL): the program goes on at the address in HL, at no cost.
    #[verifier::opaque]
    pub open spec fn jp_hl(self) -> Machine {
        self.with_pc(self.cpu.regs.pair(Reg16::HL))
    }

    /// RET: a conditional return spends a machine cycle on its condition.
    /// If the condition is met, the program counter is popped, which takes
    /// one machine cycle more.
    #[verifier::opaque]
    pub open spec fn ret(self, cond: JumpCond) -> Machine {
        let checked = if cond != JumpCond::Always {
            self.tick(1)
        } else {
            self
        };
        if checked.cond_met(cond) {
            checked.pop(WordOperand::Register(Reg16::PC)).tick(1)
        } else {
            checked
        }
    }

    /// RETI: a return that sets the interrupt master enable.
    #[verifier::opaque]
    pub open spec fn reti(self, cond: JumpCond) -> Machine {
        if self.cond_met(cond) {
            self.pop(WordOperand::Register(Reg16::PC)).tick(1).with_ime(true)
        } else {
            self
        }
    }

    /// RST: the program counter is pushed and the program goes on at
    /// `address`.
    #[verifier::opaque]
    pub open spec fn rst(self, address: u16) -> Machine {
        self.push(WordOperand::Register(Reg16::PC)).with_pc(address)
    }

    /// DAA: the accumulator is adjusted to two decimal digits.
    #[verifier::opaque]
    pub open spec fn daa(self) -> Machine {
        let regs = self.cpu.regs;
        self.with_alu(daa8(regs.a, regs.nf(), regs.hf(), regs.cf()))
    }

    /// A prefixed shift or rotation of `target`.
    #[verifier::opaque]
    pub open spec fn shift(self, kind: Shift, target: ByteOperand) -> Machine {
        let (x, next) = self.read8(target);
        let result = shift8(kind, x, next.cpu.regs.cf());
        next.write8(target, result.value).with_f(result.flags)
    }

    /// BIT: the zero flag is set if bit `bit` of `src` is clear; subtract is
    /// cleared, half-carry is set, the carry stays.
    #[verifier::opaque]
    pub open spec fn bit(self, bit: u8, src: ByteOperand) -> Machine {
        let (x, next) = self.read8(src);
        next.with_f(flags_byte(x & (1u8 << bit) == 0, false, true, next.cpu.regs.cf()))
    }

    /// RES: bit `bit` of `target` is cleared.
    #[verifier::opaque]
    pub open spec fn res(self, bit: u8, target: ByteOperand) -> Machine {
        let (x, next) = self.read8(target);
        next.write8(target, x & !(1u8 << bit))
    }

    /// SET: bit `bit` of `target` is set.
    #[verifier::opaque]
    pub open spec fn set(self, bit: u8, target: ByteOperand) -> Machine {
        let (x, next) = self.read8(target);
        next.write8(target, x | (1u8 << bit))
    }
}

} // verus!
