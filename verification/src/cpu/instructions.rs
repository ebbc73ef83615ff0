//! The instructions of the CPU.
//!
//! Each function runs one instruction on the operands it is given and
//! promises what [`Machine`](crate::cpu::Machine) says of that instruction.
//! No instruction spends more than nine machine cycles.

use vstd::prelude::*;
use crate::bits::widen_offset;
use crate::cpu::alu::{adjust_decimal, Shift};
use crate::cpu::decode::JumpCond;
use crate::cpu::registers::Reg16;
use crate::cpu::{machine, ByteDest, ByteSrc, Cpu, Fault, Machine, WordDest, WordSrc};
use crate::emulator::Emulator;

verus! {

impl Cpu {
    /// Whether the flags meet a jump condition.
    pub fn cond_met(&self, cond: JumpCond) -> (met: bool)
        ensures
            met == self.meets(cond),
    {
        match cond {
            JumpCond::Always => true,
            JumpCond::NotZero => !self.regs.zero(),
            JumpCond::Zero => self.regs.zero(),
            JumpCond::NotCarry => !self.regs.carry(),
            JumpCond::Carry => self.regs.carry(),
        }
    }

    /// STOP. The engine has no low-power mode: it reports a fault and
    /// changes nothing.
    pub fn stop(&mut self, emulator: &mut Emulator) -> (result: Result<(), Fault>)
        ensures
            result == Err::<(), Fault>(Fault::Stop),
            *final(self) == *old(self),
            *final(emulator) == *old(emulator),
    {
        Err(Fault::Stop)
    }

    /// HALT.
    pub fn halt(&mut self, emulator: &mut Emulator)
        requires
            old(emulator)@.can_spend(8),
        ensures
            machine(*final(self), *final(emulator)) == machine(*old(self), *old(emulator)).halt(),
            final(emulator)@.cycles <= old(emulator)@.cycles + 8,
            old(emulator).wf() ==> final(emulator).wf(),
    {
        reveal(Machine::halt);
        self.halted = true;
    }

    /// DI.
    pub fn di(&mut self, emulator: &mut Emulator)
        requires
            old(emulator)@.can_spend(8),
        ensures
            machine(*final(self), *final(emulator)) == machine(*old(self), *old(emulator)).di(),
            final(emulator)@.cycles <= old(emulator)@.cycles + 8,
            old(emulator).wf() ==> final(emulator).wf(),
    {
        reveal(Machine::di);
        self.interrupt_enabled = false;
    }

    /// EI.
    pub fn ei(&mut self, emulator: &mut Emulator)
        requires
            old(emulator)@.can_spend(8),
        ensures
            machine(*final(self), *final(emulator)) == machine(*old(self), *old(emulator)).ei(),
            final(emulator)@.cycles <= old(emulator)@.cycles + 8,
            old(emulator).wf() ==> final(emulator).wf(),
    {
        reveal(Machine::ei);
        self.interrupt_enabled = true;
    }

    /// LD dest, src.
    pub fn load<D: ByteDest, S: ByteSrc>(&mut self, emulator: &mut Emulator, dest: D, src: S)
        requires
            old(emulator)@.can_spend(8),
        ensures
            machine(*final(self), *final(emulator)) == machine(*old(self), *old(emulator)).load(dest.byte_dest(), src.byte_source()),
            final(emulator)@.cycles <= old(emulator)@.cycles + 8,
            old(emulator).wf() ==> final(emulator).wf(),
    {
        reveal(Machine::load);
        let value = src.read(self, emulator);
        dest.write(self, emulator, value);
    }

    /// ADD A, source.
    pub fn add<T: ByteSrc>(&mut self, emulator: &mut Emulator, source: T)
        requires
            old(emulator)@.can_spend(8),
        ensures
            machine(*final(self), *final(emulator)) == machine(*old(self), *old(emulator)).add(source.byte_source()),
            final(emulator)@.cycles <= old(emulator)@.cycles + 8,
            old(emulator).wf() ==> final(emulator).wf(),
    {
        reveal(Machine::add);
        let addend = source.read(self, emulator);
        let a = self.regs.a;
        let sum: u16 = a as u16 + addend as u16;
        let new_value = (sum % 0x100) as u8;

        self.regs.set_flags(new_value == 0, false, a % 16 + addend % 16 > 0xF, sum > 0xFF);

        self.regs.a = new_value;
    }

    /// ADC A, source.
    pub fn adc<T: ByteSrc>(&mut self, emulator: &mut Emulator, source: T)
        requires
            old(emulator)@.can_spend(8),
        ensures
            machine(*final(self), *final(emulator)) == machine(*old(self), *old(emulator)).adc(source.byte_source()),
            final(emulator)@.cycles <= old(emulator)@.cycles + 8,
            old(emulator).wf() ==> final(emulator).wf(),
    {
        reveal(Machine::adc);
        let addend = source.read(self, emulator);
        let carry: u8 = if self.regs.carry() {
            1
        } else {
            0
        };
        let a = self.regs.a;
        let sum: u16 = a as u16 + addend as u16 + carry as u16;
        let new_value = (sum % 0x100) as u8;

        self.regs.set_flags(new_value == 0, false, a % 16 + addend % 16 + carry > 0xF, sum > 0xFF);

        self.regs.a = new_value;
    }

    /// SUB A, source.
    pub fn sub<T: ByteSrc>(&mut self, emulator: &mut Emulator, source: T)
        requires
            old(emulator)@.can_spend(8),
        ensures
            machine(*final(self), *final(emulator)) == machine(*old(self), *old(emulator)).sub(source.byte_source()),
            final(emulator)@.cycles <= old(emulator)@.cycles + 8,
            old(emulator).wf() ==> final(emulator).wf(),
    {
        reveal(Machine::sub);
        let subtrahend = source.read(self, emulator);
        let a = self.regs.a;
        let new_value = a.wrapping_sub(subtrahend);

        self.regs.set_flags(new_value == 0, true, a % 16 < subtrahend % 16, a < subtrahend);

        self.regs.a = new_value;
    }

    /// SBC A, source.
    pub fn sbc<T: ByteSrc>(&mut self, emulator: &mut Emulator, source: T)
        requires
            old(emulator)@.can_spend(8),
        ensures
            machine(*final(self), *final(emulator)) == machine(*old(self), *old(emulator)).sbc(source.byte_source()),
            final(emulator)@.cycles <= old(emulator)@.cycles + 8,
            old(emulator).wf() ==> final(emulator).wf(),
    {
        reveal(Machine::sbc);
        let subtrahend = source.read(self, emulator);
        let carry: u8 = if self.regs.carry() {
            1
        } else {
            0
        };
        let a = self.regs.a;
        let new_value = a.wrapping_sub(subtrahend).wrapping_sub(carry);

        self.regs.set_flags(new_value == 0, true, a % 16 < subtrahend % 16 + carry, (a as u16) < subtrahend as u16 + carry as u16);

        self.regs.a = new_value;
    }

    /// AND A, source.
    pub fn and<T: ByteSrc>(&mut self, emulator: &mut Emulator, source: T)
        requires
            old(emulator)@.can_spend(8),
        ensures
            machine(*final(self), *final(emulator)) == machine(*old(self), *old(emulator)).and(source.byte_source()),
            final(emulator)@.cycles <= old(emulator)@.cycles + 8,
            old(emulator).wf() ==> final(emulator).wf(),
    {
        reveal(Machine::and);
        let operand = source.read(self, emulator);
        let new_value = self.regs.a & operand;

        self.regs.set_flags(new_value == 0, false, true, false);

        self.regs.a = new_value;
    }

    /// XOR A, source.
    pub fn xor<T: ByteSrc>(&mut self, emulator: &mut Emulator, source: T)
        requires
            old(emulator)@.can_spend(8),
        ensures
            machine(*final(self), *final(emulator)) == machine(*old(self), *old(emulator)).xor(source.byte_source()),
            final(emulator)@.cycles <= old(emulator)@.cycles + 8,
            old(emulator).wf() ==> final(emulator).wf(),
    {
        reveal(Machine::xor);
        let operand = source.read(self, emulator);
        let new_value = self.regs.a ^ operand;

        self.regs.set_flags(new_value == 0, false, false, false);

        self.regs.a = new_value;
    }

    /// OR A, source.
    pub fn or<T: ByteSrc>(&mut self, emulator: &mut Emulator, source: T)
        requires
            old(emulator)@.can_spend(8),
        ensures
            machine(*final(self), *final(emulator)) == machine(*old(self), *old(emulator)).or(source.byte_source()),
            final(emulator)@.cycles <= old(emulator)@.cycles + 8,
            old(emulator).wf() ==> final(emulator).wf(),
    {
        reveal(Machine::or);
        let operand = source.read(self, emulator);
        let new_value = self.regs.a | operand;

        self.regs.set_flags(new_value == 0, false, false, false);

        self.regs.a = new_value;
    }

    /// CP A, source.
    pub fn cp<T: ByteSrc>(&mut self, emulator: &mut Emulator, source: T)
        requires
            old(emulator)@.can_spend(8),
        ensures
            machine(*final(self), *final(emulator)) == machine(*old(self), *old(emulator)).cp(source.byte_source()),
            final(emulator)@.cycles <= old(emulator)@.cycles + 8,
            old(emulator).wf() ==> final(emulator).wf(),
    {
        reveal(Machine::cp);
        let subtrahend = source.read(self, emulator);
        let a = self.regs.a;
        let new_value = a.wrapping_sub(subtrahend);

        self.regs.set_flags(new_value == 0, true, a % 16 < subtrahend % 16, a < subtrahend);
    }

    /// CPL.
    pub fn cpl(&mut self, emulator: &mut Emulator)
        requires
            old(emulator)@.can_spend(8),
        ensures
            machine(*final(self), *final(emulator)) == machine(*old(self), *old(emulator)).cpl(),
            final(emulator)@.cycles <= old(emulator)@.cycles + 8,
            old(emulator).wf() ==> final(emulator).wf(),
    {
        reveal(Machine::cpl);
        self.regs.a = !self.regs.a;
        self.regs.set_sub(true);
        self.regs.set_half_carry(true);
    }

    /// SCF.
    pub fn scf(&mut self, emulator: &mut Emulator)
        requires
            old(emulator)@.can_spend(8),
        ensures
            machine(*final(self), *final(emulator)) == machine(*old(self), *old(emulator)).scf(),
            final(emulator)@.cycles <= old(emulator)@.cycles + 8,
            old(emulator).wf() ==> final(emulator).wf(),
    {
        reveal(Machine::scf);
        self.regs.set_sub(false);
        self.regs.set_half_carry(false);
        self.regs.set_carry(true);
    }

    /// CCF.
    pub fn ccf(&mut self, emulator: &mut Emulator)
        requires
            old(emulator)@.can_spend(8),
        ensures
            machine(*final(self), *final(emulator)) == machine(*old(self), *old(emulator)).ccf(),
            final(emulator)@.cycles <= old(emulator)@.cycles + 8,
            old(emulator).wf() ==> final(emulator).wf(),
    {
        reveal(Machine::ccf);
        let carry = self.regs.carry();
        self.regs.set_sub(false);
        self.regs.set_half_carry(false);
        self.regs.set_carry(!carry);
    }

    /// INC target.
    pub fn inc<T: ByteSrc + ByteDest>(&mut self, emulator: &mut Emulator, target: T)
        requires
            target.byte_dest() == target.byte_source(),
            old(emulator)@.can_spend(8),
        ensures
            machine(*final(self), *final(emulator)) == machine(*old(self), *old(emulator)).inc(target.byte_source()),
            final(emulator)@.cycles <= old(emulator)@.cycles + 8,
            old(emulator).wf() ==> final(emulator).wf(),
    {
        reveal(Machine::inc);
        let old_value = target.read(self, emulator);
        let new_value = old_value.wrapping_add(1);

        self.regs.set_zero(new_value == 0);
        self.regs.set_sub(false);
        self.regs.set_half_carry(old_value % 16 == 0xF);

        target.write(self, emulator, new_value);
    }

    /// DEC target.
    pub fn dec<T: ByteSrc + ByteDest>(&mut self, emulator: &mut Emulator, target: T)
        requires
            target.byte_dest() == target.byte_source(),
            old(emulator)@.can_spend(8),
        ensures
            machine(*final(self), *final(emulator)) == machine(*old(self), *old(emulator)).dec(target.byte_source()),
            final(emulator)@.cycles <= old(emulator)@.cycles + 8,
            old(emulator).wf() ==> final(emulator).wf(),
    {
        reveal(Machine::dec);
        let old_value = target.read(self, emulator);
        let new_value = old_value.wrapping_sub(1);

        self.regs.set_zero(new_value == 0);
        self.regs.set_sub(true);
        self.regs.set_half_carry(old_value % 16 == 0);

        target.write(self, emulator, new_value);
    }

    /// RLCA.
    pub fn rlca(&mut self, emulator: &mut Emulator)
        requires
            old(emulator)@.can_spend(8),
        ensures
            machine(*final(self), *final(emulator)) == machine(*old(self), *old(emulator)).rotate_accumulator(Shift::Rlc),
            final(emulator)@.cycles <= old(emulator)@.cycles + 8,
            old(emulator).wf() ==> final(emulator).wf(),
    {
        reveal(Machine::rotate_accumulator);
        let a = self.regs.a;
        proof {
            lemma_rotate_left(a);
        }
        self.regs.a = (a << 1) | (a >> 7);

        self.regs.set_flags(false, false, false, (a & 0x80) != 0);
    }

    /// RRCA.
    pub fn rrca(&mut self, emulator: &mut Emulator)
        requires
            old(emulator)@.can_spend(8),
        ensures
            machine(*final(self), *final(emulator)) == machine(*old(self), *old(emulator)).rotate_accumulator(Shift::Rrc),
            final(emulator)@.cycles <= old(emulator)@.cycles + 8,
            old(emulator).wf() ==> final(emulator).wf(),
    {
        reveal(Machine::rotate_accumulator);
        let a = self.regs.a;
        proof {
            lemma_rotate_right(a);
        }
        self.regs.a = (a >> 1) | (a << 7);

        self.regs.set_flags(false, false, false, (a & 0x01) != 0);
    }

    /// RLA.
    pub fn rla(&mut self, emulator: &mut Emulator)
        requires
            old(emulator)@.can_spend(8),
        ensures
            machine(*final(self), *final(emulator)) == machine(*old(self), *old(emulator)).rotate_accumulator(Shift::Rl),
            final(emulator)@.cycles <= old(emulator)@.cycles + 8,
            old(emulator).wf() ==> final(emulator).wf(),
    {
        reveal(Machine::rotate_accumulator);
        let a = self.regs.a;
        proof {
            lemma_shift_left(a);
        }
        let mut new_value = a << 1;
        if self.regs.carry() {
            new_value = new_value | 0x01;
        }
        self.regs.a = new_value;

        self.regs.set_flags(false, false, false, (a & 0x80) != 0);
    }

    /// RRA.
    pub fn rra(&mut self, emulator: &mut Emulator)
        requires
            old(emulator)@.can_spend(8),
        ensures
            machine(*final(self), *final(emulator)) == machine(*old(self), *old(emulator)).rotate_accumulator(Shift::Rr),
            final(emulator)@.cycles <= old(emulator)@.cycles + 8,
            old(emulator).wf() ==> final(emulator).wf(),
    {
        reveal(Machine::rotate_accumulator);
        let a = self.regs.a;
        proof {
            lemma_shift_right(a);
        }
        let mut new_value = a >> 1;
        if self.regs.carry() {
            new_value = new_value | 0x80;
        }
        self.regs.a = new_value;

        self.regs.set_flags(false, false, false, (a & 0x01) != 0);
    }

    /// LD dest, src with 16 bits.
    pub fn load16<D: WordDest, S: WordSrc>(&mut self, emulator: &mut Emulator, dest: D, src: S)
        requires
            src.gives_word(),
            dest.takes_word(),
            old(emulator)@.can_spend(8),
        ensures
            machine(*final(self), *final(emulator)) == machine(*old(self), *old(emulator)).load16(dest.word_dest(), src.word_source()),
            final(emulator)@.cycles <= old(emulator)@.cycles + 8,
            old(emulator).wf() ==> final(emulator).wf(),
    {
        reveal(Machine::load16);
        let value = src.read(self, emulator);
        dest.write(self, emulator, value);
    }

    /// LD SP, HL.
    pub fn load16_sphl(&mut self, emulator: &mut Emulator)
        requires
            old(emulator)@.can_spend(8),
        ensures
            machine(*final(self), *final(emulator)) == machine(*old(self), *old(emulator)).load16_sphl(),
            final(emulator)@.cycles <= old(emulator)@.cycles + 8,
            old(emulator).wf() ==> final(emulator).wf(),
    {
        reveal(Machine::load16_sphl);
        self.regs.sp = self.regs.read_pair(Reg16::HL);
        emulator.step();
    }

    /// LD HL, SP+e.
    pub fn load16_hlsp_n(&mut self, emulator: &mut Emulator)
        requires
            old(emulator)@.can_spend(8),
        ensures
            machine(*final(self), *final(emulator)) == machine(*old(self), *old(emulator)).load16_hlsp_n(),
            final(emulator)@.cycles <= old(emulator)@.cycles + 8,
            old(emulator).wf() ==> final(emulator).wf(),
    {
        reveal(Machine::load16_hlsp_n);
        let e = self.fetch(emulator);
        let offset = widen_offset(e);
        let sp = self.regs.sp;
        let new_hl = sp.wrapping_add(offset);
        let ghost fetched = machine(*self, *emulator);
        let ghost result = crate::cpu::alu::add_offset(sp, e);
        assert(new_hl == result.value);
        self.regs.write_pair(Reg16::HL, new_hl);
        assert(self.regs == fetched.cpu.regs.with_pair(Reg16::HL, result.value));

        let half_carry = sp % 16 + (e % 16) as u16 > 0xF;
        let carry = sp % 256 + e as u16 > 0xFF;
        self.regs.set_flags(false, false, half_carry, carry);
        emulator.step();
    }

    /// INC target with 16 bits.
    pub fn inc16<T: WordSrc + WordDest>(&mut self, emulator: &mut Emulator, target: T)
        requires
            target.gives_word(),
            target.takes_word(),
            target.word_dest() == target.word_source(),
            old(emulator)@.can_spend(9),
        ensures
            machine(*final(self), *final(emulator)) == machine(*old(self), *old(emulator)).inc16(target.word_source()),
            final(emulator)@.cycles <= old(emulator)@.cycles + 9,
            old(emulator).wf() ==> final(emulator).wf(),
    {
        reveal(Machine::inc16);
        let old_value = target.read(self, emulator);
        let new_value = old_value.wrapping_add(1);
        target.write(self, emulator, new_value);
        emulator.step();
    }

    /// DEC target with 16 bits.
    pub fn dec16<T: WordSrc + WordDest>(&mut self, emulator: &mut Emulator, target: T)
        requires
            target.gives_word(),
            target.takes_word(),
            target.word_dest() == target.word_source(),
            old(emulator)@.can_spend(9),
        ensures
            machine(*final(self), *final(emulator)) == machine(*old(self), *old(emulator)).dec16(target.word_source()),
            final(emulator)@.cycles <= old(emulator)@.cycles + 9,
            old(emulator).wf() ==> final(emulator).wf(),
    {
        reveal(Machine::dec16);
        let old_value = target.read(self, emulator);
        let new_value = old_value.wrapping_sub(1);
        target.write(self, emulator, new_value);
        emulator.step();
    }

    /// ADD SP, e.
    pub fn add16_sp_n(&mut self, emulator: &mut Emulator)
        requires
            old(emulator)@.can_spend(8),
        ensures
            machine(*final(self), *final(emulator)) == machine(*old(self), *old(emulator)).add16_sp_n(),
            final(emulator)@.cycles <= old(emulator)@.cycles + 8,
            old(emulator).wf() ==> final(emulator).wf(),
    {
        reveal(Machine::add16_sp_n);
        let e = self.fetch(emulator);
        let offset = widen_offset(e);
        let sp = self.regs.sp;

        self.regs.set_flags(false, false, sp % 16 + (e % 16) as u16 > 0xF, sp % 256 + e as u16 > 0xFF);

        self.regs.sp = sp.wrapping_add(offset);
        emulator.step();
        emulator.step();
    }

    /// ADD HL, src.
    #[verifier::rlimit(40)]
    pub fn add16hl(&mut self, emulator: &mut Emulator, src: Reg16)
        requires
            old(emulator)@.can_spend(8),
        ensures
            machine(*final(self), *final(emulator)) == machine(*old(self), *old(emulator)).add16hl(src),
            final(emulator)@.cycles <= old(emulator)@.cycles + 8,
            old(emulator).wf() ==> final(emulator).wf(),
    {
        reveal(Machine::add16hl);
        let addend = self.regs.read_pair(src);
        let hl = self.regs.read_pair(Reg16::HL);
        let new_value = hl.wrapping_add(addend);

        self.regs.set_sub(false);
        self.regs.set_half_carry(hl % 0x1000 + addend % 0x1000 > 0x0FFF);
        self.regs.set_carry(hl as u32 + addend as u32 > 0xFFFF);

        self.regs.write_pair(Reg16::HL, new_value);
        emulator.step();
    }

    /// PUSH src.
    pub fn push<T: WordSrc>(&mut self, emulator: &mut Emulator, src: T)
        requires
            src.gives_word(),
            old(emulator)@.can_spend(7),
        ensures
            machine(*final(self), *final(emulator)) == machine(*old(self), *old(emulator)).push(src.word_source()),
            final(emulator)@.cycles <= old(emulator)@.cycles + 7,
            old(emulator).wf() ==> final(emulator).wf(),
    {
        reveal(Machine::push);
        let value = src.read(self, emulator);
        self.regs.sp = self.regs.sp.wrapping_sub(2);
        emulator.step();
        self.write_word(emulator, self.regs.sp, value);
    }

    /// POP dest.
    pub fn pop<T: WordDest>(&mut self, emulator: &mut Emulator, dest: T)
        requires
            dest.takes_word(),
            old(emulator)@.can_spend(6),
        ensures
            machine(*final(self), *final(emulator)) == machine(*old(self), *old(emulator)).pop(dest.word_dest()),
            final(emulator)@.cycles <= old(emulator)@.cycles + 6,
            old(emulator).wf() ==> final(emulator).wf(),
    {
        reveal(Machine::pop);
        let value = self.read_word(emulator, self.regs.sp);
        dest.write(self, emulator, value);
        self.regs.sp = self.regs.sp.wrapping_add(2);
    }

    /// CALL cond, nn.
    pub fn call(&mut self, emulator: &mut Emulator, cond: JumpCond)
        requires
            old(emulator)@.can_spend(9),
        ensures
            machine(*final(self), *final(emulator)) == machine(*old(self), *old(emulator)).call(cond),
            final(emulator)@.cycles <= old(emulator)@.cycles + 9,
            old(emulator).wf() ==> final(emulator).wf(),
    {
        reveal(Machine::call);
        let address = self.fetch_word(emulator);
        if self.cond_met(cond) {
            self.push(emulator, Reg16::PC);
            self.regs.pc = address;
        }
    }

    /// JR cond, e.
    pub fn jr(&mut self, emulator: &mut Emulator, cond: JumpCond)
        requires
            old(emulator)@.can_spend(8),
        ensures
            machine(*final(self), *final(emulator)) == machine(*old(self), *old(emulator)).jr(cond),
            final(emulator)@.cycles <= old(emulator)@.cycles + 8,
            old(emulator).wf() ==> final(emulator).wf(),
    {
        reveal(Machine::jr);
        let offset = widen_offset(self.fetch(emulator));
        if self.cond_met(cond) {
            self.regs.pc = self.regs.pc.wrapping_add(offset);
            emulator.step();
        }
    }

    /// JP cond, jump_to.
    pub fn jp<T: WordSrc>(&mut self, emulator: &mut Emulator, cond: JumpCond, jump_to: T)
        requires
            jump_to.gives_word(),
            old(emulator)@.can_spend(8),
        ensures
            machine(*final(self), *final(emulator)) == machine(*old(self), *old(emulator)).jp(cond, jump_to.word_source()),
            final(emulator)@.cycles <= old(emulator)@.cycles + 8,
            old(emulator).wf() ==> final(emulator).wf(),
    {
        reveal(Machine::jp);
        let new_pc = jump_to.read(self, emulator);
        if self.cond_met(cond) {
            self.regs.pc = new_pc;
            emulator.step();
        }
    }

    /// JP (HL).
    pub fn jp_hl(&mut self, emulator: &mut Emulator)
        requires
            old(emulator)@.can_spend(8),
        ensures
            machine(*final(self), *final(emulator)) == machine(*old(self), *old(emulator)).jp_hl(),
            final(emulator)@.cycles <= old(emulator)@.cycles + 8,
            old(emulator).wf() ==> final(emulator).wf(),
    {
        reveal(Machine::jp_hl);
        self.regs.pc = self.regs.read_pair(Reg16::HL);
    }

    /// RET cond.
    pub fn ret(&mut self, emulator: &mut Emulator, cond: JumpCond)
        requires
            old(emulator)@.can_spend(8),
        ensures
            machine(*final(self), *final(emulator)) == machine(*old(self), *old(emulator)).ret(cond),
            final(emulator)@.cycles <= old(emulator)@.cycles + 8,
            old(emulator).wf() ==> final(emulator).wf(),
    {
        reveal(Machine::ret);
        match cond {
            JumpCond::Always => {},
            _ => emulator.step(),
        }
        if self.cond_met(cond) {
            self.pop(emulator, Reg16::PC);
            emulator.step();
        }
    }

    /// RETI.
    pub fn reti(&mut self, emulator: &mut Emulator, cond: JumpCond)
        requires
            old(emulator)@.can_spend(7),
        ensures
            machine(*final(self), *final(emulator)) == machine(*old(self), *old(emulator)).reti(cond),
            final(emulator)@.cycles <= old(emulator)@.cycles + 7,
            old(emulator).wf() ==> final(emulator).wf(),
    {
        reveal(Machine::reti);
        if self.cond_met(cond) {
            self.pop(emulator, Reg16::PC);
            emulator.step();
            self.interrupt_enabled = true;
        }
    }

    /// RST address.
    pub fn rst(&mut self, emulator: &mut Emulator, address: u16)
        requires
            old(emulator)@.can_spend(7),
        ensures
            machine(*final(self), *final(emulator)) == machine(*old(self), *old(emulator)).rst(address),
            final(emulator)@.cycles <= old(emulator)@.cycles + 7,
            old(emulator).wf() ==> final(emulator).wf(),
    {
        reveal(Machine::rst);
        self.push(emulator, Reg16::PC);
        self.regs.pc = address;
    }

    /// DAA.
    pub fn daa(&mut self, emulator: &mut Emulator)
        requires
            old(emulator)@.can_spend(8),
        ensures
            machine(*final(self), *final(emulator)) == machine(*old(self), *old(emulator)).daa(),
            final(emulator)@.cycles <= old(emulator)@.cycles + 8,
            old(emulator).wf() ==> final(emulator).wf(),
    {
        reveal(Machine::daa);
        let sub = self.regs.sub();
        let (a, carry) = adjust_decimal(
            self.regs.a,
            sub,
            self.regs.half_carry(),
            self.regs.carry(),
        );
        self.regs.a = a;
        self.regs.set_flags(a == 0, sub, false, carry);
    }

    /// RLC target.
    pub fn rlc<T: ByteSrc + ByteDest>(&mut self, emulator: &mut Emulator, target: T)
        requires
            target.byte_dest() == target.byte_source(),
            old(emulator)@.can_spend(8),
        ensures
            machine(*final(self), *final(emulator)) == machine(*old(self), *old(emulator)).shift(Shift::Rlc, target.byte_source()),
            final(emulator)@.cycles <= old(emulator)@.cycles + 8,
            old(emulator).wf() ==> final(emulator).wf(),
    {
        reveal(Machine::shift);
        let old_value = target.read(self, emulator);
        proof {
            lemma_rotate_left(old_value);
        }
        let new_value = (old_value << 1) | (old_value >> 7);
        target.write(self, emulator, new_value);

        self.regs.set_flags(new_value == 0, false, false, (old_value & 0x80) != 0);
    }

    /// RRC target.
    pub fn rrc<T: ByteSrc + ByteDest>(&mut self, emulator: &mut Emulator, target: T)
        requires
            target.byte_dest() == target.byte_source(),
            old(emulator)@.can_spend(8),
        ensures
            machine(*final(self), *final(emulator)) == machine(*old(self), *old(emulator)).shift(Shift::Rrc, target.byte_source()),
            final(emulator)@.cycles <= old(emulator)@.cycles + 8,
            old(emulator).wf() ==> final(emulator).wf(),
    {
        reveal(Machine::shift);
        let old_value = target.read(self, emulator);
        proof {
            lemma_rotate_right(old_value);
        }
        let new_value = (old_value >> 1) | (old_value << 7);
        target.write(self, emulator, new_value);

        self.regs.set_flags(new_value == 0, false, false, (old_value & 0x01) != 0);
    }

    /// RL target.
    pub fn rl<T: ByteSrc + ByteDest>(&mut self, emulator: &mut Emulator, target: T)
        requires
            target.byte_dest() == target.byte_source(),
            old(emulator)@.can_spend(8),
        ensures
            machine(*final(self), *final(emulator)) == machine(*old(self), *old(emulator)).shift(Shift::Rl, target.byte_source()),
            final(emulator)@.cycles <= old(emulator)@.cycles + 8,
            old(emulator).wf() ==> final(emulator).wf(),
    {
        reveal(Machine::shift);
        let old_value = target.read(self, emulator);
        proof {
            lemma_shift_left(old_value);
        }
        let mut new_value = old_value << 1;
        if self.regs.carry() {
            new_value = new_value | 0x01;
        }
        target.write(self, emulator, new_value);

        self.regs.set_flags(new_value == 0, false, false, (old_value & 0x80) != 0);
    }

    /// RR target.
    pub fn rr<T: ByteSrc + ByteDest>(&mut self, emulator: &mut Emulator, target: T)
        requires
            target.byte_dest() == target.byte_source(),
            old(emulator)@.can_spend(8),
        ensures
            machine(*final(self), *final(emulator)) == machine(*old(self), *old(emulator)).shift(Shift::Rr, target.byte_source()),
            final(emulator)@.cycles <= old(emulator)@.cycles + 8,
            old(emulator).wf() ==> final(emulator).wf(),
    {
        reveal(Machine::shift);
        let old_value = target.read(self, emulator);
        proof {
            lemma_shift_right(old_value);
        }
        let mut new_value = old_value >> 1;
        if self.regs.carry() {
            new_value = new_value | 0x80;
        }
        target.write(self, emulator, new_value);

        self.regs.set_flags(new_value == 0, false, false, (old_value & 0x01) != 0);
    }

    /// SLA target.
    pub fn sla<T: ByteSrc + ByteDest>(&mut self, emulator: &mut Emulator, target: T)
        requires
            target.byte_dest() == target.byte_source(),
            old(emulator)@.can_spend(8),
        ensures
            machine(*final(self), *final(emulator)) == machine(*old(self), *old(emulator)).shift(Shift::Sla, target.byte_source()),
            final(emulator)@.cycles <= old(emulator)@.cycles + 8,
            old(emulator).wf() ==> final(emulator).wf(),
    {
        reveal(Machine::shift);
        let old_value = target.read(self, emulator);
        proof {
            lemma_shift_left(old_value);
        }
        let new_value = old_value << 1;
        target.write(self, emulator, new_value);

        self.regs.set_flags(new_value == 0, false, false, (old_value & 0x80) != 0);
    }

    /// SRA target.
    pub fn sra<T: ByteSrc + ByteDest>(&mut self, emulator: &mut Emulator, target: T)
        requires
            target.byte_dest() == target.byte_source(),
            old(emulator)@.can_spend(8),
        ensures
            machine(*final(self), *final(emulator)) == machine(*old(self), *old(emulator)).shift(Shift::Sra, target.byte_source()),
            final(emulator)@.cycles <= old(emulator)@.cycles + 8,
            old(emulator).wf() ==> final(emulator).wf(),
    {
        reveal(Machine::shift);
        let old_value = target.read(self, emulator);
        proof {
            lemma_shift_right(old_value);
        }
        let new_value = (old_value & 0x80) | (old_value >> 1);
        target.write(self, emulator, new_value);

        self.regs.set_flags(new_value == 0, false, false, (old_value & 0x01) != 0);
    }

    /// SWAP target.
    pub fn swap<T: ByteSrc + ByteDest>(&mut self, emulator: &mut Emulator, target: T)
        requires
            target.byte_dest() == target.byte_source(),
            old(emulator)@.can_spend(8),
        ensures
            machine(*final(self), *final(emulator)) == machine(*old(self), *old(emulator)).shift(Shift::Swap, target.byte_source()),
            final(emulator)@.cycles <= old(emulator)@.cycles + 8,
            old(emulator).wf() ==> final(emulator).wf(),
    {
        reveal(Machine::shift);
        let old_value = target.read(self, emulator);
        proof {
            lemma_swap(old_value);
        }
        let new_value = ((old_value & 0x0F) << 4) | (old_value >> 4);
        target.write(self, emulator, new_value);

        self.regs.set_flags(new_value == 0, false, false, false);
    }

    /// SRL target.
    pub fn srl<T: ByteSrc + ByteDest>(&mut self, emulator: &mut Emulator, target: T)
        requires
            target.byte_dest() == target.byte_source(),
            old(emulator)@.can_spend(8),
        ensures
            machine(*final(self), *final(emulator)) == machine(*old(self), *old(emulator)).shift(Shift::Srl, target.byte_source()),
            final(emulator)@.cycles <= old(emulator)@.cycles + 8,
            old(emulator).wf() ==> final(emulator).wf(),
    {
        reveal(Machine::shift);
        let old_value = target.read(self, emulator);
        proof {
            lemma_shift_right(old_value);
        }
        let new_value = old_value >> 1;
        target.write(self, emulator, new_value);

        self.regs.set_flags(new_value == 0, false, false, (old_value & 0x01) != 0);
    }

    /// BIT bit, src.
    pub fn bit<T: ByteSrc>(&mut self, emulator: &mut Emulator, bit: u8, src: T)
        requires
            bit < 8,
            old(emulator)@.can_spend(8),
        ensures
            machine(*final(self), *final(emulator)) == machine(*old(self), *old(emulator)).bit(bit, src.byte_source()),
            final(emulator)@.cycles <= old(emulator)@.cycles + 8,
            old(emulator).wf() ==> final(emulator).wf(),
    {
        reveal(Machine::bit);
        let n = src.read(self, emulator);
        self.regs.set_zero((n & (1u8 << bit)) == 0);
        self.regs.set_sub(false);
        self.regs.set_half_carry(true);
    }

    /// RES bit, target.
    pub fn res<T: ByteDest + ByteSrc>(&mut self, emulator: &mut Emulator, bit: u8, target: T)
        requires
            bit < 8,
            target.byte_dest() == target.byte_source(),
            old(emulator)@.can_spend(8),
        ensures
            machine(*final(self), *final(emulator)) == machine(*old(self), *old(emulator)).res(bit, target.byte_source()),
            final(emulator)@.cycles <= old(emulator)@.cycles + 8,
            old(emulator).wf() ==> final(emulator).wf(),
    {
        reveal(Machine::res);
        let n = target.read(self, emulator);
        target.write(self, emulator, n & !(1u8 << bit));
    }

    /// SET bit, target.
    pub fn set<T: ByteDest + ByteSrc>(&mut self, emulator: &mut Emulator, bit: u8, target: T)
        requires
            bit < 8,
            target.byte_dest() == target.byte_source(),
            old(emulator)@.can_spend(8),
        ensures
            machine(*final(self), *final(emulator)) == machine(*old(self), *old(emulator)).set(bit, target.byte_source()),
            final(emulator)@.cycles <= old(emulator)@.cycles + 8,
            old(emulator).wf() ==> final(emulator).wf(),
    {
        reveal(Machine::set);
        let n = target.read(self, emulator);
        target.write(self, emulator, n | (1u8 << bit));
    }
}

proof fn lemma_shift_left(x: u8)
    by (bit_vector)
    ensures
        x << 1 == (x * 2) % 256,
        (x << 1) | 0x01u8 == (x * 2) % 256 + 1,
        (x & 0x80 != 0) == (x >= 128),
{
}

proof fn lemma_rotate_left(x: u8)
    by (bit_vector)
    ensures
        (x << 1) | (x >> 7) == (x * 2) % 256 + x / 128,
        (x & 0x80 != 0) == (x >= 128),
{
}

proof fn lemma_shift_right(x: u8)
    by (bit_vector)
    ensures
        x >> 1 == x / 2,
        (x >> 1) | 0x80u8 == x / 2 + 128,
        (x & 0x80) | (x >> 1) == x / 2 + (x / 128) * 128,
        (x & 0x01 != 0) == (x % 2 == 1),
{
}

proof fn lemma_rotate_right(x: u8)
    by (bit_vector)
    ensures
        (x >> 1) | (x << 7) == x / 2 + (x % 2) * 128,
        (x & 0x01 != 0) == (x % 2 == 1),
{
}

proof fn lemma_swap(x: u8)
    by (bit_vector)
    ensures
        ((x & 0x0F) << 4) | (x >> 4) == (x % 16) * 16 + x / 16,
{
}

} // verus!
