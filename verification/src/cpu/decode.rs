//! From opcodes to instructions.
//!
//! An opcode is three fields: the upper two bits choose a block of 64
//! opcodes, and within a block bits 5 to 3 and bits 2 to 0 choose the
//! instruction and its operands. [`Machine::execute`] reads an opcode that
//! way; [`Cpu::decode`] looks it up in a table, and is proved to run the
//! instruction that the three fields stand for.

use vstd::prelude::*;
use crate::bits::wrap16;
use crate::cpu::alu::Shift;
use crate::cpu::operands::{Addr, ByteOperand, ImmediateByte, ImmediateWord, WordOperand};
use crate::cpu::registers::{Reg16, Reg8};
use crate::cpu::{machine, Cpu, Fault, Machine};
use crate::emulator::Emulator;

verus! {

/// When a jump, call or return is taken.
#[derive(Debug, Clone, Copy, PartialEq, Eq, Structural)]
pub enum JumpCond {
    Always,
    Zero,
    NotZero,
    Carry,
    NotCarry,
}

/// The byte operand that a three-bit field names: B, C, D, E, H, L, the
/// byte at the address in HL, A.
pub open spec fn operand_of(field: int) -> ByteOperand {
    if field == 0 {
        ByteOperand::Register(Reg8::B)
    } else if field == 1 {
        ByteOperand::Register(Reg8::C)
    } else if field == 2 {
        ByteOperand::Register(Reg8::D)
    } else if field == 3 {
        ByteOperand::Register(Reg8::E)
    } else if field == 4 {
        ByteOperand::Register(Reg8::H)
    } else if field == 5 {
        ByteOperand::Register(Reg8::L)
    } else if field == 6 {
        ByteOperand::Memory(Addr::HL)
    } else {
        ByteOperand::Register(Reg8::A)
    }
}

/// The register pair that a two-bit field names in arithmetic and loads:
/// BC, DE, HL, SP.
pub open spec fn pair_of(field: int) -> Reg16 {
    if field == 0 {
        Reg16::BC
    } else if field == 1 {
        Reg16::DE
    } else if field == 2 {
        Reg16::HL
    } else {
        Reg16::SP
    }
}

/// The register pair that a two-bit field names in PUSH and POP: BC, DE,
/// HL, AF.
pub open spec fn stack_pair_of(field: int) -> Reg16 {
    if field == 3 {
        Reg16::AF
    } else {
        pair_of(field)
    }
}

/// The condition that a two-bit field names: not zero, zero, no carry,
/// carry.
pub open spec fn condition_of(field: int) -> JumpCond {
    if field == 0 {
        JumpCond::NotZero
    } else if field == 1 {
        JumpCond::Zero
    } else if field == 2 {
        JumpCond::NotCarry
    } else {
        JumpCond::Carry
    }
}

/// The shift or rotation that a three-bit field names.
pub open spec fn shift_of(field: int) -> Shift {
    if field == 0 {
        Shift::Rlc
    } else if field == 1 {
        Shift::Rrc
    } else if field == 2 {
        Shift::Rl
    } else if field == 3 {
        Shift::Rr
    } else if field == 4 {
        Shift::Sla
    } else if field == 5 {
        Shift::Sra
    } else if field == 6 {
        Shift::Swap
    } else {
        Shift::Srl
    }
}

/// Whether an opcode stands for no instruction.
pub open spec fn is_illegal(opcode: u8) -> bool {
    ||| opcode == 0xD3
    ||| opcode == 0xDB
    ||| opcode == 0xDD
    ||| opcode == 0xE3
    ||| opcode == 0xE4
    ||| opcode == 0xEB
    ||| opcode == 0xEC
    ||| opcode == 0xED
    ||| opcode == 0xF4
    ||| opcode == 0xFC
    ||| opcode == 0xFD
}

/// The fault that an opcode ends in, if it does: an opcode that stands for
/// no instruction, and STOP.
pub open spec fn fault_of(opcode: u8) -> Option<Fault> {
    if is_illegal(opcode) {
        Some(Fault::IllegalOpcode(opcode))
    } else if opcode == 0x10 {
        Some(Fault::Stop)
    } else {
        None
    }
}

/// What running an opcode hands back.
pub open spec fn outcome_of(opcode: u8) -> Result<(), Fault> {
    match fault_of(opcode) {
        Some(fault) => Err(fault),
        None => Ok(()),
    }
}

impl Machine {
    /// The machine with another opcode on record as the one fetched last.
    pub open spec fn with_opcode(self, opcode: u8) -> Machine {
        Machine { cpu: Cpu { opcode, ..self.cpu }, ..self }
    }

    /// One of the eight operations on the accumulator: ADD, ADC, SUB, SBC,
    /// AND, XOR, OR, CP.
    #[verifier::opaque]
    pub open spec fn accumulate(self, kind: int, src: ByteOperand) -> Machine {
        if kind == 0 {
            self.add(src)
        } else if kind == 1 {
            self.adc(src)
        } else if kind == 2 {
            self.sub(src)
        } else if kind == 3 {
            self.sbc(src)
        } else if kind == 4 {
            self.and(src)
        } else if kind == 5 {
            self.xor(src)
        } else if kind == 6 {
            self.or(src)
        } else {
            self.cp(src)
        }
    }

    /// A load between the accumulator and the byte at the address in BC,
    /// in DE, or in HL; the two loads through HL move HL up or down by one
    /// afterwards.
    #[verifier::opaque]
    pub open spec fn load_indirect(self, pair: int, to_accumulator: bool) -> Machine {
        let addr = if pair == 0 {
            Addr::BC
        } else if pair == 1 {
            Addr::DE
        } else {
            Addr::HL
        };
        let loaded = if to_accumulator {
            self.load(ByteOperand::Register(Reg8::A), ByteOperand::Memory(addr))
        } else {
            self.load(ByteOperand::Memory(addr), ByteOperand::Register(Reg8::A))
        };
        let hl = loaded.cpu.regs.pair(Reg16::HL);
        if pair == 2 {
            loaded.with_regs(loaded.cpu.regs.with_pair(Reg16::HL, wrap16(hl + 1)))
        } else if pair == 3 {
            loaded.with_regs(loaded.cpu.regs.with_pair(Reg16::HL, wrap16(hl - 1)))
        } else {
            loaded
        }
    }

    /// The opcodes 0x00 to 0x3F.
    #[verifier::opaque]
    pub open spec fn execute_block0(self, y: int, z: int) -> Machine {
        let p = y / 2;
        let q = y % 2;
        if z == 0 {
            if y == 0 {
                self
            } else if y == 1 {
                self.load16(WordOperand::Memory(Addr::Immediate), WordOperand::Register(Reg16::SP))
            } else if y == 2 {
                self
            } else if y == 3 {
                self.jr(JumpCond::Always)
            } else {
                self.jr(condition_of(y - 4))
            }
        } else if z == 1 {
            if q == 0 {
                self.load16(WordOperand::Register(pair_of(p)), WordOperand::Immediate)
            } else {
                self.add16hl(pair_of(p))
            }
        } else if z == 2 {
            self.load_indirect(p, q == 1)
        } else if z == 3 {
            if q == 0 {
                self.inc16(WordOperand::Register(pair_of(p)))
            } else {
                self.dec16(WordOperand::Register(pair_of(p)))
            }
        } else if z == 4 {
            self.inc(operand_of(y))
        } else if z == 5 {
            self.dec(operand_of(y))
        } else if z == 6 {
            self.load(operand_of(y), ByteOperand::Immediate)
        } else if y == 0 {
            self.rotate_accumulator(Shift::Rlc)
        } else if y == 1 {
            self.rotate_accumulator(Shift::Rrc)
        } else if y == 2 {
            self.rotate_accumulator(Shift::Rl)
        } else if y == 3 {
            self.rotate_accumulator(Shift::Rr)
        } else if y == 4 {
            self.daa()
        } else if y == 5 {
            self.cpl()
        } else if y == 6 {
            self.scf()
        } else {
            self.ccf()
        }
    }

    /// The opcodes 0xC0 to 0xFF, but for the prefix 0xCB.
    #[verifier::opaque]
    pub open spec fn execute_block3(self, y: int, z: int) -> Machine {
        let p = y / 2;
        let q = y % 2;
        let a = ByteOperand::Register(Reg8::A);
        if z == 0 {
            if y < 4 {
                self.ret(condition_of(y))
            } else if y == 4 {
                self.load(ByteOperand::Memory(Addr::LDH), a)
            } else if y == 5 {
                self.add16_sp_n()
            } else if y == 6 {
                self.load(a, ByteOperand::Memory(Addr::LDH))
            } else {
                self.load16_hlsp_n()
            }
        } else if z == 1 {
            if q == 0 {
                self.pop(WordOperand::Register(stack_pair_of(p)))
            } else if p == 0 {
                self.ret(JumpCond::Always)
            } else if p == 1 {
                self.reti(JumpCond::Always)
            } else if p == 2 {
                self.jp_hl()
            } else {
                self.load16_sphl()
            }
        } else if z == 2 {
            if y < 4 {
                self.jp(condition_of(y), WordOperand::Immediate)
            } else if y == 4 {
                self.load(ByteOperand::Memory(Addr::LDHC), a)
            } else if y == 5 {
                self.load(ByteOperand::Memory(Addr::Immediate), a)
            } else if y == 6 {
                self.load(a, ByteOperand::Memory(Addr::LDHC))
            } else {
                self.load(a, ByteOperand::Memory(Addr::Immediate))
            }
        } else if z == 3 {
            if y == 0 {
                self.jp(JumpCond::Always, WordOperand::Immediate)
            } else if y == 6 {
                self.di()
            } else if y == 7 {
                self.ei()
            } else {
                self
            }
        } else if z == 4 {
            if y < 4 {
                self.call(condition_of(y))
            } else {
                self
            }
        } else if z == 5 {
            if q == 0 {
                self.push(WordOperand::Register(stack_pair_of(p)))
            } else if p == 0 {
                self.call(JumpCond::Always)
            } else {
                self
            }
        } else if z == 6 {
            self.accumulate(y, ByteOperand::Immediate)
        } else {
            self.rst((y * 8) as u16)
        }
    }

    /// The machine after the instruction that the second byte of a prefixed
    /// opcode stands for: a shift or rotation, BIT, RES or SET, on the
    /// operand that the lowest three bits name.
    #[verifier::opaque]
    pub open spec fn execute_prefixed(self, opcode: u8) -> Machine {
        let x = opcode / 64;
        let y = (opcode / 8) % 8;
        let target = operand_of((opcode % 8) as int);
        if x == 0 {
            self.shift(shift_of(y as int), target)
        } else if x == 1 {
            self.bit(y as u8, target)
        } else if x == 2 {
            self.res(y as u8, target)
        } else {
            self.set(y as u8, target)
        }
    }

    /// The machine after the instruction that `opcode` stands for. The
    /// opcode itself has been fetched; what follows it has not. An opcode
    /// that ends in a fault leaves the machine as it is.
    #[verifier::opaque]
    pub open spec fn execute(self, opcode: u8) -> Machine {
        let x = opcode / 64;
        let y = (opcode / 8) % 8;
        let z = opcode % 8;
        if fault_of(opcode) is Some {
            self
        } else if opcode == 0xCB {
            let (second, next) = self.fetch();
            next.with_opcode(second).execute_prefixed(second)
        } else if opcode == 0x76 {
            self.halt()
        } else if x == 0 {
            self.execute_block0(y as int, z as int)
        } else if x == 1 {
            self.load(operand_of(y as int), operand_of(z as int))
        } else if x == 2 {
            self.accumulate(y as int, operand_of(z as int))
        } else {
            self.execute_block3(y as int, z as int)
        }
    }
}

impl Cpu {
    /// Runs the instruction that the opcode fetched last stands for. An
    /// opcode that stands for no instruction, and STOP, end in a fault and
    /// change nothing.
    pub fn decode(&mut self, emulator: &mut Emulator) -> (result: Result<(), Fault>)
        requires
            old(emulator)@.can_spend(10),
        ensures
            result == outcome_of(old(self).opcode),
            machine(*final(self), *final(emulator)) == machine(*old(self), *old(emulator)).execute(
                old(self).opcode,
            ),
            final(emulator)@.cycles <= old(emulator)@.cycles + 10,
            old(emulator).wf() ==> final(emulator).wf(),
    {
        match self.opcode {
            0x00..=0x0F => self.decode_0x(emulator),
            0x10..=0x1F => self.decode_1x(emulator),
            0x20..=0x2F => self.decode_2x(emulator),
            0x30..=0x3F => self.decode_3x(emulator),
            0x40..=0x4F => self.decode_4x(emulator),
            0x50..=0x5F => self.decode_5x(emulator),
            0x60..=0x6F => self.decode_6x(emulator),
            0x70..=0x7F => self.decode_7x(emulator),
            0x80..=0x8F => self.decode_8x(emulator),
            0x90..=0x9F => self.decode_9x(emulator),
            0xA0..=0xAF => self.decode_ax(emulator),
            0xB0..=0xBF => self.decode_bx(emulator),
            0xC0..=0xCF => self.decode_cx(emulator),
            0xD0..=0xDF => self.decode_dx(emulator),
            0xE0..=0xEF => self.decode_ex(emulator),
            0xF0..=0xFF => self.decode_fx(emulator),
        }
    }

    /// Runs the instruction that the second byte of a prefixed opcode, which
    /// was fetched last, stands for.
    pub fn prefixed_decode(&mut self, emulator: &mut Emulator)
        requires
            old(emulator)@.can_spend(8),
        ensures
            machine(*final(self), *final(emulator)) == machine(
                *old(self),
                *old(emulator),
            ).execute_prefixed(old(self).opcode),
            final(emulator)@.cycles <= old(emulator)@.cycles + 8,
            old(emulator).wf() ==> final(emulator).wf(),
    {
        match self.opcode {
            0x00..=0x0F => self.prefixed_0x(emulator),
            0x10..=0x1F => self.prefixed_1x(emulator),
            0x20..=0x2F => self.prefixed_2x(emulator),
            0x30..=0x3F => self.prefixed_3x(emulator),
            0x40..=0x4F => self.prefixed_4x(emulator),
            0x50..=0x5F => self.prefixed_5x(emulator),
            0x60..=0x6F => self.prefixed_6x(emulator),
            0x70..=0x7F => self.prefixed_7x(emulator),
            0x80..=0x8F => self.prefixed_8x(emulator),
            0x90..=0x9F => self.prefixed_9x(emulator),
            0xA0..=0xAF => self.prefixed_ax(emulator),
            0xB0..=0xBF => self.prefixed_bx(emulator),
            0xC0..=0xCF => self.prefixed_cx(emulator),
            0xD0..=0xDF => self.prefixed_dx(emulator),
            0xE0..=0xEF => self.prefixed_ex(emulator),
            0xF0..=0xFF => self.prefixed_fx(emulator),
        }
    }

    /// The opcodes 0x00 to 0x0f.
    #[verifier::rlimit(50)]
    fn decode_0x(&mut self, emulator: &mut Emulator) -> (result: Result<(), Fault>)
        requires
            old(emulator)@.can_spend(10),
            0x00 <= old(self).opcode <= 0x0f,
        ensures
            result == outcome_of(old(self).opcode),
            machine(*final(self), *final(emulator)) == machine(*old(self), *old(emulator)).execute(
                old(self).opcode,
            ),
            final(emulator)@.cycles <= old(emulator)@.cycles + 10,
            old(emulator).wf() ==> final(emulator).wf(),
    {
        reveal(Machine::execute);
        reveal(Machine::execute_block0);
        reveal(Machine::load_indirect);
        match self.opcode {
            0x00 => (),
            0x01 => self.load16(emulator, Reg16::BC, ImmediateWord),
            0x02 => self.load(emulator, Addr::BC, Reg8::A),
            0x03 => self.inc16(emulator, Reg16::BC),
            0x04 => self.inc(emulator, Reg8::B),
            0x05 => self.dec(emulator, Reg8::B),
            0x06 => self.load(emulator, Reg8::B, ImmediateByte),
            0x07 => self.rlca(emulator),
            0x08 => self.load16(emulator, Addr::Immediate, Reg16::SP),
            0x09 => self.add16hl(emulator, Reg16::BC),
            0x0A => self.load(emulator, Reg8::A, Addr::BC),
            0x0B => self.dec16(emulator, Reg16::BC),
            0x0C => self.inc(emulator, Reg8::C),
            0x0D => self.dec(emulator, Reg8::C),
            0x0E => self.load(emulator, Reg8::C, ImmediateByte),
            0x0F => self.rrca(emulator),
            _ => (),
        }
        Ok(())
    }

    /// The opcodes 0x10 to 0x1f.
    #[verifier::rlimit(50)]
    fn decode_1x(&mut self, emulator: &mut Emulator) -> (result: Result<(), Fault>)
        requires
            old(emulator)@.can_spend(10),
            0x10 <= old(self).opcode <= 0x1f,
        ensures
            result == outcome_of(old(self).opcode),
            machine(*final(self), *final(emulator)) == machine(*old(self), *old(emulator)).execute(
                old(self).opcode,
            ),
            final(emulator)@.cycles <= old(emulator)@.cycles + 10,
            old(emulator).wf() ==> final(emulator).wf(),
    {
        reveal(Machine::execute);
        reveal(Machine::execute_block0);
        reveal(Machine::load_indirect);
        match self.opcode {
            0x10 => {
                return self.stop(emulator);
            },
            0x11 => self.load16(emulator, Reg16::DE, ImmediateWord),
            0x12 => self.load(emulator, Addr::DE, Reg8::A),
            0x13 => self.inc16(emulator, Reg16::DE),
            0x14 => self.inc(emulator, Reg8::D),
            0x15 => self.dec(emulator, Reg8::D),
            0x16 => self.load(emulator, Reg8::D, ImmediateByte),
            0x17 => self.rla(emulator),
            0x18 => self.jr(emulator, JumpCond::Always),
            0x19 => self.add16hl(emulator, Reg16::DE),
            0x1A => self.load(emulator, Reg8::A, Addr::DE),
            0x1B => self.dec16(emulator, Reg16::DE),
            0x1C => self.inc(emulator, Reg8::E),
            0x1D => self.dec(emulator, Reg8::E),
            0x1E => self.load(emulator, Reg8::E, ImmediateByte),
            0x1F => self.rra(emulator),
            _ => (),
        }
        Ok(())
    }

    /// The opcodes 0x20 to 0x2f.
    #[verifier::rlimit(50)]
    fn decode_2x(&mut self, emulator: &mut Emulator) -> (result: Result<(), Fault>)
        requires
            old(emulator)@.can_spend(10),
            0x20 <= old(self).opcode <= 0x2f,
        ensures
            result == outcome_of(old(self).opcode),
            machine(*final(self), *final(emulator)) == machine(*old(self), *old(emulator)).execute(
                old(self).opcode,
            ),
            final(emulator)@.cycles <= old(emulator)@.cycles + 10,
            old(emulator).wf() ==> final(emulator).wf(),
    {
        reveal(Machine::execute);
        reveal(Machine::execute_block0);
        reveal(Machine::load_indirect);
        match self.opcode {
            0x20 => self.jr(emulator, JumpCond::NotZero),
            0x21 => self.load16(emulator, Reg16::HL, ImmediateWord),
            0x22 => {
                self.load(emulator, Addr::HL, Reg8::A);
                let hl = self.regs.read_pair(Reg16::HL);
                self.regs.write_pair(Reg16::HL, hl.wrapping_add(1));
            },
            0x23 => self.inc16(emulator, Reg16::HL),
            0x24 => self.inc(emulator, Reg8::H),
            0x25 => self.dec(emulator, Reg8::H),
            0x26 => self.load(emulator, Reg8::H, ImmediateByte),
            0x27 => self.daa(emulator),
            0x28 => self.jr(emulator, JumpCond::Zero),
            0x29 => self.add16hl(emulator, Reg16::HL),
            0x2A => {
                self.load(emulator, Reg8::A, Addr::HL);
                let hl = self.regs.read_pair(Reg16::HL);
                self.regs.write_pair(Reg16::HL, hl.wrapping_add(1));
            },
            0x2B => self.dec16(emulator, Reg16::HL),
            0x2C => self.inc(emulator, Reg8::L),
            0x2D => self.dec(emulator, Reg8::L),
            0x2E => self.load(emulator, Reg8::L, ImmediateByte),
            0x2F => self.cpl(emulator),
            _ => (),
        }
        Ok(())
    }

    /// The opcodes 0x30 to 0x3f.
    #[verifier::rlimit(50)]
    fn decode_3x(&mut self, emulator: &mut Emulator) -> (result: Result<(), Fault>)
        requires
            old(emulator)@.can_spend(10),
            0x30 <= old(self).opcode <= 0x3f,
        ensures
            result == outcome_of(old(self).opcode),
            machine(*final(self), *final(emulator)) == machine(*old(self), *old(emulator)).execute(
                old(self).opcode,
            ),
            final(emulator)@.cycles <= old(emulator)@.cycles + 10,
            old(emulator).wf() ==> final(emulator).wf(),
    {
        reveal(Machine::execute);
        reveal(Machine::execute_block0);
        reveal(Machine::load_indirect);
        match self.opcode {
            0x30 => self.jr(emulator, JumpCond::NotCarry),
            0x31 => self.load16(emulator, Reg16::SP, ImmediateWord),
            0x32 => {
                self.load(emulator, Addr::HL, Reg8::A);
                let hl = self.regs.read_pair(Reg16::HL);
                self.regs.write_pair(Reg16::HL, hl.wrapping_sub(1));
            },
            0x33 => self.inc16(emulator, Reg16::SP),
            0x34 => self.inc(emulator, Addr::HL),
            0x35 => self.dec(emulator, Addr::HL),
            0x36 => self.load(emulator, Addr::HL, ImmediateByte),
            0x37 => self.scf(emulator),
            0x38 => self.jr(emulator, JumpCond::Carry),
            0x39 => self.add16hl(emulator, Reg16::SP),
            0x3A => {
                self.load(emulator, Reg8::A, Addr::HL);
                let hl = self.regs.read_pair(Reg16::HL);
                self.regs.write_pair(Reg16::HL, hl.wrapping_sub(1));
            },
            0x3B => self.dec16(emulator, Reg16::SP),
            0x3C => self.inc(emulator, Reg8::A),
            0x3D => self.dec(emulator, Reg8::A),
            0x3E => self.load(emulator, Reg8::A, ImmediateByte),
            0x3F => self.ccf(emulator),
            _ => (),
        }
        Ok(())
    }

    /// The opcodes 0x40 to 0x4f.
    #[verifier::rlimit(50)]
    fn decode_4x(&mut self, emulator: &mut Emulator) -> (result: Result<(), Fault>)
        requires
            old(emulator)@.can_spend(10),
            0x40 <= old(self).opcode <= 0x4f,
        ensures
            result == outcome_of(old(self).opcode),
            machine(*final(self), *final(emulator)) == machine(*old(self), *old(emulator)).execute(
                old(self).opcode,
            ),
            final(emulator)@.cycles <= old(emulator)@.cycles + 10,
            old(emulator).wf() ==> final(emulator).wf(),
    {
        reveal(Machine::execute);
        match self.opcode {
            0x40 => self.load(emulator, Reg8::B, Reg8::B),
            0x41 => self.load(emulator, Reg8::B, Reg8::C),
            0x42 => self.load(emulator, Reg8::B, Reg8::D),
            0x43 => self.load(emulator, Reg8::B, Reg8::E),
            0x44 => self.load(emulator, Reg8::B, Reg8::H),
            0x45 => self.load(emulator, Reg8::B, Reg8::L),
            0x46 => self.load(emulator, Reg8::B, Addr::HL),
            0x47 => self.load(emulator, Reg8::B, Reg8::A),
            0x48 => self.load(emulator, Reg8::C, Reg8::B),
            0x49 => self.load(emulator, Reg8::C, Reg8::C),
            0x4A => self.load(emulator, Reg8::C, Reg8::D),
            0x4B => self.load(emulator, Reg8::C, Reg8::E),
            0x4C => self.load(emulator, Reg8::C, Reg8::H),
            0x4D => self.load(emulator, Reg8::C, Reg8::L),
            0x4E => self.load(emulator, Reg8::C, Addr::HL),
            0x4F => self.load(emulator, Reg8::C, Reg8::A),
            _ => (),
        }
        Ok(())
    }

    /// The opcodes 0x50 to 0x5f.
    #[verifier::rlimit(50)]
    fn decode_5x(&mut self, emulator: &mut Emulator) -> (result: Result<(), Fault>)
        requires
            old(emulator)@.can_spend(10),
            0x50 <= old(self).opcode <= 0x5f,
        ensures
            result == outcome_of(old(self).opcode),
            machine(*final(self), *final(emulator)) == machine(*old(self), *old(emulator)).execute(
                old(self).opcode,
            ),
            final(emulator)@.cycles <= old(emulator)@.cycles + 10,
            old(emulator).wf() ==> final(emulator).wf(),
    {
        reveal(Machine::execute);
        match self.opcode {
            0x50 => self.load(emulator, Reg8::D, Reg8::B),
            0x51 => self.load(emulator, Reg8::D, Reg8::C),
            0x52 => self.load(emulator, Reg8::D, Reg8::D),
            0x53 => self.load(emulator, Reg8::D, Reg8::E),
            0x54 => self.load(emulator, Reg8::D, Reg8::H),
            0x55 => self.load(emulator, Reg8::D, Reg8::L),
            0x56 => self.load(emulator, Reg8::D, Addr::HL),
            0x57 => self.load(emulator, Reg8::D, Reg8::A),
            0x58 => self.load(emulator, Reg8::E, Reg8::B),
            0x59 => self.load(emulator, Reg8::E, Reg8::C),
            0x5A => self.load(emulator, Reg8::E, Reg8::D),
            0x5B => self.load(emulator, Reg8::E, Reg8::E),
            0x5C => self.load(emulator, Reg8::E, Reg8::H),
            0x5D => self.load(emulator, Reg8::E, Reg8::L),
            0x5E => self.load(emulator, Reg8::E, Addr::HL),
            0x5F => self.load(emulator, Reg8::E, Reg8::A),
            _ => (),
        }
        Ok(())
    }

    /// The opcodes 0x60 to 0x6f.
    #[verifier::rlimit(50)]
    fn decode_6x(&mut self, emulator: &mut Emulator) -> (result: Result<(), Fault>)
        requires
            old(emulator)@.can_spend(10),
            0x60 <= old(self).opcode <= 0x6f,
        ensures
            result == outcome_of(old(self).opcode),
            machine(*final(self), *final(emulator)) == machine(*old(self), *old(emulator)).execute(
                old(self).opcode,
            ),
            final(emulator)@.cycles <= old(emulator)@.cycles + 10,
            old(emulator).wf() ==> final(emulator).wf(),
    {
        reveal(Machine::execute);
        match self.opcode {
            0x60 => self.load(emulator, Reg8::H, Reg8::B),
            0x61 => self.load(emulator, Reg8::H, Reg8::C),
            0x62 => self.load(emulator, Reg8::H, Reg8::D),
            0x63 => self.load(emulator, Reg8::H, Reg8::E),
            0x64 => self.load(emulator, Reg8::H, Reg8::H),
            0x65 => self.load(emulator, Reg8::H, Reg8::L),
            0x66 => self.load(emulator, Reg8::H, Addr::HL),
            0x67 => self.load(emulator, Reg8::H, Reg8::A),
            0x68 => self.load(emulator, Reg8::L, Reg8::B),
            0x69 => self.load(emulator, Reg8::L, Reg8::C),
            0x6A => self.load(emulator, Reg8::L, Reg8::D),
            0x6B => self.load(emulator, Reg8::L, Reg8::E),
            0x6C => self.load(emulator, Reg8::L, Reg8::H),
            0x6D => self.load(emulator, Reg8::L, Reg8::L),
            0x6E => self.load(emulator, Reg8::L, Addr::HL),
            0x6F => self.load(emulator, Reg8::L, Reg8::A),
            _ => (),
        }
        Ok(())
    }

    /// The opcodes 0x70 to 0x7f.
    #[verifier::rlimit(50)]
    fn decode_7x(&mut self, emulator: &mut Emulator) -> (result: Result<(), Fault>)
        requires
            old(emulator)@.can_spend(10),
            0x70 <= old(self).opcode <= 0x7f,
        ensures
            result == outcome_of(old(self).opcode),
            machine(*final(self), *final(emulator)) == machine(*old(self), *old(emulator)).execute(
                old(self).opcode,
            ),
            final(emulator)@.cycles <= old(emulator)@.cycles + 10,
            old(emulator).wf() ==> final(emulator).wf(),
    {
        reveal(Machine::execute);
        match self.opcode {
            0x70 => self.load(emulator, Addr::HL, Reg8::B),
            0x71 => self.load(emulator, Addr::HL, Reg8::C),
            0x72 => self.load(emulator, Addr::HL, Reg8::D),
            0x73 => self.load(emulator, Addr::HL, Reg8::E),
            0x74 => self.load(emulator, Addr::HL, Reg8::H),
            0x75 => self.load(emulator, Addr::HL, Reg8::L),
            0x76 => self.halt(emulator),
            0x77 => self.load(emulator, Addr::HL, Reg8::A),
            0x78 => self.load(emulator, Reg8::A, Reg8::B),
            0x79 => self.load(emulator, Reg8::A, Reg8::C),
            0x7A => self.load(emulator, Reg8::A, Reg8::D),
            0x7B => self.load(emulator, Reg8::A, Reg8::E),
            0x7C => self.load(emulator, Reg8::A, Reg8::H),
            0x7D => self.load(emulator, Reg8::A, Reg8::L),
            0x7E => self.load(emulator, Reg8::A, Addr::HL),
            0x7F => self.load(emulator, Reg8::A, Reg8::A),
            _ => (),
        }
        Ok(())
    }

    /// The opcodes 0x80 to 0x8f.
    #[verifier::rlimit(50)]
    fn decode_8x(&mut self, emulator: &mut Emulator) -> (result: Result<(), Fault>)
        requires
            old(emulator)@.can_spend(10),
            0x80 <= old(self).opcode <= 0x8f,
        ensures
            result == outcome_of(old(self).opcode),
            machine(*final(self), *final(emulator)) == machine(*old(self), *old(emulator)).execute(
                old(self).opcode,
            ),
            final(emulator)@.cycles <= old(emulator)@.cycles + 10,
            old(emulator).wf() ==> final(emulator).wf(),
    {
        reveal(Machine::execute);
        reveal(Machine::accumulate);
        match self.opcode {
            0x80 => self.add(emulator, Reg8::B),
            0x81 => self.add(emulator, Reg8::C),
            0x82 => self.add(emulator, Reg8::D),
            0x83 => self.add(emulator, Reg8::E),
            0x84 => self.add(emulator, Reg8::H),
            0x85 => self.add(emulator, Reg8::L),
            0x86 => self.add(emulator, Addr::HL),
            0x87 => self.add(emulator, Reg8::A),
            0x88 => self.adc(emulator, Reg8::B),
            0x89 => self.adc(emulator, Reg8::C),
            0x8A => self.adc(emulator, Reg8::D),
            0x8B => self.adc(emulator, Reg8::E),
            0x8C => self.adc(emulator, Reg8::H),
            0x8D => self.adc(emulator, Reg8::L),
            0x8E => self.adc(emulator, Addr::HL),
            0x8F => self.adc(emulator, Reg8::A),
            _ => (),
        }
        Ok(())
    }

    /// The opcodes 0x90 to 0x9f.
    #[verifier::rlimit(50)]
    fn decode_9x(&mut self, emulator: &mut Emulator) -> (result: Result<(), Fault>)
        requires
            old(emulator)@.can_spend(10),
            0x90 <= old(self).opcode <= 0x9f,
        ensures
            result == outcome_of(old(self).opcode),
            machine(*final(self), *final(emulator)) == machine(*old(self), *old(emulator)).execute(
                old(self).opcode,
            ),
            final(emulator)@.cycles <= old(emulator)@.cycles + 10,
            old(emulator).wf() ==> final(emulator).wf(),
    {
        reveal(Machine::execute);
        reveal(Machine::accumulate);
        match self.opcode {
            0x90 => self.sub(emulator, Reg8::B),
            0x91 => self.sub(emulator, Reg8::C),
            0x92 => self.sub(emulator, Reg8::D),
            0x93 => self.sub(emulator, Reg8::E),
            0x94 => self.sub(emulator, Reg8::H),
            0x95 => self.sub(emulator, Reg8::L),
            0x96 => self.sub(emulator, Addr::HL),
            0x97 => self.sub(emulator, Reg8::A),
            0x98 => self.sbc(emulator, Reg8::B),
            0x99 => self.sbc(emulator, Reg8::C),
            0x9A => self.sbc(emulator, Reg8::D),
            0x9B => self.sbc(emulator, Reg8::E),
            0x9C => self.sbc(emulator, Reg8::H),
            0x9D => self.sbc(emulator, Reg8::L),
            0x9E => self.sbc(emulator, Addr::HL),
            0x9F => self.sbc(emulator, Reg8::A),
            _ => (),
        }
        Ok(())
    }

    /// The opcodes 0xa0 to 0xaf.
    #[verifier::rlimit(50)]
    fn decode_ax(&mut self, emulator: &mut Emulator) -> (result: Result<(), Fault>)
        requires
            old(emulator)@.can_spend(10),
            0xa0 <= old(self).opcode <= 0xaf,
        ensures
            result == outcome_of(old(self).opcode),
            machine(*final(self), *final(emulator)) == machine(*old(self), *old(emulator)).execute(
                old(self).opcode,
            ),
            final(emulator)@.cycles <= old(emulator)@.cycles + 10,
            old(emulator).wf() ==> final(emulator).wf(),
    {
        reveal(Machine::execute);
        reveal(Machine::accumulate);
        match self.opcode {
            0xA0 => self.and(emulator, Reg8::B),
            0xA1 => self.and(emulator, Reg8::C),
            0xA2 => self.and(emulator, Reg8::D),
            0xA3 => self.and(emulator, Reg8::E),
            0xA4 => self.and(emulator, Reg8::H),
            0xA5 => self.and(emulator, Reg8::L),
            0xA6 => self.and(emulator, Addr::HL),
            0xA7 => self.and(emulator, Reg8::A),
            0xA8 => self.xor(emulator, Reg8::B),
            0xA9 => self.xor(emulator, Reg8::C),
            0xAA => self.xor(emulator, Reg8::D),
            0xAB => self.xor(emulator, Reg8::E),
            0xAC => self.xor(emulator, Reg8::H),
            0xAD => self.xor(emulator, Reg8::L),
            0xAE => self.xor(emulator, Addr::HL),
            0xAF => self.xor(emulator, Reg8::A),
            _ => (),
        }
        Ok(())
    }

    /// The opcodes 0xb0 to 0xbf.
    #[verifier::rlimit(50)]
    fn decode_bx(&mut self, emulator: &mut Emulator) -> (result: Result<(), Fault>)
        requires
            old(emulator)@.can_spend(10),
            0xb0 <= old(self).opcode <= 0xbf,
        ensures
            result == outcome_of(old(self).opcode),
            machine(*final(self), *final(emulator)) == machine(*old(self), *old(emulator)).execute(
                old(self).opcode,
            ),
            final(emulator)@.cycles <= old(emulator)@.cycles + 10,
            old(emulator).wf() ==> final(emulator).wf(),
    {
        reveal(Machine::execute);
        reveal(Machine::accumulate);
        match self.opcode {
            0xB0 => self.or(emulator, Reg8::B),
            0xB1 => self.or(emulator, Reg8::C),
            0xB2 => self.or(emulator, Reg8::D),
            0xB3 => self.or(emulator, Reg8::E),
            0xB4 => self.or(emulator, Reg8::H),
            0xB5 => self.or(emulator, Reg8::L),
            0xB6 => self.or(emulator, Addr::HL),
            0xB7 => self.or(emulator, Reg8::A),
            0xB8 => self.cp(emulator, Reg8::B),
            0xB9 => self.cp(emulator, Reg8::C),
            0xBA => self.cp(emulator, Reg8::D),
            0xBB => self.cp(emulator, Reg8::E),
            0xBC => self.cp(emulator, Reg8::H),
            0xBD => self.cp(emulator, Reg8::L),
            0xBE => self.cp(emulator, Addr::HL),
            0xBF => self.cp(emulator, Reg8::A),
            _ => (),
        }
        Ok(())
    }

    /// The opcodes 0xc0 to 0xcf.
    #[verifier::rlimit(50)]
    fn decode_cx(&mut self, emulator: &mut Emulator) -> (result: Result<(), Fault>)
        requires
            old(emulator)@.can_spend(10),
            0xc0 <= old(self).opcode <= 0xcf,
        ensures
            result == outcome_of(old(self).opcode),
            machine(*final(self), *final(emulator)) == machine(*old(self), *old(emulator)).execute(
                old(self).opcode,
            ),
            final(emulator)@.cycles <= old(emulator)@.cycles + 10,
            old(emulator).wf() ==> final(emulator).wf(),
    {
        reveal(Machine::execute);
        reveal(Machine::execute_block3);
        reveal(Machine::accumulate);
        match self.opcode {
            0xC0 => self.ret(emulator, JumpCond::NotZero),
            0xC1 => self.pop(emulator, Reg16::BC),
            0xC2 => self.jp(emulator, JumpCond::NotZero, ImmediateWord),
            0xC3 => self.jp(emulator, JumpCond::Always, ImmediateWord),
            0xC4 => self.call(emulator, JumpCond::NotZero),
            0xC5 => self.push(emulator, Reg16::BC),
            0xC6 => self.add(emulator, ImmediateByte),
            0xC7 => self.rst(emulator, 0x00),
            0xC8 => self.ret(emulator, JumpCond::Zero),
            0xC9 => self.ret(emulator, JumpCond::Always),
            0xCA => self.jp(emulator, JumpCond::Zero, ImmediateWord),
            0xCB => {
                self.opcode = self.fetch(emulator);
                self.prefixed_decode(emulator);
            },
            0xCC => self.call(emulator, JumpCond::Zero),
            0xCD => self.call(emulator, JumpCond::Always),
            0xCE => self.adc(emulator, ImmediateByte),
            0xCF => self.rst(emulator, 0x08),
            _ => (),
        }
        Ok(())
    }

    /// The opcodes 0xd0 to 0xdf.
    #[verifier::rlimit(50)]
    fn decode_dx(&mut self, emulator: &mut Emulator) -> (result: Result<(), Fault>)
        requires
            old(emulator)@.can_spend(10),
            0xd0 <= old(self).opcode <= 0xdf,
        ensures
            result == outcome_of(old(self).opcode),
            machine(*final(self), *final(emulator)) == machine(*old(self), *old(emulator)).execute(
                old(self).opcode,
            ),
            final(emulator)@.cycles <= old(emulator)@.cycles + 10,
            old(emulator).wf() ==> final(emulator).wf(),
    {
        reveal(Machine::execute);
        reveal(Machine::execute_block3);
        reveal(Machine::accumulate);
        match self.opcode {
            0xD0 => self.ret(emulator, JumpCond::NotCarry),
            0xD1 => self.pop(emulator, Reg16::DE),
            0xD2 => self.jp(emulator, JumpCond::NotCarry, ImmediateWord),
            0xD3 => {
                return Err(Fault::IllegalOpcode(self.opcode));
            },
            0xD4 => self.call(emulator, JumpCond::NotCarry),
            0xD5 => self.push(emulator, Reg16::DE),
            0xD6 => self.sub(emulator, ImmediateByte),
            0xD7 => self.rst(emulator, 0x10),
            0xD8 => self.ret(emulator, JumpCond::Carry),
            0xD9 => self.reti(emulator, JumpCond::Always),
            0xDA => self.jp(emulator, JumpCond::Carry, ImmediateWord),
            0xDB => {
                return Err(Fault::IllegalOpcode(self.opcode));
            },
            0xDC => self.call(emulator, JumpCond::Carry),
            0xDD => {
                return Err(Fault::IllegalOpcode(self.opcode));
            },
            0xDE => self.sbc(emulator, ImmediateByte),
            0xDF => self.rst(emulator, 0x18),
            _ => (),
        }
        Ok(())
    }

    /// The opcodes 0xe0 to 0xef.
    #[verifier::rlimit(50)]
    fn decode_ex(&mut self, emulator: &mut Emulator) -> (result: Result<(), Fault>)
        requires
            old(emulator)@.can_spend(10),
            0xe0 <= old(self).opcode <= 0xef,
        ensures
            result == outcome_of(old(self).opcode),
            machine(*final(self), *final(emulator)) == machine(*old(self), *old(emulator)).execute(
                old(self).opcode,
            ),
            final(emulator)@.cycles <= old(emulator)@.cycles + 10,
            old(emulator).wf() ==> final(emulator).wf(),
    {
        reveal(Machine::execute);
        reveal(Machine::execute_block3);
        reveal(Machine::accumulate);
        match self.opcode {
            0xE0 => self.load(emulator, Addr::LDH, Reg8::A),
            0xE1 => self.pop(emulator, Reg16::HL),
            0xE2 => self.load(emulator, Addr::LDHC, Reg8::A),
            0xE3 => {
                return Err(Fault::IllegalOpcode(self.opcode));
            },
            0xE4 => {
                return Err(Fault::IllegalOpcode(self.opcode));
            },
            0xE5 => self.push(emulator, Reg16::HL),
            0xE6 => self.and(emulator, ImmediateByte),
            0xE7 => self.rst(emulator, 0x20),
            0xE8 => self.add16_sp_n(emulator),
            0xE9 => self.jp_hl(emulator),
            0xEA => self.load(emulator, Addr::Immediate, Reg8::A),
            0xEB => {
                return Err(Fault::IllegalOpcode(self.opcode));
            },
            0xEC => {
                return Err(Fault::IllegalOpcode(self.opcode));
            },
            0xED => {
                return Err(Fault::IllegalOpcode(self.opcode));
            },
            0xEE => self.xor(emulator, ImmediateByte),
            0xEF => self.rst(emulator, 0x28),
            _ => (),
        }
        Ok(())
    }

    /// The opcodes 0xf0 to 0xff.
    #[verifier::rlimit(50)]
    fn decode_fx(&mut self, emulator: &mut Emulator) -> (result: Result<(), Fault>)
        requires
            old(emulator)@.can_spend(10),
            0xf0 <= old(self).opcode <= 0xff,
        ensures
            result == outcome_of(old(self).opcode),
            machine(*final(self), *final(emulator)) == machine(*old(self), *old(emulator)).execute(
                old(self).opcode,
            ),
            final(emulator)@.cycles <= old(emulator)@.cycles + 10,
            old(emulator).wf() ==> final(emulator).wf(),
    {
        reveal(Machine::execute);
        reveal(Machine::execute_block3);
        reveal(Machine::accumulate);
        match self.opcode {
            0xF0 => self.load(emulator, Reg8::A, Addr::LDH),
            0xF1 => self.pop(emulator, Reg16::AF),
            0xF2 => self.load(emulator, Reg8::A, Addr::LDHC),
            0xF3 => self.di(emulator),
            0xF4 => {
                return Err(Fault::IllegalOpcode(self.opcode));
            },
            0xF5 => self.push(emulator, Reg16::AF),
            0xF6 => self.or(emulator, ImmediateByte),
            0xF7 => self.rst(emulator, 0x30),
            0xF8 => self.load16_hlsp_n(emulator),
            0xF9 => self.load16_sphl(emulator),
            0xFA => self.load(emulator, Reg8::A, Addr::Immediate),
            0xFB => self.ei(emulator),
            0xFC => {
                return Err(Fault::IllegalOpcode(self.opcode));
            },
            0xFD => {
                return Err(Fault::IllegalOpcode(self.opcode));
            },
            0xFE => self.cp(emulator, ImmediateByte),
            0xFF => self.rst(emulator, 0x38),
            _ => (),
        }
        Ok(())
    }

    /// The prefixed opcodes 0x00 to 0x0f.
    #[verifier::rlimit(50)]
    fn prefixed_0x(&mut self, emulator: &mut Emulator)
        requires
            old(emulator)@.can_spend(8),
            0x00 <= old(self).opcode <= 0x0f,
        ensures
            machine(*final(self), *final(emulator)) == machine(
                *old(self),
                *old(emulator),
            ).execute_prefixed(old(self).opcode),
            final(emulator)@.cycles <= old(emulator)@.cycles + 8,
            old(emulator).wf() ==> final(emulator).wf(),
    {
        reveal(Machine::execute_prefixed);
        match self.opcode {
            0x00 => self.rlc(emulator, Reg8::B),
            0x01 => self.rlc(emulator, Reg8::C),
            0x02 => self.rlc(emulator, Reg8::D),
            0x03 => self.rlc(emulator, Reg8::E),
            0x04 => self.rlc(emulator, Reg8::H),
            0x05 => self.rlc(emulator, Reg8::L),
            0x06 => self.rlc(emulator, Addr::HL),
            0x07 => self.rlc(emulator, Reg8::A),
            0x08 => self.rrc(emulator, Reg8::B),
            0x09 => self.rrc(emulator, Reg8::C),
            0x0A => self.rrc(emulator, Reg8::D),
            0x0B => self.rrc(emulator, Reg8::E),
            0x0C => self.rrc(emulator, Reg8::H),
            0x0D => self.rrc(emulator, Reg8::L),
            0x0E => self.rrc(emulator, Addr::HL),
            0x0F => self.rrc(emulator, Reg8::A),
            _ => (),
        }
    }

    /// The prefixed opcodes 0x10 to 0x1f.
    #[verifier::rlimit(50)]
    fn prefixed_1x(&mut self, emulator: &mut Emulator)
        requires
            old(emulator)@.can_spend(8),
            0x10 <= old(self).opcode <= 0x1f,
        ensures
            machine(*final(self), *final(emulator)) == machine(
                *old(self),
                *old(emulator),
            ).execute_prefixed(old(self).opcode),
            final(emulator)@.cycles <= old(emulator)@.cycles + 8,
            old(emulator).wf() ==> final(emulator).wf(),
    {
        reveal(Machine::execute_prefixed);
        match self.opcode {
            0x10 => self.rl(emulator, Reg8::B),
            0x11 => self.rl(emulator, Reg8::C),
            0x12 => self.rl(emulator, Reg8::D),
            0x13 => self.rl(emulator, Reg8::E),
            0x14 => self.rl(emulator, Reg8::H),
            0x15 => self.rl(emulator, Reg8::L),
            0x16 => self.rl(emulator, Addr::HL),
            0x17 => self.rl(emulator, Reg8::A),
            0x18 => self.rr(emulator, Reg8::B),
            0x19 => self.rr(emulator, Reg8::C),
            0x1A => self.rr(emulator, Reg8::D),
            0x1B => self.rr(emulator, Reg8::E),
            0x1C => self.rr(emulator, Reg8::H),
            0x1D => self.rr(emulator, Reg8::L),
            0x1E => self.rr(emulator, Addr::HL),
            0x1F => self.rr(emulator, Reg8::A),
            _ => (),
        }
    }

    /// The prefixed opcodes 0x20 to 0x2f.
    #[verifier::rlimit(50)]
    fn prefixed_2x(&mut self, emulator: &mut Emulator)
        requires
            old(emulator)@.can_spend(8),
            0x20 <= old(self).opcode <= 0x2f,
        ensures
            machine(*final(self), *final(emulator)) == machine(
                *old(self),
                *old(emulator),
            ).execute_prefixed(old(self).opcode),
            final(emulator)@.cycles <= old(emulator)@.cycles + 8,
            old(emulator).wf() ==> final(emulator).wf(),
    {
        reveal(Machine::execute_prefixed);
        match self.opcode {
            0x20 => self.sla(emulator, Reg8::B),
            0x21 => self.sla(emulator, Reg8::C),
            0x22 => self.sla(emulator, Reg8::D),
            0x23 => self.sla(emulator, Reg8::E),
            0x24 => self.sla(emulator, Reg8::H),
            0x25 => self.sla(emulator, Reg8::L),
            0x26 => self.sla(emulator, Addr::HL),
            0x27 => self.sla(emulator, Reg8::A),
            0x28 => self.sra(emulator, Reg8::B),
            0x29 => self.sra(emulator, Reg8::C),
            0x2A => self.sra(emulator, Reg8::D),
            0x2B => self.sra(emulator, Reg8::E),
            0x2C => self.sra(emulator, Reg8::H),
            0x2D => self.sra(emulator, Reg8::L),
            0x2E => self.sra(emulator, Addr::HL),
            0x2F => self.sra(emulator, Reg8::A),
            _ => (),
        }
    }

    /// The prefixed opcodes 0x30 to 0x3f.
    #[verifier::rlimit(50)]
    fn prefixed_3x(&mut self, emulator: &mut Emulator)
        requires
            old(emulator)@.can_spend(8),
            0x30 <= old(self).opcode <= 0x3f,
        ensures
            machine(*final(self), *final(emulator)) == machine(
                *old(self),
                *old(emulator),
            ).execute_prefixed(old(self).opcode),
            final(emulator)@.cycles <= old(emulator)@.cycles + 8,
            old(emulator).wf() ==> final(emulator).wf(),
    {
        reveal(Machine::execute_prefixed);
        match self.opcode {
            0x30 => self.swap(emulator, Reg8::B),
            0x31 => self.swap(emulator, Reg8::C),
            0x32 => self.swap(emulator, Reg8::D),
            0x33 => self.swap(emulator, Reg8::E),
            0x34 => self.swap(emulator, Reg8::H),
            0x35 => self.swap(emulator, Reg8::L),
            0x36 => self.swap(emulator, Addr::HL),
            0x37 => self.swap(emulator, Reg8::A),
            0x38 => self.srl(emulator, Reg8::B),
            0x39 => self.srl(emulator, Reg8::C),
            0x3A => self.srl(emulator, Reg8::D),
            0x3B => self.srl(emulator, Reg8::E),
            0x3C => self.srl(emulator, Reg8::H),
            0x3D => self.srl(emulator, Reg8::L),
            0x3E => self.srl(emulator, Addr::HL),
            0x3F => self.srl(emulator, Reg8::A),
            _ => (),
        }
    }

    /// The prefixed opcodes 0x40 to 0x4f.
    #[verifier::rlimit(50)]
    fn prefixed_4x(&mut self, emulator: &mut Emulator)
        requires
            old(emulator)@.can_spend(8),
            0x40 <= old(self).opcode <= 0x4f,
        ensures
            machine(*final(self), *final(emulator)) == machine(
                *old(self),
                *old(emulator),
            ).execute_prefixed(old(self).opcode),
            final(emulator)@.cycles <= old(emulator)@.cycles + 8,
            old(emulator).wf() ==> final(emulator).wf(),
    {
        reveal(Machine::execute_prefixed);
        match self.opcode {
            0x40 => self.bit(emulator, 0, Reg8::B),
            0x41 => self.bit(emulator, 0, Reg8::C),
            0x42 => self.bit(emulator, 0, Reg8::D),
            0x43 => self.bit(emulator, 0, Reg8::E),
            0x44 => self.bit(emulator, 0, Reg8::H),
            0x45 => self.bit(emulator, 0, Reg8::L),
            0x46 => self.bit(emulator, 0, Addr::HL),
            0x47 => self.bit(emulator, 0, Reg8::A),
            0x48 => self.bit(emulator, 1, Reg8::B),
            0x49 => self.bit(emulator, 1, Reg8::C),
            0x4A => self.bit(emulator, 1, Reg8::D),
            0x4B => self.bit(emulator, 1, Reg8::E),
            0x4C => self.bit(emulator, 1, Reg8::H),
            0x4D => self.bit(emulator, 1, Reg8::L),
            0x4E => self.bit(emulator, 1, Addr::HL),
            0x4F => self.bit(emulator, 1, Reg8::A),
            _ => (),
        }
    }

    /// The prefixed opcodes 0x50 to 0x5f.
    #[verifier::rlimit(50)]
    fn prefixed_5x(&mut self, emulator: &mut Emulator)
        requires
            old(emulator)@.can_spend(8),
            0x50 <= old(self).opcode <= 0x5f,
        ensures
            machine(*final(self), *final(emulator)) == machine(
                *old(self),
                *old(emulator),
            ).execute_prefixed(old(self).opcode),
            final(emulator)@.cycles <= old(emulator)@.cycles + 8,
            old(emulator).wf() ==> final(emulator).wf(),
    {
        reveal(Machine::execute_prefixed);
        match self.opcode {
            0x50 => self.bit(emulator, 2, Reg8::B),
            0x51 => self.bit(emulator, 2, Reg8::C),
            0x52 => self.bit(emulator, 2, Reg8::D),
            0x53 => self.bit(emulator, 2, Reg8::E),
            0x54 => self.bit(emulator, 2, Reg8::H),
            0x55 => self.bit(emulator, 2, Reg8::L),
            0x56 => self.bit(emulator, 2, Addr::HL),
            0x57 => self.bit(emulator, 2, Reg8::A),
            0x58 => self.bit(emulator, 3, Reg8::B),
            0x59 => self.bit(emulator, 3, Reg8::C),
            0x5A => self.bit(emulator, 3, Reg8::D),
            0x5B => self.bit(emulator, 3, Reg8::E),
            0x5C => self.bit(emulator, 3, Reg8::H),
            0x5D => self.bit(emulator, 3, Reg8::L),
            0x5E => self.bit(emulator, 3, Addr::HL),
            0x5F => self.bit(emulator, 3, Reg8::A),
            _ => (),
        }
    }

    /// The prefixed opcodes 0x60 to 0x6f.
    #[verifier::rlimit(50)]
    fn prefixed_6x(&mut self, emulator: &mut Emulator)
        requires
            old(emulator)@.can_spend(8),
            0x60 <= old(self).opcode <= 0x6f,
        ensures
            machine(*final(self), *final(emulator)) == machine(
                *old(self),
                *old(emulator),
            ).execute_prefixed(old(self).opcode),
            final(emulator)@.cycles <= old(emulator)@.cycles + 8,
            old(emulator).wf() ==> final(emulator).wf(),
    {
        reveal(Machine::execute_prefixed);
        match self.opcode {
            0x60 => self.bit(emulator, 4, Reg8::B),
            0x61 => self.bit(emulator, 4, Reg8::C),
            0x62 => self.bit(emulator, 4, Reg8::D),
            0x63 => self.bit(emulator, 4, Reg8::E),
            0x64 => self.bit(emulator, 4, Reg8::H),
            0x65 => self.bit(emulator, 4, Reg8::L),
            0x66 => self.bit(emulator, 4, Addr::HL),
            0x67 => self.bit(emulator, 4, Reg8::A),
            0x68 => self.bit(emulator, 5, Reg8::B),
            0x69 => self.bit(emulator, 5, Reg8::C),
            0x6A => self.bit(emulator, 5, Reg8::D),
            0x6B => self.bit(emulator, 5, Reg8::E),
            0x6C => self.bit(emulator, 5, Reg8::H),
            0x6D => self.bit(emulator, 5, Reg8::L),
            0x6E => self.bit(emulator, 5, Addr::HL),
            0x6F => self.bit(emulator, 5, Reg8::A),
            _ => (),
        }
    }

    /// The prefixed opcodes 0x70 to 0x7f.
    #[verifier::rlimit(50)]
    fn prefixed_7x(&mut self, emulator: &mut Emulator)
        requires
            old(emulator)@.can_spend(8),
            0x70 <= old(self).opcode <= 0x7f,
        ensures
            machine(*final(self), *final(emulator)) == machine(
                *old(self),
                *old(emulator),
            ).execute_prefixed(old(self).opcode),
            final(emulator)@.cycles <= old(emulator)@.cycles + 8,
            old(emulator).wf() ==> final(emulator).wf(),
    {
        reveal(Machine::execute_prefixed);
        match self.opcode {
            0x70 => self.bit(emulator, 6, Reg8::B),
            0x71 => self.bit(emulator, 6, Reg8::C),
            0x72 => self.bit(emulator, 6, Reg8::D),
            0x73 => self.bit(emulator, 6, Reg8::E),
            0x74 => self.bit(emulator, 6, Reg8::H),
            0x75 => self.bit(emulator, 6, Reg8::L),
            0x76 => self.bit(emulator, 6, Addr::HL),
            0x77 => self.bit(emulator, 6, Reg8::A),
            0x78 => self.bit(emulator, 7, Reg8::B),
            0x79 => self.bit(emulator, 7, Reg8::C),
            0x7A => self.bit(emulator, 7, Reg8::D),
            0x7B => self.bit(emulator, 7, Reg8::E),
            0x7C => self.bit(emulator, 7, Reg8::H),
            0x7D => self.bit(emulator, 7, Reg8::L),
            0x7E => self.bit(emulator, 7, Addr::HL),
            0x7F => self.bit(emulator, 7, Reg8::A),
            _ => (),
        }
    }

    /// The prefixed opcodes 0x80 to 0x8f.
    #[verifier::rlimit(50)]
    fn prefixed_8x(&mut self, emulator: &mut Emulator)
        requires
            old(emulator)@.can_spend(8),
            0x80 <= old(self).opcode <= 0x8f,
        ensures
            machine(*final(self), *final(emulator)) == machine(
                *old(self),
                *old(emulator),
            ).execute_prefixed(old(self).opcode),
            final(emulator)@.cycles <= old(emulator)@.cycles + 8,
            old(emulator).wf() ==> final(emulator).wf(),
    {
        reveal(Machine::execute_prefixed);
        match self.opcode {
            0x80 => self.res(emulator, 0, Reg8::B),
            0x81 => self.res(emulator, 0, Reg8::C),
            0x82 => self.res(emulator, 0, Reg8::D),
            0x83 => self.res(emulator, 0, Reg8::E),
            0x84 => self.res(emulator, 0, Reg8::H),
            0x85 => self.res(emulator, 0, Reg8::L),
            0x86 => self.res(emulator, 0, Addr::HL),
            0x87 => self.res(emulator, 0, Reg8::A),
            0x88 => self.res(emulator, 1, Reg8::B),
            0x89 => self.res(emulator, 1, Reg8::C),
            0x8A => self.res(emulator, 1, Reg8::D),
            0x8B => self.res(emulator, 1, Reg8::E),
            0x8C => self.res(emulator, 1, Reg8::H),
            0x8D => self.res(emulator, 1, Reg8::L),
            0x8E => self.res(emulator, 1, Addr::HL),
            0x8F => self.res(emulator, 1, Reg8::A),
            _ => (),
        }
    }

    /// The prefixed opcodes 0x90 to 0x9f.
    #[verifier::rlimit(50)]
    fn prefixed_9x(&mut self, emulator: &mut Emulator)
        requires
            old(emulator)@.can_spend(8),
            0x90 <= old(self).opcode <= 0x9f,
        ensures
            machine(*final(self), *final(emulator)) == machine(
                *old(self),
                *old(emulator),
            ).execute_prefixed(old(self).opcode),
            final(emulator)@.cycles <= old(emulator)@.cycles + 8,
            old(emulator).wf() ==> final(emulator).wf(),
    {
        reveal(Machine::execute_prefixed);
        match self.opcode {
            0x90 => self.res(emulator, 2, Reg8::B),
            0x91 => self.res(emulator, 2, Reg8::C),
            0x92 => self.res(emulator, 2, Reg8::D),
            0x93 => self.res(emulator, 2, Reg8::E),
            0x94 => self.res(emulator, 2, Reg8::H),
            0x95 => self.res(emulator, 2, Reg8::L),
            0x96 => self.res(emulator, 2, Addr::HL),
            0x97 => self.res(emulator, 2, Reg8::A),
            0x98 => self.res(emulator, 3, Reg8::B),
            0x99 => self.res(emulator, 3, Reg8::C),
            0x9A => self.res(emulator, 3, Reg8::D),
            0x9B => self.res(emulator, 3, Reg8::E),
            0x9C => self.res(emulator, 3, Reg8::H),
            0x9D => self.res(emulator, 3, Reg8::L),
            0x9E => self.res(emulator, 3, Addr::HL),
            0x9F => self.res(emulator, 3, Reg8::A),
            _ => (),
        }
    }

    /// The prefixed opcodes 0xa0 to 0xaf.
    #[verifier::rlimit(50)]
    fn prefixed_ax(&mut self, emulator: &mut Emulator)
        requires
            old(emulator)@.can_spend(8),
            0xa0 <= old(self).opcode <= 0xaf,
        ensures
            machine(*final(self), *final(emulator)) == machine(
                *old(self),
                *old(emulator),
            ).execute_prefixed(old(self).opcode),
            final(emulator)@.cycles <= old(emulator)@.cycles + 8,
            old(emulator).wf() ==> final(emulator).wf(),
    {
        reveal(Machine::execute_prefixed);
        match self.opcode {
            0xA0 => self.res(emulator, 4, Reg8::B),
            0xA1 => self.res(emulator, 4, Reg8::C),
            0xA2 => self.res(emulator, 4, Reg8::D),
            0xA3 => self.res(emulator, 4, Reg8::E),
            0xA4 => self.res(emulator, 4, Reg8::H),
            0xA5 => self.res(emulator, 4, Reg8::L),
            0xA6 => self.res(emulator, 4, Addr::HL),
            0xA7 => self.res(emulator, 4, Reg8::A),
            0xA8 => self.res(emulator, 5, Reg8::B),
            0xA9 => self.res(emulator, 5, Reg8::C),
            0xAA => self.res(emulator, 5, Reg8::D),
            0xAB => self.res(emulator, 5, Reg8::E),
            0xAC => self.res(emulator, 5, Reg8::H),
            0xAD => self.res(emulator, 5, Reg8::L),
            0xAE => self.res(emulator, 5, Addr::HL),
            0xAF => self.res(emulator, 5, Reg8::A),
            _ => (),
        }
    }

    /// The prefixed opcodes 0xb0 to 0xbf.
    #[verifier::rlimit(50)]
    fn prefixed_bx(&mut self, emulator: &mut Emulator)
        requires
            old(emulator)@.can_spend(8),
            0xb0 <= old(self).opcode <= 0xbf,
        ensures
            machine(*final(self), *final(emulator)) == machine(
                *old(self),
                *old(emulator),
            ).execute_prefixed(old(self).opcode),
            final(emulator)@.cycles <= old(emulator)@.cycles + 8,
            old(emulator).wf() ==> final(emulator).wf(),
    {
        reveal(Machine::execute_prefixed);
        match self.opcode {
            0xB0 => self.res(emulator, 6, Reg8::B),
            0xB1 => self.res(emulator, 6, Reg8::C),
            0xB2 => self.res(emulator, 6, Reg8::D),
            0xB3 => self.res(emulator, 6, Reg8::E),
            0xB4 => self.res(emulator, 6, Reg8::H),
            0xB5 => self.res(emulator, 6, Reg8::L),
            0xB6 => self.res(emulator, 6, Addr::HL),
            0xB7 => self.res(emulator, 6, Reg8::A),
            0xB8 => self.res(emulator, 7, Reg8::B),
            0xB9 => self.res(emulator, 7, Reg8::C),
            0xBA => self.res(emulator, 7, Reg8::D),
            0xBB => self.res(emulator, 7, Reg8::E),
            0xBC => self.res(emulator, 7, Reg8::H),
            0xBD => self.res(emulator, 7, Reg8::L),
            0xBE => self.res(emulator, 7, Addr::HL),
            0xBF => self.res(emulator, 7, Reg8::A),
            _ => (),
        }
    }

    /// The prefixed opcodes 0xc0 to 0xcf.
    #[verifier::rlimit(50)]
    fn prefixed_cx(&mut self, emulator: &mut Emulator)
        requires
            old(emulator)@.can_spend(8),
            0xc0 <= old(self).opcode <= 0xcf,
        ensures
            machine(*final(self), *final(emulator)) == machine(
                *old(self),
                *old(emulator),
            ).execute_prefixed(old(self).opcode),
            final(emulator)@.cycles <= old(emulator)@.cycles + 8,
            old(emulator).wf() ==> final(emulator).wf(),
    {
        reveal(Machine::execute_prefixed);
        match self.opcode {
            0xC0 => self.set(emulator, 0, Reg8::B),
            0xC1 => self.set(emulator, 0, Reg8::C),
            0xC2 => self.set(emulator, 0, Reg8::D),
            0xC3 => self.set(emulator, 0, Reg8::E),
            0xC4 => self.set(emulator, 0, Reg8::H),
            0xC5 => self.set(emulator, 0, Reg8::L),
            0xC6 => self.set(emulator, 0, Addr::HL),
            0xC7 => self.set(emulator, 0, Reg8::A),
            0xC8 => self.set(emulator, 1, Reg8::B),
            0xC9 => self.set(emulator, 1, Reg8::C),
            0xCA => self.set(emulator, 1, Reg8::D),
            0xCB => self.set(emulator, 1, Reg8::E),
            0xCC => self.set(emulator, 1, Reg8::H),
            0xCD => self.set(emulator, 1, Reg8::L),
            0xCE => self.set(emulator, 1, Addr::HL),
            0xCF => self.set(emulator, 1, Reg8::A),
            _ => (),
        }
    }

    /// The prefixed opcodes 0xd0 to 0xdf.
    #[verifier::rlimit(50)]
    fn prefixed_dx(&mut self, emulator: &mut Emulator)
        requires
            old(emulator)@.can_spend(8),
            0xd0 <= old(self).opcode <= 0xdf,
        ensures
            machine(*final(self), *final(emulator)) == machine(
                *old(self),
                *old(emulator),
            ).execute_prefixed(old(self).opcode),
            final(emulator)@.cycles <= old(emulator)@.cycles + 8,
            old(emulator).wf() ==> final(emulator).wf(),
    {
        reveal(Machine::execute_prefixed);
        match self.opcode {
            0xD0 => self.set(emulator, 2, Reg8::B),
            0xD1 => self.set(emulator, 2, Reg8::C),
            0xD2 => self.set(emulator, 2, Reg8::D),
            0xD3 => self.set(emulator, 2, Reg8::E),
            0xD4 => self.set(emulator, 2, Reg8::H),
            0xD5 => self.set(emulator, 2, Reg8::L),
            0xD6 => self.set(emulator, 2, Addr::HL),
            0xD7 => self.set(emulator, 2, Reg8::A),
            0xD8 => self.set(emulator, 3, Reg8::B),
            0xD9 => self.set(emulator, 3, Reg8::C),
            0xDA => self.set(emulator, 3, Reg8::D),
            0xDB => self.set(emulator, 3, Reg8::E),
            0xDC => self.set(emulator, 3, Reg8::H),
            0xDD => self.set(emulator, 3, Reg8::L),
            0xDE => self.set(emulator, 3, Addr::HL),
            0xDF => self.set(emulator, 3, Reg8::A),
            _ => (),
        }
    }

    /// The prefixed opcodes 0xe0 to 0xef.
    #[verifier::rlimit(50)]
    fn prefixed_ex(&mut self, emulator: &mut Emulator)
        requires
            old(emulator)@.can_spend(8),
            0xe0 <= old(self).opcode <= 0xef,
        ensures
            machine(*final(self), *final(emulator)) == machine(
                *old(self),
                *old(emulator),
            ).execute_prefixed(old(self).opcode),
            final(emulator)@.cycles <= old(emulator)@.cycles + 8,
            old(emulator).wf() ==> final(emulator).wf(),
    {
        reveal(Machine::execute_prefixed);
        match self.opcode {
            0xE0 => self.set(emulator, 4, Reg8::B),
            0xE1 => self.set(emulator, 4, Reg8::C),
            0xE2 => self.set(emulator, 4, Reg8::D),
            0xE3 => self.set(emulator, 4, Reg8::E),
            0xE4 => self.set(emulator, 4, Reg8::H),
            0xE5 => self.set(emulator, 4, Reg8::L),
            0xE6 => self.set(emulator, 4, Addr::HL),
            0xE7 => self.set(emulator, 4, Reg8::A),
            0xE8 => self.set(emulator, 5, Reg8::B),
            0xE9 => self.set(emulator, 5, Reg8::C),
            0xEA => self.set(emulator, 5, Reg8::D),
            0xEB => self.set(emulator, 5, Reg8::E),
            0xEC => self.set(emulator, 5, Reg8::H),
            0xED => self.set(emulator, 5, Reg8::L),
            0xEE => self.set(emulator, 5, Addr::HL),
            0xEF => self.set(emulator, 5, Reg8::A),
            _ => (),
        }
    }

    /// The prefixed opcodes 0xf0 to 0xff.
    #[verifier::rlimit(50)]
    fn prefixed_fx(&mut self, emulator: &mut Emulator)
        requires
            old(emulator)@.can_spend(8),
            0xf0 <= old(self).opcode <= 0xff,
        ensures
            machine(*final(self), *final(emulator)) == machine(
                *old(self),
                *old(emulator),
            ).execute_prefixed(old(self).opcode),
            final(emulator)@.cycles <= old(emulator)@.cycles + 8,
            old(emulator).wf() ==> final(emulator).wf(),
    {
        reveal(Machine::execute_prefixed);
        match self.opcode {
            0xF0 => self.set(emulator, 6, Reg8::B),
            0xF1 => self.set(emulator, 6, Reg8::C),
            0xF2 => self.set(emulator, 6, Reg8::D),
            0xF3 => self.set(emulator, 6, Reg8::E),
            0xF4 => self.set(emulator, 6, Reg8::H),
            0xF5 => self.set(emulator, 6, Reg8::L),
            0xF6 => self.set(emulator, 6, Addr::HL),
            0xF7 => self.set(emulator, 6, Reg8::A),
            0xF8 => self.set(emulator, 7, Reg8::B),
            0xF9 => self.set(emulator, 7, Reg8::C),
            0xFA => self.set(emulator, 7, Reg8::D),
            0xFB => self.set(emulator, 7, Reg8::E),
            0xFC => self.set(emulator, 7, Reg8::H),
            0xFD => self.set(emulator, 7, Reg8::L),
            0xFE => self.set(emulator, 7, Addr::HL),
            0xFF => self.set(emulator, 7, Reg8::A),
            _ => (),
        }
    }
}

} // verus!
