//! What an instruction can read and write: registers, the bytes that follow
//! the opcode, and memory at an address that the instruction names.

use vstd::prelude::*;
use crate::bits::wrap16;
use crate::cpu::registers::{Reg16, Reg8};
use crate::cpu::{machine, ByteDest, ByteSrc, Cpu, Machine, WordDest, WordSrc};
use crate::emulator::Emulator;

verus! {

/// The ways in which an instruction names an address.
#[derive(Debug, Clone, Copy, PartialEq, Eq, Structural)]
pub enum Addr {
    /// The address in BC.
    BC,
    /// The address in DE.
    DE,
    /// The address in HL.
    HL,
    /// 0xFF00 plus the byte that follows the opcode.
    LDH,
    /// 0xFF00 plus the register C.
    LDHC,
    /// The word that follows the opcode.
    Immediate,
}

/// The byte that follows the opcode.
#[derive(Debug, Clone, Copy, PartialEq, Eq, Structural)]
pub struct ImmediateByte;

/// The word that follows the opcode.
#[derive(Debug, Clone, Copy, PartialEq, Eq, Structural)]
pub struct ImmediateWord;

/// Where an 8-bit value comes from or goes to.
pub enum ByteOperand {
    Register(Reg8),
    Immediate,
    Memory(Addr),
}

/// Where a 16-bit value comes from or goes to.
pub enum WordOperand {
    Register(Reg16),
    Immediate,
    Memory(Addr),
}

impl Machine {
    /// The address that `addr` names, and the machine after the CPU has
    /// fetched what it had to fetch to know it.
    #[verifier::opaque]
    pub open spec fn resolve(self, addr: Addr) -> (u16, Machine) {
        match addr {
            Addr::BC => (self.cpu.regs.pair(Reg16::BC), self),
            Addr::DE => (self.cpu.regs.pair(Reg16::DE), self),
            Addr::HL => (self.cpu.regs.pair(Reg16::HL), self),
            Addr::LDH => {
                let (offset, next) = self.fetch();
                ((0xFF00 + offset) as u16, next)
            },
            Addr::LDHC => ((0xFF00 + self.cpu.regs.c) as u16, self),
            Addr::Immediate => self.fetch_word(),
        }
    }

    /// The 8-bit value that `operand` stands for, and the machine after
    /// the CPU has read it.
    #[verifier::opaque]
    pub open spec fn read8(self, operand: ByteOperand) -> (u8, Machine) {
        match operand {
            ByteOperand::Register(reg) => (self.cpu.regs.get(reg), self),
            ByteOperand::Immediate => self.fetch(),
            ByteOperand::Memory(addr) => {
                let (address, next) = self.resolve(addr);
                next.read(address)
            },
        }
    }

    /// The machine after the CPU has written `value` to `operand`. Nothing
    /// can be written to the bytes that follow the opcode: the machine
    /// stays as it is.
    #[verifier::opaque]
    pub open spec fn write8(self, operand: ByteOperand, value: u8) -> Machine {
        match operand {
            ByteOperand::Register(reg) => self.with_regs(self.cpu.regs.with(reg, value)),
            ByteOperand::Immediate => self,
            ByteOperand::Memory(addr) => {
                let (address, next) = self.resolve(addr);
                next.write(address, value)
            },
        }
    }

    /// The 16-bit value that `operand` stands for, and the machine after
    /// the CPU has read it.
    #[verifier::opaque]
    pub open spec fn read16(self, operand: WordOperand) -> (u16, Machine) {
        match operand {
            WordOperand::Register(reg) => (self.cpu.regs.pair(reg), self),
            WordOperand::Immediate => self.fetch_word(),
            WordOperand::Memory(addr) => {
                let (address, next) = self.resolve(addr);
                next.read_word(address)
            },
        }
    }

    /// The machine after the CPU has written `value` to `operand`.
    #[verifier::opaque]
    pub open spec fn write16(self, operand: WordOperand, value: u16) -> Machine {
        match operand {
            WordOperand::Register(reg) => self.with_regs(self.cpu.regs.with_pair(reg, value)),
            WordOperand::Immediate => self,
            WordOperand::Memory(addr) => {
                let (address, next) = self.resolve(addr);
                next.write_word(address, value)
            },
        }
    }
}

impl Addr {
    /// Finds the address that this operand names.
    pub fn resolve(&self, cpu: &mut Cpu, emulator: &mut Emulator) -> (address: u16)
        requires
            old(emulator)@.can_spend(2),
        ensures
            address == machine(*old(cpu), *old(emulator)).resolve(*self).0,
            machine(*final(cpu), *final(emulator)) == machine(*old(cpu), *old(emulator)).resolve(
                *self,
            ).1,
            final(emulator)@.cycles <= old(emulator)@.cycles + 2,
            old(emulator).wf() ==> final(emulator).wf(),
    {
        reveal(Machine::resolve);
        match self {
            Addr::HL => cpu.regs.read_pair(Reg16::HL),
            Addr::BC => cpu.regs.read_pair(Reg16::BC),
            Addr::DE => cpu.regs.read_pair(Reg16::DE),
            Addr::LDH => 0xFF00 + cpu.fetch(emulator) as u16,
            Addr::LDHC => 0xFF00 + cpu.regs.c as u16,
            Addr::Immediate => cpu.fetch_word(emulator),
        }
    }
}

impl ByteSrc for Reg8 {
    open spec fn byte_source(&self) -> ByteOperand {
        ByteOperand::Register(*self)
    }

    fn read(&self, cpu: &mut Cpu, emulator: &mut Emulator) -> (value: u8) {
        reveal(Machine::read8);
        cpu.regs.read(*self)
    }
}

impl ByteDest for Reg8 {
    open spec fn byte_dest(&self) -> ByteOperand {
        ByteOperand::Register(*self)
    }

    fn write(&self, cpu: &mut Cpu, emulator: &mut Emulator, value: u8) {
        reveal(Machine::write8);
        cpu.regs.write(*self, value);
    }
}

impl WordSrc for Reg16 {
    open spec fn word_source(&self) -> WordOperand {
        WordOperand::Register(*self)
    }

    open spec fn gives_word(&self) -> bool {
        true
    }

    fn read(&self, cpu: &mut Cpu, emulator: &mut Emulator) -> (value: u16) {
        reveal(Machine::read16);
        cpu.regs.read_pair(*self)
    }
}

impl WordDest for Reg16 {
    open spec fn word_dest(&self) -> WordOperand {
        WordOperand::Register(*self)
    }

    open spec fn takes_word(&self) -> bool {
        true
    }

    fn write(&self, cpu: &mut Cpu, emulator: &mut Emulator, value: u16) {
        reveal(Machine::write16);
        cpu.regs.write_pair(*self, value);
    }
}

impl ByteSrc for ImmediateByte {
    open spec fn byte_source(&self) -> ByteOperand {
        ByteOperand::Immediate
    }

    fn read(&self, cpu: &mut Cpu, emulator: &mut Emulator) -> (value: u8) {
        reveal(Machine::read8);
        cpu.fetch(emulator)
    }
}

impl WordSrc for ImmediateWord {
    open spec fn word_source(&self) -> WordOperand {
        WordOperand::Immediate
    }

    open spec fn gives_word(&self) -> bool {
        true
    }

    fn read(&self, cpu: &mut Cpu, emulator: &mut Emulator) -> (value: u16) {
        reveal(Machine::read16);
        cpu.fetch_word(emulator)
    }
}

impl ByteSrc for Addr {
    open spec fn byte_source(&self) -> ByteOperand {
        ByteOperand::Memory(*self)
    }

    fn read(&self, cpu: &mut Cpu, emulator: &mut Emulator) -> (value: u8) {
        reveal(Machine::read8);
        let address = self.resolve(cpu, emulator);
        cpu.read_byte(emulator, address)
    }
}

impl ByteDest for Addr {
    open spec fn byte_dest(&self) -> ByteOperand {
        ByteOperand::Memory(*self)
    }

    fn write(&self, cpu: &mut Cpu, emulator: &mut Emulator, value: u8) {
        reveal(Machine::write8);
        let address = self.resolve(cpu, emulator);
        cpu.write_byte(emulator, address, value)
    }
}

impl WordSrc for Addr {
    open spec fn word_source(&self) -> WordOperand {
        WordOperand::Memory(*self)
    }

    /// No instruction reads a word through an address in the high page.
    open spec fn gives_word(&self) -> bool {
        *self != Addr::LDH && *self != Addr::LDHC
    }

    fn read(&self, cpu: &mut Cpu, emulator: &mut Emulator) -> (value: u16) {
        reveal(Machine::read16);
        let address = self.resolve(cpu, emulator);
        cpu.read_word(emulator, address)
    }
}

impl WordDest for Addr {
    open spec fn word_dest(&self) -> WordOperand {
        WordOperand::Memory(*self)
    }

    /// The one instruction that stores a word in memory names the address
    /// by the word that follows the opcode.
    open spec fn takes_word(&self) -> bool {
        *self == Addr::Immediate
    }

    fn write(&self, cpu: &mut Cpu, emulator: &mut Emulator, value: u16) {
        reveal(Machine::write16);
        let address = self.resolve(cpu, emulator);
        cpu.write_word(emulator, address, value);
    }
}

} // verus!
