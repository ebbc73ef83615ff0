//! The Sharp LR35902 interpreter.
//!
//! The CPU drives the clock of the system: every byte it reads or writes
//! costs one machine cycle, and some instructions spend cycles without
//! touching memory. Contracts speak of the [`Machine`], the CPU together
//! with the system as the CPU sees it.

pub mod alu;
pub mod decode;
pub mod flags;
pub mod instructions;
pub mod semantics;
pub mod operands;
pub mod registers;

use vstd::prelude::*;
use crate::bits::{high_byte, low_byte, make_word, split_word, word_of, wrap16};
use crate::cpu::decode::{fault_of, outcome_of};
use crate::cpu::operands::{ByteOperand, WordOperand};
use crate::cpu::registers::Registers;
use crate::emulator::memory_map::lemma_write_keeps_clock;
use crate::emulator::{Emulator, EmulatorView};
use crate::interrupts::Interrupt;

verus! {

/// The CPU: its registers and the little it remembers besides.
pub struct Cpu {
    pub regs: Registers,
    /// Whether the CPU waits for an interrupt instead of running.
    pub halted: bool,
    /// The interrupt master enable.
    pub interrupt_enabled: bool,
    /// The opcode fetched last.
    pub opcode: u8,
}

/// The CPU and the system it is wired to.
pub struct Machine {
    pub cpu: Cpu,
    pub bus: EmulatorView,
}

/// The machine that a CPU and a system make up.
pub open spec fn machine(cpu: Cpu, emulator: Emulator) -> Machine {
    Machine { cpu, bus: emulator@ }
}

/// Why the engine cannot go on.
#[derive(Debug, Clone, Copy, PartialEq, Eq, Structural)]
pub enum Fault {
    /// The opcode stands for no instruction.
    IllegalOpcode(u8),
    /// The program asked for the low-power mode, which the engine lacks.
    Stop,
}

impl Machine {
    /// The machine after `n` machine cycles in which nothing else happens.
    pub open spec fn tick(self, n: int) -> Machine {
        Machine { bus: self.bus.ticked(n), ..self }
    }

    /// The machine with other registers.
    pub open spec fn with_regs(self, regs: Registers) -> Machine {
        Machine { cpu: Cpu { regs, ..self.cpu }, ..self }
    }

    /// The machine with another program counter.
    pub open spec fn with_pc(self, pc: u16) -> Machine {
        self.with_regs(Registers { pc, ..self.cpu.regs })
    }

    /// The machine with another stack pointer.
    pub open spec fn with_sp(self, sp: u16) -> Machine {
        self.with_regs(Registers { sp, ..self.cpu.regs })
    }

    /// The byte at `address`, and the machine after the CPU has read it.
    pub open spec fn read(self, address: u16) -> (u8, Machine) {
        (self.bus.read_mapped(address), self.tick(1))
    }

    /// The machine after the CPU has written `value` to `address`.
    pub open spec fn write(self, address: u16, value: u8) -> Machine {
        Machine { bus: self.bus.ticked(1).write_mapped(address, value), ..self }
    }

    /// The byte at the program counter, and the machine after the CPU has
    /// read it and moved the program counter on.
    pub open spec fn fetch(self) -> (u8, Machine) {
        let (value, next) = self.read(self.cpu.regs.pc);
        (value, next.with_pc(wrap16(self.cpu.regs.pc + 1)))
    }

    /// The word at the program counter, low byte first, and the machine
    /// after the CPU has fetched its two bytes.
    pub open spec fn fetch_word(self) -> (u16, Machine) {
        let (lo, first) = self.fetch();
        let (hi, second) = first.fetch();
        (word_of(hi, lo), second)
    }

    /// The word at `address`, low byte first, and the machine after the CPU
    /// has read its two bytes.
    pub open spec fn read_word(self, address: u16) -> (u16, Machine) {
        let (lo, first) = self.read(address);
        let (hi, second) = first.read(wrap16(address + 1));
        (word_of(hi, lo), second)
    }

    /// The machine after the CPU has written `value` to `address`: first
    /// the high byte to the address after it, then the low byte.
    pub open spec fn write_word(self, address: u16, value: u16) -> Machine {
        self.write(wrap16(address + 1), high_byte(value)).write(address, low_byte(value))
    }
}

impl Machine {
    /// The machine after the CPU has gone over to the pending interrupt of
    /// highest priority: two machine cycles pass, the request is taken out,
    /// the program counter is pushed, which takes two more, the interrupt
    /// master enable is cleared, and the program goes on at the vector of
    /// the source.
    pub open spec fn serve(self) -> Machine {
        let source = self.bus.interrupts.first_pending();
        let waited = self.tick(2);
        let taken = Machine {
            bus: EmulatorView { interrupts: waited.bus.interrupts.popped(), ..waited.bus },
            ..waited
        };
        let sp = wrap16(self.cpu.regs.sp - 2);
        let pushed = taken.with_sp(sp).write_word(sp, self.cpu.regs.pc);
        let entered = match source {
            Some(s) => pushed.with_pc(s.vector()),
            None => pushed,
        };
        Machine { cpu: Cpu { interrupt_enabled: false, ..entered.cpu }, ..entered }
    }

    /// The machine after the check for interrupts that ends every step. A
    /// pending interrupt wakes a halted CPU whether or not the interrupt
    /// master enable is set, and is served if it is set.
    pub open spec fn interrupts_checked(self) -> Machine {
        if self.bus.interrupts.pending() {
            let woken = Machine { cpu: Cpu { halted: false, ..self.cpu }, ..self };
            if self.cpu.interrupt_enabled {
                woken.serve()
            } else {
                woken
            }
        } else {
            self
        }
    }

    /// The opcode that the next step fetches.
    pub open spec fn next_opcode(self) -> u8 {
        self.bus.read_mapped(self.cpu.regs.pc)
    }

    /// What the next step hands back: a fault if the CPU is running and
    /// the opcode at the program counter ends in one.
    pub open spec fn step_outcome(self) -> Result<(), Fault> {
        if self.cpu.halted {
            Ok(())
        } else {
            outcome_of(self.next_opcode())
        }
    }

    /// The machine after one step. A running CPU fetches an opcode and runs
    /// its instruction; a halted CPU lets one machine cycle pass. Then
    /// interrupts are checked. A step that ends in a fault stops after the
    /// fetch.
    pub open spec fn step(self) -> Machine {
        if self.cpu.halted {
            self.tick(1).interrupts_checked()
        } else {
            let (opcode, fetched) = self.fetch();
            let decoded = fetched.with_opcode(opcode);
            if fault_of(opcode) is Some {
                decoded
            } else {
                decoded.execute(opcode).interrupts_checked()
            }
        }
    }
}

/// Something an instruction can read a byte from.
pub trait ByteSrc {
    /// The operand that this value names.
    spec fn byte_source(&self) -> ByteOperand;

    fn read(&self, cpu: &mut Cpu, emulator: &mut Emulator) -> (value: u8)
        requires
            old(emulator)@.can_spend(3),
        ensures
            value == machine(*old(cpu), *old(emulator)).read8(self.byte_source()).0,
            machine(*final(cpu), *final(emulator)) == machine(*old(cpu), *old(emulator)).read8(
                self.byte_source(),
            ).1,
            final(emulator)@.cycles <= old(emulator)@.cycles + 3,
            old(emulator).wf() ==> final(emulator).wf(),
    ;
}

/// Something an instruction can write a byte to.
pub trait ByteDest {
    /// The operand that this value names.
    spec fn byte_dest(&self) -> ByteOperand;

    fn write(&self, cpu: &mut Cpu, emulator: &mut Emulator, value: u8)
        requires
            old(emulator)@.can_spend(3),
        ensures
            machine(*final(cpu), *final(emulator)) == machine(*old(cpu), *old(emulator)).write8(
                self.byte_dest(),
                value,
            ),
            final(emulator)@.cycles <= old(emulator)@.cycles + 3,
            old(emulator).wf() ==> final(emulator).wf(),
    ;
}

/// Something an instruction can read a word from.
pub trait WordSrc {
    /// The operand that this value names.
    spec fn word_source(&self) -> WordOperand;

    /// Whether an instruction reads a word from this operand.
    spec fn gives_word(&self) -> bool;

    fn read(&self, cpu: &mut Cpu, emulator: &mut Emulator) -> (value: u16)
        requires
            self.gives_word(),
            old(emulator)@.can_spend(4),
        ensures
            value == machine(*old(cpu), *old(emulator)).read16(self.word_source()).0,
            machine(*final(cpu), *final(emulator)) == machine(*old(cpu), *old(emulator)).read16(
                self.word_source(),
            ).1,
            final(emulator)@.cycles <= old(emulator)@.cycles + 4,
            old(emulator).wf() ==> final(emulator).wf(),
    ;
}

/// Something an instruction can write a word to.
pub trait WordDest {
    /// The operand that this value names.
    spec fn word_dest(&self) -> WordOperand;

    /// Whether an instruction writes a word to this operand.
    spec fn takes_word(&self) -> bool;

    fn write(&self, cpu: &mut Cpu, emulator: &mut Emulator, value: u16)
        requires
            self.takes_word(),
            old(emulator)@.can_spend(4),
        ensures
            machine(*final(cpu), *final(emulator)) == machine(*old(cpu), *old(emulator)).write16(
                self.word_dest(),
                value,
            ),
            final(emulator)@.cycles <= old(emulator)@.cycles + 4,
            old(emulator).wf() ==> final(emulator).wf(),
    ;
}

impl Cpu {
    /// The CPU as it is made: every register zero, running, interrupts off.
    pub open spec fn new_spec() -> Cpu {
        Cpu { regs: Registers::new_spec(), halted: false, interrupt_enabled: false, opcode: 0 }
    }

    /// A CPU in its reset state. The boot ROM sets up the rest.
    pub fn new() -> (cpu: Cpu)
        ensures
            cpu == Cpu::new_spec(),
    {
        Cpu { regs: Registers::new(), interrupt_enabled: false, halted: false, opcode: 0x00 }
    }

    /// Goes over to the pending interrupt of highest priority.
    pub fn handle_interrupt(&mut self, emulator: &mut Emulator)
        requires
            old(emulator)@.can_spend(4),
            old(emulator)@.interrupts.pending(),
        ensures
            machine(*final(self), *final(emulator)) == machine(*old(self), *old(emulator)).serve(),
            final(emulator)@.cycles == old(emulator)@.cycles + 4,
            old(emulator).wf() ==> final(emulator).wf(),
    {
        emulator.step();
        emulator.step();
        let interrupt = emulator.pop_interrupt();
        self.regs.sp = self.regs.sp.wrapping_sub(2);
        self.write_word(emulator, self.regs.sp, self.regs.pc);
        match interrupt {
            Some(Interrupt::VBlank) => self.regs.pc = 0x40,
            Some(Interrupt::Lcd) => self.regs.pc = 0x48,
            Some(Interrupt::Timer) => self.regs.pc = 0x50,
            Some(Interrupt::Joypad) => self.regs.pc = 0x60,
            None => {},
        }
        self.interrupt_enabled = false;
    }

    /// Runs one instruction, or lets one machine cycle pass while the CPU
    /// is halted, and then serves a pending interrupt. An opcode that stands
    /// for no instruction, and STOP, end in a fault.
    pub fn step(&mut self, emulator: &mut Emulator) -> (result: Result<(), Fault>)
        requires
            old(emulator)@.can_spend(16),
        ensures
            result == machine(*old(self), *old(emulator)).step_outcome(),
            machine(*final(self), *final(emulator)) == machine(*old(self), *old(emulator)).step(),
            final(emulator)@.cycles <= old(emulator)@.cycles + 16,
            old(emulator).wf() ==> final(emulator).wf(),
    {
        if !self.halted {
            self.opcode = self.fetch(emulator);
            match self.decode(emulator) {
                Err(fault) => {
                    proof {
                        reveal(Machine::execute);
                    }
                    return Err(fault);
                },
                Ok(()) => {},
            }
        } else {
            emulator.step();
        }

        if emulator.interrupt_pending() {
            self.halted = false;
            if self.interrupt_enabled {
                self.handle_interrupt(emulator);
            }
        }
        Ok(())
    }

    /// Fetches the byte at the program counter and moves the program
    /// counter on.
    pub fn fetch(&mut self, emulator: &mut Emulator) -> (value: u8)
        requires
            old(emulator)@.can_spend(1),
        ensures
            value == machine(*old(self), *old(emulator)).fetch().0,
            machine(*final(self), *final(emulator)) == machine(*old(self), *old(emulator)).fetch().1,
            final(emulator)@.cycles == old(emulator)@.cycles + 1,
            old(emulator).wf() ==> final(emulator).wf(),
    {
        let value = self.read_byte(emulator, self.regs.pc);
        self.regs.pc = self.regs.pc.wrapping_add(1);
        value
    }

    /// Fetches the word at the program counter, low byte first, and moves
    /// the program counter on by two.
    pub fn fetch_word(&mut self, emulator: &mut Emulator) -> (value: u16)
        requires
            old(emulator)@.can_spend(2),
        ensures
            value == machine(*old(self), *old(emulator)).fetch_word().0,
            machine(*final(self), *final(emulator)) == machine(
                *old(self),
                *old(emulator),
            ).fetch_word().1,
            final(emulator)@.cycles == old(emulator)@.cycles + 2,
            old(emulator).wf() ==> final(emulator).wf(),
    {
        let lo = self.fetch(emulator);
        let hi = self.fetch(emulator);
        make_word(hi, lo)
    }

    /// Reads a byte, which costs one machine cycle.
    pub fn read_byte(&self, emulator: &mut Emulator, address: u16) -> (value: u8)
        requires
            old(emulator)@.can_spend(1),
        ensures
            value == machine(*self, *old(emulator)).read(address).0,
            machine(*self, *final(emulator)) == machine(*self, *old(emulator)).read(address).1,
            final(emulator)@.cycles == old(emulator)@.cycles + 1,
            old(emulator).wf() ==> final(emulator).wf(),
    {
        emulator.read_cycle(address)
    }

    /// Reads a word, low byte first, which costs two machine cycles.
    pub fn read_word(&self, emulator: &mut Emulator, address: u16) -> (value: u16)
        requires
            old(emulator)@.can_spend(2),
        ensures
            value == machine(*self, *old(emulator)).read_word(address).0,
            machine(*self, *final(emulator)) == machine(*self, *old(emulator)).read_word(
                address,
            ).1,
            final(emulator)@.cycles == old(emulator)@.cycles + 2,
            old(emulator).wf() ==> final(emulator).wf(),
    {
        let lo = self.read_byte(emulator, address);
        let hi = self.read_byte(emulator, address.wrapping_add(1));
        make_word(hi, lo)
    }

    /// Writes a byte, which costs one machine cycle.
    pub fn write_byte(&mut self, emulator: &mut Emulator, address: u16, value: u8)
        requires
            old(emulator)@.can_spend(1),
        ensures
            machine(*final(self), *final(emulator)) == machine(*old(self), *old(emulator)).write(
                address,
                value,
            ),
            final(emulator)@.cycles == old(emulator)@.cycles + 1,
            old(emulator).wf() ==> final(emulator).wf(),
    {
        proof {
            lemma_write_keeps_clock(old(emulator)@.ticked(1), address, value);
        }
        emulator.write_cycle(address, value)
    }

    /// Writes a word, the high byte first, which costs two machine cycles.
    pub fn write_word(&mut self, emulator: &mut Emulator, address: u16, value: u16)
        requires
            old(emulator)@.can_spend(2),
        ensures
            machine(*final(self), *final(emulator)) == machine(
                *old(self),
                *old(emulator),
            ).write_word(address, value),
            final(emulator)@.cycles == old(emulator)@.cycles + 2,
            old(emulator).wf() ==> final(emulator).wf(),
    {
        let (hi, lo) = split_word(value);
        self.write_byte(emulator, address.wrapping_add(1), hi);
        self.write_byte(emulator, address, lo);
    }
}

} // verus!
