//! The system that the CPU talks to: memories, PPU, timer, joypad and
//! interrupt controller behind one address space, and the clock that counts
//! the machine cycles the CPU has spent.

pub mod memory_map;

use vstd::prelude::*;
use crate::interrupts::{Interrupt, InterruptQueue};
use crate::joypad::{Button, Joypad};
use crate::ppu::{Ppu, PpuView};
use crate::timer::Timer;

verus! {

/// Bytes of boot ROM.
pub const BOOT_ROM_SIZE: usize = 0x100;

/// Bytes of cartridge ROM.
pub const ROM_SIZE: usize = 0x8000;

/// Bytes of cartridge RAM.
pub const CRAM_SIZE: usize = 0x2000;

/// Bytes of work RAM.
pub const WRAM_SIZE: usize = 0x2000;

/// Bytes of high RAM; the last one lies under the interrupt enable register
/// and is never reached.
pub const HRAM_SIZE: usize = 0x80;

/// The system: memories and devices, and the count of machine cycles that
/// the CPU has spent since the devices last caught up.
pub struct Emulator {
    pub cycles: u32,
    pub timer: Timer,
    pub ppu: Ppu,
    pub interrupts: InterruptQueue,
    pub joypad: Joypad,
    pub booted: bool,
    pub boot_rom: [u8; BOOT_ROM_SIZE],
    pub rom: [u8; ROM_SIZE],
    pub cram: [u8; CRAM_SIZE],
    pub wram: [u8; WRAM_SIZE],
    pub hram: [u8; HRAM_SIZE],
    pub serial: Vec<u8>,
}

/// The system as contracts see it.
pub struct EmulatorView {
    /// Machine cycles that the CPU has spent and that the PPU and the timer
    /// have not yet caught up with.
    pub cycles: int,
    pub timer: Timer,
    pub ppu: PpuView,
    pub interrupts: InterruptQueue,
    pub joypad: Joypad,
    /// Whether the boot ROM has been switched off.
    pub booted: bool,
    pub boot_rom: Seq<u8>,
    pub rom: Seq<u8>,
    pub cram: Seq<u8>,
    pub wram: Seq<u8>,
    pub hram: Seq<u8>,
    /// The bytes written to the serial data register that the host has not
    /// yet taken.
    pub serial: Seq<u8>,
}

impl View for Emulator {
    type V = EmulatorView;

    open spec fn view(&self) -> EmulatorView {
        EmulatorView {
            cycles: self.cycles as int,
            timer: self.timer,
            ppu: self.ppu@,
            interrupts: self.interrupts,
            joypad: self.joypad,
            booted: self.booted,
            boot_rom: self.boot_rom@,
            rom: self.rom@,
            cram: self.cram@,
            wram: self.wram@,
            hram: self.hram@,
            serial: self.serial@,
        }
    }
}

/// The first bytes of `source`, as many as fit, laid over the start of
/// `memory`.
pub open spec fn loaded(memory: Seq<u8>, source: Seq<u8>) -> Seq<u8> {
    Seq::new(
        memory.len(),
        |i: int|
            if i < source.len() {
                source[i]
            } else {
                memory[i]
            },
    )
}

impl EmulatorView {
    /// What holds of every system between two operations: the memories have
    /// their sizes and the PPU is well formed.
    pub open spec fn wf(self) -> bool {
        &&& self.ppu.wf()
        &&& self.boot_rom.len() == BOOT_ROM_SIZE
        &&& self.rom.len() == ROM_SIZE
        &&& self.cram.len() == CRAM_SIZE
        &&& self.wram.len() == WRAM_SIZE
        &&& self.hram.len() == HRAM_SIZE
        &&& 0 <= self.cycles
    }

    /// Whether the CPU can spend `n` more machine cycles before the count of
    /// cycles not yet caught up with runs over.
    pub open spec fn can_spend(self, n: int) -> bool {
        self.cycles + n <= u32::MAX
    }

    /// The system after the CPU spent `n` more machine cycles.
    pub open spec fn ticked(self, n: int) -> EmulatorView {
        EmulatorView { cycles: self.cycles + n, ..self }
    }

    /// The system after the PPU and then the timer have caught up with the
    /// machine cycles that the CPU spent.
    pub open spec fn caught_up(self) -> EmulatorView {
        let cycles = self.cycles as u32;
        let (ppu, raised) = self.ppu.stepped(cycles, self.interrupts);
        EmulatorView {
            cycles: 0,
            ppu,
            timer: self.timer.stepped(cycles),
            interrupts: raised.request_if(self.timer.overflows(cycles), Interrupt::Timer),
            ..self
        }
    }
}

impl Emulator {
    /// See [`EmulatorView::wf`].
    pub open spec fn wf(&self) -> bool {
        self@.wf()
    }

    /// Whether the system is well formed.
    pub fn is_well_formed(&self) -> (ok: bool)
        ensures
            ok == self.wf(),
    {
        proof {
            self.ppu.lemma_sizes();
        }
        self.ppu.is_well_formed()
    }

    /// The machine cycles that the CPU has spent since the system last
    /// caught up.
    pub fn pending_cycles(&self) -> (cycles: u32)
        ensures
            cycles == self@.cycles,
    {
        self.cycles
    }

    /// A system with empty memories, the boot ROM switched on, and every
    /// device in its reset state.
    pub fn new() -> (emulator: Emulator)
        ensures
            emulator.wf(),
            emulator@.ppu.is_reset(),
            emulator@.cycles == 0,
            !emulator@.booted,
            emulator@.serial.len() == 0,
            emulator@.timer == Timer::new_spec(),
            emulator@.interrupts == InterruptQueue::new_spec(),
            emulator@.joypad == Joypad::new_spec(),
            forall|i: int| 0 <= i < BOOT_ROM_SIZE ==> emulator@.boot_rom[i] == 0,
            forall|i: int| 0 <= i < ROM_SIZE ==> emulator@.rom[i] == 0,
            forall|i: int| 0 <= i < CRAM_SIZE ==> emulator@.cram[i] == 0,
            forall|i: int| 0 <= i < WRAM_SIZE ==> emulator@.wram[i] == 0,
            forall|i: int| 0 <= i < HRAM_SIZE ==> emulator@.hram[i] == 0,
    {
        Emulator {
            cycles: 0,
            ppu: Ppu::new(),
            joypad: Joypad::new(),
            timer: Timer::new(),
            booted: false,
            interrupts: InterruptQueue::new(),
            boot_rom: [0; BOOT_ROM_SIZE],
            rom: [0; ROM_SIZE],
            cram: [0; CRAM_SIZE],
            wram: [0; WRAM_SIZE],
            hram: [0; HRAM_SIZE],
            serial: Vec::new(),
        }
    }

    /// Lets the PPU and the timer catch up with the machine cycles that the
    /// CPU spent, and gives their number.
    pub fn catch_up_cycles(&mut self) -> (cycles: u32)
        requires
            old(self).wf(),
        ensures
            final(self).wf(),
            cycles == old(self)@.cycles,
            final(self)@ == old(self)@.caught_up(),
    {
        let cycles = self.cycles;
        self.ppu.step(cycles, &mut self.interrupts);
        self.timer.step(cycles, &mut self.interrupts);
        self.cycles = 0;
        cycles
    }

    /// Counts one machine cycle.
    pub fn step(&mut self)
        requires
            old(self)@.can_spend(1),
        ensures
            final(self)@ == old(self)@.ticked(1),
            old(self).wf() ==> final(self).wf(),
    {
        self.cycles += 1;
    }

    /// Copies the start of `source` into the boot ROM, 256 bytes at most,
    /// and gives the number of bytes taken.
    pub fn load_bootrom(&mut self, source: &[u8]) -> (count: usize)
        ensures
            count == if source@.len() < BOOT_ROM_SIZE {
                source@.len()
            } else {
                BOOT_ROM_SIZE as nat
            },
            final(self)@ == (EmulatorView {
                boot_rom: loaded(old(self)@.boot_rom, source@),
                ..old(self)@
            }),
    {
        let count = if source.len() < BOOT_ROM_SIZE {
            source.len()
        } else {
            BOOT_ROM_SIZE
        };
        let mut i: usize = 0;
        while i < count
            invariant
                i <= count,
                count <= BOOT_ROM_SIZE,
                count <= source@.len(),
                self@ == (EmulatorView { boot_rom: self.boot_rom@, ..old(self)@ }),
                forall|j: int|
                    0 <= j < BOOT_ROM_SIZE ==> self.boot_rom@[j] == if j < i {
                        source@[j]
                    } else {
                        old(self).boot_rom@[j]
                    },
            decreases count - i,
        {
            self.boot_rom[i] = source[i];
            i += 1;
        }
        assert(self.boot_rom@ =~= loaded(old(self)@.boot_rom, source@));
        count
    }

    /// Copies the start of `source` into the cartridge ROM, 32 KiB at most,
    /// and gives the number of bytes taken.
    pub fn load_rom(&mut self, source: &[u8]) -> (count: usize)
        ensures
            count == if source@.len() < ROM_SIZE {
                source@.len()
            } else {
                ROM_SIZE as nat
            },
            final(self)@ == (EmulatorView { rom: loaded(old(self)@.rom, source@), ..old(self)@ }),
    {
        let count = if source.len() < ROM_SIZE {
            source.len()
        } else {
            ROM_SIZE
        };
        let mut i: usize = 0;
        while i < count
            invariant
                i <= count,
                count <= ROM_SIZE,
                count <= source@.len(),
                self@ == (EmulatorView { rom: self.rom@, ..old(self)@ }),
                forall|j: int|
                    0 <= j < ROM_SIZE ==> self.rom@[j] == if j < i {
                        source@[j]
                    } else {
                        old(self).rom@[j]
                    },
            decreases count - i,
        {
            self.rom[i] = source[i];
            i += 1;
        }
        assert(self.rom@ =~= loaded(old(self)@.rom, source@));
        count
    }

    /// Reads a byte for the CPU, which costs one machine cycle.
    pub fn read_cycle(&mut self, address: u16) -> (value: u8)
        requires
            old(self)@.can_spend(1),
        ensures
            value == old(self)@.read_mapped(address),
            final(self)@ == old(self)@.ticked(1),
            old(self).wf() ==> final(self).wf(),
    {
        self.step();
        proof {
            crate::emulator::memory_map::lemma_read_ignores_clock(old(self)@, 1, address);
        }
        self.read_mapped(address)
    }

    /// Whether an interrupt waits to be served.
    pub fn interrupt_pending(&self) -> (pending: bool)
        ensures
            pending == self@.interrupts.pending(),
    {
        self.interrupts.peek()
    }

    /// Takes out the pending interrupt of highest priority.
    pub fn pop_interrupt(&mut self) -> (source: Option<Interrupt>)
        ensures
            source == old(self)@.interrupts.first_pending(),
            final(self)@ == (EmulatorView {
                interrupts: old(self)@.interrupts.popped(),
                ..old(self)@
            }),
            old(self).wf() ==> final(self).wf(),
    {
        self.interrupts.pop()
    }

    /// Holds a button down.
    pub fn joypad_press(&mut self, pressed: Button)
        ensures
            final(self)@ == (EmulatorView {
                joypad: old(self)@.joypad.with_button(pressed, true),
                interrupts: old(self)@.interrupts.request_if(
                    !old(self)@.joypad.is_pressed(pressed),
                    Interrupt::Joypad,
                ),
                ..old(self)@
            }),
    {
        self.joypad.press_button(&mut self.interrupts, pressed);
    }

    /// Lets a button go.
    pub fn joypad_clear(&mut self, pressed: Button)
        ensures
            final(self)@ == (EmulatorView {
                joypad: old(self)@.joypad.with_button(pressed, false),
                ..old(self)@
            }),
    {
        self.joypad.clear_button(pressed);
    }

    /// Hands over the bytes that were written to the serial data register
    /// since the last call, oldest first.
    pub fn take_serial(&mut self) -> (bytes: Vec<u8>)
        ensures
            bytes@ == old(self)@.serial,
            final(self)@ == (EmulatorView { serial: Seq::empty(), ..old(self)@ }),
    {
        let mut bytes: Vec<u8> = Vec::new();
        core::mem::swap(&mut self.serial, &mut bytes);
        bytes
    }
}

} // verus!
