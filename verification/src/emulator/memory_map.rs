//! The address space of the system.
//!
//! | addresses       | what answers                                  |
//! |-----------------|-----------------------------------------------|
//! | 0x0000..=0x00FF | boot ROM until it is switched off, then cart  |
//! | 0x0000..=0x7FFF | cartridge ROM; writes are dropped             |
//! | 0x8000..=0x9FFF | video memory                                  |
//! | 0xA000..=0xBFFF | cartridge RAM                                 |
//! | 0xC000..=0xDFFF | work RAM                                      |
//! | 0xE000..=0xFDFF | the same work RAM once more                   |
//! | 0xFE00..=0xFE9F | sprite table                                  |
//! | 0xFEA0..=0xFEFF | nothing: reads give 0xFF, writes are dropped  |
//! | 0xFF00..=0xFF7F | device registers                              |
//! | 0xFF80..=0xFFFE | high RAM                                      |
//! | 0xFFFF          | interrupt enable register                     |

use vstd::prelude::*;
use crate::emulator::{Emulator, EmulatorView, CRAM_SIZE, HRAM_SIZE, WRAM_SIZE};
use crate::ppu::{palette_of, Ppu, PpuView, OAM_SIZE};
use crate::timer::Timer;

verus! {

/// What a read gives where nothing answers.
pub const UNDEFINED_BYTE: u8 = 0xFF;

impl EmulatorView {
    /// What the CPU reads from the device register at `address`. Registers
    /// that cannot be read, and addresses without a register, give 0xFF.
    #[verifier::opaque]
    pub open spec fn read_ioreg(self, address: u16) -> u8 {
        if address == 0xFF00 {
            self.joypad.register()
        } else if address == 0xFF04 {
            self.timer.divider
        } else if address == 0xFF05 {
            self.timer.counter
        } else if address == 0xFF06 {
            self.timer.modulo
        } else if address == 0xFF0F {
            self.interrupts.request_byte()
        } else if address == 0xFF40 {
            self.ppu.control
        } else if address == 0xFF41 {
            self.ppu.status_byte()
        } else if address == 0xFF42 {
            self.ppu.scroll_y
        } else if address == 0xFF43 {
            self.ppu.scroll_x
        } else if address == 0xFF44 {
            self.ppu.current_line
        } else if address == 0xFF45 {
            self.ppu.lyc
        } else if address == 0xFF50 {
            if self.booted {
                1
            } else {
                0
            }
        } else {
            UNDEFINED_BYTE
        }
    }

    /// What the CPU reads at `address`.
    #[verifier::opaque]
    pub open spec fn read_mapped(self, address: u16) -> u8 {
        if address <= 0x00FF {
            if self.booted {
                self.rom[address as int]
            } else {
                self.boot_rom[address as int]
            }
        } else if address <= 0x7FFF {
            self.rom[address as int]
        } else if address <= 0x9FFF {
            self.ppu.vram_read(address - 0x8000)
        } else if address <= 0xBFFF {
            self.cram[address - 0xA000]
        } else if address <= 0xDFFF {
            self.wram[address - 0xC000]
        } else if address <= 0xFDFF {
            self.wram[address - 0xE000]
        } else if address <= 0xFE9F {
            self.ppu.oam_read(address - 0xFE00)
        } else if address <= 0xFEFF {
            UNDEFINED_BYTE
        } else if address <= 0xFF7F {
            self.read_ioreg(address)
        } else if address <= 0xFFFE {
            self.hram[address - 0xFF80]
        } else {
            self.interrupts.enable_byte()
        }
    }

    /// The system after a sprite table transfer from page `page`: byte `i`
    /// of the sprite table is what the CPU would have read at address
    /// `page * 256 + i` before the transfer.
    #[verifier::opaque]
    pub open spec fn dma_copied(self, page: u8) -> EmulatorView {
        EmulatorView {
            ppu: PpuView {
                oam: Seq::new(
                    OAM_SIZE as nat,
                    |i: int| self.read_mapped((page * 0x100 + i) as u16),
                ),
                ..self.ppu
            },
            ..self
        }
    }

    /// The system after the CPU wrote `value` to the device register at
    /// `address`. Writes to addresses without a register are dropped.
    #[verifier::opaque]
    pub open spec fn write_ioreg(self, address: u16, value: u8) -> EmulatorView {
        if address == 0xFF00 {
            EmulatorView { joypad: self.joypad.with_select_byte(value), ..self }
        } else if address == 0xFF01 {
            EmulatorView { serial: self.serial.push(value), ..self }
        } else if address == 0xFF04 {
            EmulatorView { timer: Timer { divider: 0, ..self.timer }, ..self }
        } else if address == 0xFF05 {
            EmulatorView { timer: Timer { counter: value, ..self.timer }, ..self }
        } else if address == 0xFF06 {
            EmulatorView { timer: Timer { modulo: value, ..self.timer }, ..self }
        } else if address == 0xFF07 {
            EmulatorView { timer: self.timer.with_control(value), ..self }
        } else if address == 0xFF0F {
            EmulatorView { interrupts: self.interrupts.with_request_byte(value), ..self }
        } else if address == 0xFF40 {
            EmulatorView { ppu: self.ppu.with_control_byte(value), ..self }
        } else if address == 0xFF41 {
            EmulatorView { ppu: self.ppu.with_status_byte(value), ..self }
        } else if address == 0xFF42 {
            EmulatorView { ppu: PpuView { scroll_y: value, ..self.ppu }, ..self }
        } else if address == 0xFF43 {
            EmulatorView { ppu: PpuView { scroll_x: value, ..self.ppu }, ..self }
        } else if address == 0xFF44 {
            EmulatorView { ppu: PpuView { current_line: 0, ..self.ppu }, ..self }
        } else if address == 0xFF45 {
            EmulatorView { ppu: PpuView { lyc: value, ..self.ppu }, ..self }
        } else if address == 0xFF46 {
            self.dma_copied(value)
        } else if address == 0xFF47 {
            EmulatorView { ppu: PpuView { palette: palette_of(value), ..self.ppu }, ..self }
        } else if address == 0xFF48 {
            EmulatorView { ppu: PpuView { obj_palette0: palette_of(value), ..self.ppu }, ..self }
        } else if address == 0xFF49 {
            EmulatorView { ppu: PpuView { obj_palette1: palette_of(value), ..self.ppu }, ..self }
        } else if address == 0xFF50 {
            EmulatorView { booted: self.booted || value != 0, ..self }
        } else if address == 0xFFFF {
            EmulatorView { interrupts: self.interrupts.with_enable_byte(value), ..self }
        } else {
            self
        }
    }

    /// The system after the CPU wrote `value` to `address`.
    #[verifier::opaque]
    pub open spec fn write_mapped(self, address: u16, value: u8) -> EmulatorView {
        if address <= 0x7FFF {
            self
        } else if address <= 0x9FFF {
            EmulatorView { ppu: self.ppu.vram_written(address - 0x8000, value), ..self }
        } else if address <= 0xBFFF {
            EmulatorView { cram: self.cram.update(address - 0xA000, value), ..self }
        } else if address <= 0xDFFF {
            EmulatorView { wram: self.wram.update(address - 0xC000, value), ..self }
        } else if address <= 0xFDFF {
            EmulatorView { wram: self.wram.update(address - 0xE000, value), ..self }
        } else if address <= 0xFE9F {
            EmulatorView { ppu: self.ppu.oam_written(address - 0xFE00, value), ..self }
        } else if address <= 0xFEFF {
            self
        } else if address <= 0xFF7F {
            self.write_ioreg(address, value)
        } else if address <= 0xFFFE {
            EmulatorView { hram: self.hram.update(address - 0xFF80, value), ..self }
        } else {
            EmulatorView { interrupts: self.interrupts.with_enable_byte(value), ..self }
        }
    }
}

impl Emulator {
    /// What the CPU reads at `address`.
    pub fn read_mapped(&self, address: u16) -> (value: u8)
        ensures
            value == self@.read_mapped(address),
    {
        reveal(EmulatorView::read_mapped);
        if address <= 0x00FF {
            if self.booted {
                self.rom[address as usize]
            } else {
                self.boot_rom[address as usize]
            }
        } else if address <= 0x7FFF {
            self.rom[address as usize]
        } else if address <= 0x9FFF {
            self.ppu.read_vram(address - 0x8000)
        } else if address <= 0xBFFF {
            self.cram[(address - 0xA000) as usize]
        } else if address <= 0xDFFF {
            self.wram[(address - 0xC000) as usize]
        } else if address <= 0xFDFF {
            self.wram[(address - 0xE000) as usize]
        } else if address <= 0xFE9F {
            self.ppu.read_oam(address - 0xFE00)
        } else if address <= 0xFEFF {
            UNDEFINED_BYTE
        } else if address <= 0xFF7F {
            self.read_ioreg(address)
        } else if address <= 0xFFFE {
            self.hram[(address - 0xFF80) as usize]
        } else {
            self.interrupts.flags_as_byte()
        }
    }

    /// Writes a byte for the CPU, which costs one machine cycle.
    pub fn write_cycle(&mut self, address: u16, value: u8)
        requires
            old(self)@.can_spend(1),
        ensures
            final(self)@ == old(self)@.ticked(1).write_mapped(address, value),
            old(self).wf() ==> final(self).wf(),
    {
        self.step();
        self.write_mapped(address, value);
        proof {
            if old(self).wf() {
                lemma_write_keeps_wf(old(self)@.ticked(1), address, value);
            }
        }
    }

    /// Writes `value` to `address`.
    pub fn write_mapped(&mut self, address: u16, value: u8)
        ensures
            final(self)@ == old(self)@.write_mapped(address, value),
    {
        reveal(EmulatorView::write_mapped);
        if address <= 0x7FFF {
        } else if address <= 0x9FFF {
            self.ppu.write_vram(address - 0x8000, value);
        } else if address <= 0xBFFF {
            self.store_cram(address - 0xA000, value);
        } else if address <= 0xDFFF {
            self.store_wram(address - 0xC000, value);
        } else if address <= 0xFDFF {
            self.store_wram(address - 0xE000, value);
        } else if address <= 0xFE9F {
            self.ppu.write_oam(address - 0xFE00, value);
        } else if address <= 0xFEFF {
        } else if address <= 0xFF7F {
            self.write_ioreg(address, value);
        } else if address <= 0xFFFE {
            self.store_hram(address - 0xFF80, value);
        } else {
            self.interrupts.flags_from_byte(value);
        }
    }

    /// Stores a byte of cartridge RAM.
    fn store_cram(&mut self, offset: u16, value: u8)
        requires
            offset < CRAM_SIZE,
        ensures
            final(self)@ == (EmulatorView {
                cram: old(self)@.cram.update(offset as int, value),
                ..old(self)@
            }),
    {
        self.cram[offset as usize] = value;
    }

    /// Stores a byte of work RAM.
    fn store_wram(&mut self, offset: u16, value: u8)
        requires
            offset < WRAM_SIZE,
        ensures
            final(self)@ == (EmulatorView {
                wram: old(self)@.wram.update(offset as int, value),
                ..old(self)@
            }),
    {
        self.wram[offset as usize] = value;
    }

    /// Stores a byte of high RAM.
    fn store_hram(&mut self, offset: u16, value: u8)
        requires
            offset < HRAM_SIZE,
        ensures
            final(self)@ == (EmulatorView {
                hram: old(self)@.hram.update(offset as int, value),
                ..old(self)@
            }),
    {
        self.hram[offset as usize] = value;
    }

    /// Switches the boot ROM off for good if `value` is not zero.
    fn unmap_boot_rom(&mut self, value: u8)
        ensures
            final(self)@ == (EmulatorView {
                booted: old(self)@.booted || value != 0,
                ..old(self)@
            }),
    {
        if value != 0 {
            self.booted = true;
        }
    }

    /// What the CPU reads from the device register at `address`.
    pub fn read_ioreg(&self, address: u16) -> (value: u8)
        ensures
            value == self@.read_ioreg(address),
    {
        reveal(EmulatorView::read_ioreg);
        match address {
            0xFF00 => self.joypad.as_byte(),
            0xFF04 => self.timer.divider,
            0xFF05 => self.timer.counter,
            0xFF06 => self.timer.modulo,
            0xFF0F => self.interrupts.as_byte(),
            0xFF40 => self.ppu.control_as_byte(),
            0xFF41 => self.ppu.stat_as_byte(),
            0xFF42 => self.ppu.scroll_y(),
            0xFF43 => self.ppu.scroll_x(),
            0xFF44 => self.ppu.current_line(),
            0xFF45 => self.ppu.line_compare(),
            0xFF50 => if self.booted {
                1
            } else {
                0
            },
            _ => UNDEFINED_BYTE,
        }
    }

    /// Writes `value` to the device register at `address`.
    pub fn write_ioreg(&mut self, address: u16, value: u8)
        ensures
            final(self)@ == old(self)@.write_ioreg(address, value),
    {
        reveal(EmulatorView::write_ioreg);
        match address {
            0xFF00 => self.joypad.from_byte(value),
            0xFF01 => self.serial.push(value),
            0xFF04 => self.timer.reset_divider(),
            0xFF05 => self.timer.set_counter(value),
            0xFF06 => self.timer.set_modulo(value),
            0xFF07 => self.timer.mode_from_byte(value),
            0xFF0F => self.interrupts.from_byte(value),
            0xFF40 => self.ppu.control_from_byte(value),
            0xFF41 => self.ppu.stat_from_byte(value),
            0xFF42 => self.ppu.set_scroll_y(value),
            0xFF43 => self.ppu.set_scroll_x(value),
            0xFF44 => self.ppu.reset_current_line(),
            0xFF45 => self.ppu.set_line_compare(value),
            0xFF46 => self.init_dma_transfer(value),
            0xFF47 => self.ppu.set_palette(value),
            0xFF48 => self.ppu.set_obj_palette0(value),
            0xFF49 => self.ppu.set_obj_palette1(value),
            0xFF50 => self.unmap_boot_rom(value),
            0xFFFF => self.interrupts.flags_from_byte(value),
            _ => (),
        }
    }

    /// Copies the 160 bytes at `offset * 256` and after into the sprite
    /// table, all at once.
    pub fn init_dma_transfer(&mut self, offset: u8)
        ensures
            final(self)@ == old(self)@.dma_copied(offset),
    {
        let base: u16 = offset as u16 * 0x100;
        let ghost start = self@;
        proof {
            self.ppu.lemma_sizes();
        }
        let mut addr: u16 = 0;
        while addr < 0xA0
            invariant
                addr <= 0xA0,
                start.ppu.oam.len() == OAM_SIZE,
                base == offset * 0x100,
                start == old(self)@,
                self@ == (EmulatorView {
                    ppu: PpuView { oam: self@.ppu.oam, ..start.ppu },
                    ..start
                }),
                self@.ppu.oam.len() == start.ppu.oam.len(),
                forall|j: int|
                    0 <= j < addr ==> self@.ppu.oam[j] == start.read_mapped(
                        (offset * 0x100 + j) as u16,
                    ),
                forall|j: int| addr <= j < start.ppu.oam.len() ==> self@.ppu.oam[j] == start.ppu.oam[j],
            decreases 0xA0 - addr,
        {
            let byte = self.read_mapped(base + addr);
            proof {
                reveal(EmulatorView::read_mapped);
                reveal(EmulatorView::read_ioreg);
                assert(byte == start.read_mapped((offset * 0x100 + addr) as u16));
            }
            self.ppu.store_oam(addr, byte);
            addr += 1;
        }
        proof {
            reveal(EmulatorView::dma_copied);
            self.ppu.lemma_sizes();
            assert(self@.ppu.oam =~= start.dma_copied(offset).ppu.oam);
        }
    }
}

/// A write keeps a well-formed system well formed.
pub proof fn lemma_write_keeps_wf(system: EmulatorView, address: u16, value: u8)
    requires
        system.wf(),
    ensures
        system.write_mapped(address, value).wf(),
{
    reveal(EmulatorView::write_mapped);
    reveal(EmulatorView::write_ioreg);
    reveal(EmulatorView::dma_copied);
}

/// What a read gives does not depend on the machine cycles spent.
pub proof fn lemma_read_ignores_clock(system: EmulatorView, cycles: int, address: u16)
    ensures
        system.ticked(cycles).read_mapped(address) == system.read_mapped(address),
{
    reveal(EmulatorView::read_mapped);
    reveal(EmulatorView::read_ioreg);
}

/// A write changes nothing about the machine cycles spent.
pub proof fn lemma_write_keeps_clock(system: EmulatorView, address: u16, value: u8)
    ensures
        system.write_mapped(address, value).cycles == system.cycles,
{
    reveal(EmulatorView::write_mapped);
    reveal(EmulatorView::write_ioreg);
    reveal(EmulatorView::dma_copied);
}

/// The echo region shows the work RAM: an address from 0xE000 to 0xFDFF
/// reads what the address 0x2000 below it reads, and a write to it is a
/// write to that address.
pub proof fn lemma_echo_ram(system: EmulatorView, address: u16, value: u8)
    requires
        0xE000 <= address <= 0xFDFF,
    ensures
        system.read_mapped(address) == system.read_mapped((address - 0x2000) as u16),
        system.write_mapped(address, value) == system.write_mapped(
            (address - 0x2000) as u16,
            value,
        ),
{
    reveal(EmulatorView::read_mapped);
    reveal(EmulatorView::write_mapped);
}

/// The boot ROM shows at the first 256 addresses until a value other than
/// zero is written to the register at 0xFF50; from then on the cartridge
/// shows there, whatever is written to the register afterwards.
pub proof fn lemma_boot_rom_overlay(system: EmulatorView, address: u16, value: u8)
    requires
        address <= 0x00FF,
    ensures
        !system.booted ==> system.read_mapped(address) == system.boot_rom[address as int],
        system.booted ==> system.read_mapped(address) == system.rom[address as int],
        system.write_mapped(0xFF50, value).booted == (system.booted || value != 0),
        system.booted ==> system.write_mapped(0xFF50, value).booted,
        system.write_mapped(0xFF50, value).read_mapped(0xFF50) == if system.booted || value != 0 {
            1u8
        } else {
            0u8
        },
{
    reveal(EmulatorView::read_mapped);
    reveal(EmulatorView::read_ioreg);
    reveal(EmulatorView::write_mapped);
    reveal(EmulatorView::write_ioreg);
}

/// A write to the divider register sets the divider to zero, whatever the
/// value written.
pub proof fn lemma_divider_write_resets(system: EmulatorView, value: u8)
    ensures
        system.write_mapped(0xFF04, value).timer.divider == 0,
        system.write_mapped(0xFF04, value).read_mapped(0xFF04) == 0,
{
    reveal(EmulatorView::read_mapped);
    reveal(EmulatorView::read_ioreg);
    reveal(EmulatorView::write_mapped);
    reveal(EmulatorView::write_ioreg);
}

/// What software writes to a device register it can read back: the LCD
/// control, scroll and line compare registers and the counter and modulo of
/// the timer in full, the interrupt registers without the bits that belong
/// to no source, and of the LCD status register the four interrupt enables.
pub proof fn lemma_registers_read_back(system: EmulatorView, value: u8)
    ensures
        system.write_mapped(0xFF40, value).read_mapped(0xFF40) == value,
        system.write_mapped(0xFF42, value).read_mapped(0xFF42) == value,
        system.write_mapped(0xFF43, value).read_mapped(0xFF43) == value,
        system.write_mapped(0xFF45, value).read_mapped(0xFF45) == value,
        system.write_mapped(0xFF05, value).read_mapped(0xFF05) == value,
        system.write_mapped(0xFF06, value).read_mapped(0xFF06) == value,
        system.write_mapped(0xFF0F, value).read_mapped(0xFF0F) == value & 0x17,
        system.write_mapped(0xFFFF, value).read_mapped(0xFFFF) == value & 0x17,
        system.write_mapped(0xFF41, value).read_mapped(0xFF41) & 0x78 == value & 0x78,
{
    reveal(EmulatorView::read_mapped);
    reveal(EmulatorView::read_ioreg);
    reveal(EmulatorView::write_mapped);
    reveal(EmulatorView::write_ioreg);
    crate::ppu::lemma_status_round_trip(system.ppu, value, 0x08);
}

/// Nothing answers from 0xFEA0 to 0xFEFF, and a write to the cartridge ROM
/// changes nothing.
pub proof fn lemma_inert_regions(system: EmulatorView, address: u16, value: u8)
    ensures
        0xFEA0 <= address <= 0xFEFF ==> system.read_mapped(address) == 0xFF
            && system.write_mapped(address, value) == system,
        address <= 0x7FFF ==> system.write_mapped(address, value) == system,
{
    reveal(EmulatorView::read_mapped);
    reveal(EmulatorView::write_mapped);
}

} // verus!
