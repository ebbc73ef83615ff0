//! The pixel-processing unit: video memory, the LCD registers, and the mode
//! state machine that walks through the scanlines of a frame.

pub mod control;
pub mod render;
pub mod timing;

use vstd::prelude::*;
use crate::bits::mask_if;
use crate::ppu::control::PpuControl;

verus! {

/// Bytes of video memory.
pub const VRAM_SIZE: usize = 0x2000;

/// Bytes of the sprite table: forty sprites of four bytes.
pub const OAM_SIZE: usize = 0xA0;

/// Pixels in a line of the screen.
pub const SCREEN_WIDTH: usize = 160;

/// Lines of the screen.
pub const SCREEN_HEIGHT: usize = 144;

/// Bytes in the framebuffer: three per pixel, row after row.
pub const FRAMEBUFFER_SIZE: usize = 69120;

/// Bytes in one row of the framebuffer.
pub const ROW_BYTES: usize = 480;

/// Machine cycles the PPU spends scanning the sprite table of a line.
pub const OAM_ACCESS_CYCLES: u32 = 20;

/// Machine cycles the PPU spends sending the pixels of a line.
pub const VRAM_ACCESS_CYCLES: u32 = 43;

/// Machine cycles of horizontal blank that end a line.
pub const HBLANK_CYCLES: u32 = 51;

/// Machine cycles of a whole line.
pub const SCANLINE_CYCLES: u32 = 114;

/// Lines of a frame, the ten lines of vertical blank included.
pub const FRAME_LINES: u8 = 154;

/// The value of every byte that the host sees while the LCD is off.
pub const BLANK_BYTE: u8 = 0x05;

/// A colour as the framebuffer holds it: red, green, blue.
pub type Color = (u8, u8, u8);

/// What the PPU is doing with the current line.
#[derive(Debug, Clone, Copy, PartialEq, Eq, Structural)]
pub enum PpuMode {
    InOam,
    InVram,
    HBlank,
    VBlank,
}

/// The PPU: its memories, its registers, and where it is in the frame.
pub struct Ppu {
    pub framebuffer: [u8; FRAMEBUFFER_SIZE],
    pub blank: [u8; FRAMEBUFFER_SIZE],
    pub cycles: u32,
    /// The control register as last written.
    pub control: u8,
    pub mode: PpuMode,
    /// The status register as last written; bits 3 to 6 enable the LCD
    /// interrupt for horizontal blank, vertical blank, sprite table scan
    /// and line coincidence.
    pub stat: u8,
    pub vram: [u8; VRAM_SIZE],
    pub oam: [u8; OAM_SIZE],
    pub palette: [Color; 4],
    pub obj_palette0: [Color; 4],
    pub obj_palette1: [Color; 4],
    pub current_line: u8,
    pub lyc: u8,
    pub scroll_y: u8,
    pub scroll_x: u8,
}

/// The PPU as contracts see it: memories and palettes as sequences, the
/// cycle count as an integer.
pub struct PpuView {
    pub framebuffer: Seq<u8>,
    pub blank: Seq<u8>,
    pub cycles: int,
    pub control: u8,
    pub mode: PpuMode,
    pub stat: u8,
    pub vram: Seq<u8>,
    pub oam: Seq<u8>,
    pub palette: Seq<Color>,
    pub obj_palette0: Seq<Color>,
    pub obj_palette1: Seq<Color>,
    pub current_line: u8,
    pub lyc: u8,
    pub scroll_y: u8,
    pub scroll_x: u8,
}

impl View for Ppu {
    type V = PpuView;

    open spec fn view(&self) -> PpuView {
        PpuView {
            framebuffer: self.framebuffer@,
            blank: self.blank@,
            cycles: self.cycles as int,
            control: self.control,
            mode: self.mode,
            stat: self.stat,
            vram: self.vram@,
            oam: self.oam@,
            palette: self.palette@,
            obj_palette0: self.obj_palette0@,
            obj_palette1: self.obj_palette1@,
            current_line: self.current_line,
            lyc: self.lyc,
            scroll_y: self.scroll_y,
            scroll_x: self.scroll_x,
        }
    }
}

/// The four shades of the screen, lightest first.
pub open spec fn ramp(index: u8) -> Color {
    if index == 0 {
        (0xE0, 0xF8, 0xD0)
    } else if index == 1 {
        (0x88, 0xC0, 0x70)
    } else if index == 2 {
        (0x34, 0x68, 0x56)
    } else {
        (0x08, 0x18, 0x20)
    }
}

/// The place of a shade in the ramp; 0 for a colour that is no shade.
pub open spec fn ramp_index(color: Color) -> u8 {
    if color == ramp(1) {
        1
    } else if color == ramp(2) {
        2
    } else if color == ramp(3) {
        3
    } else {
        0
    }
}

/// The palette that a register byte stands for: entry `n` is the shade
/// whose number sits in bits `2n` and `2n + 1`.
pub open spec fn palette_of(byte: u8) -> Seq<Color> {
    seq![
        ramp(byte & 0x03),
        ramp((byte >> 2) & 0x03),
        ramp((byte >> 4) & 0x03),
        ramp((byte >> 6) & 0x03),
    ]
}

/// Four shade numbers packed into a register byte.
pub open spec fn shade_bits(s0: u8, s1: u8, s2: u8, s3: u8) -> u8 {
    s0 | (s1 << 2) | (s2 << 4) | (s3 << 6)
}

/// The register byte of a palette of four shades.
pub open spec fn palette_byte(palette: Seq<Color>) -> u8 {
    shade_bits(
        ramp_index(palette[0]),
        ramp_index(palette[1]),
        ramp_index(palette[2]),
        ramp_index(palette[3]),
    )
}

/// The two mode bits of the status register.
pub open spec fn mode_bits(mode: PpuMode) -> u8 {
    match mode {
        PpuMode::HBlank => 0,
        PpuMode::VBlank => 1,
        PpuMode::InOam => 2,
        PpuMode::InVram => 3,
    }
}

/// The status register: the mode in bits 0 and 1, the line coincidence in
/// bit 2, the four interrupt enables in bits 3 to 6 as they were written.
pub open spec fn status_bits(mode: u8, coincidence: bool, written: u8) -> u8 {
    mode | mask_if(coincidence, 0x04) | (written & 0x78)
}

impl PpuView {
    /// Machine cycles that the current mode lasts.
    pub open spec fn duration(self) -> int {
        match self.mode {
            PpuMode::InOam => OAM_ACCESS_CYCLES as int,
            PpuMode::InVram => VRAM_ACCESS_CYCLES as int,
            PpuMode::HBlank => HBLANK_CYCLES as int,
            PpuMode::VBlank => SCANLINE_CYCLES as int,
        }
    }

    /// The PPU as it is made: the LCD off, at the start of line 0 in the
    /// sprite table scan, all registers and memories zero, every palette
    /// entry on the lightest shade, and the blank image blank.
    pub open spec fn is_reset(self) -> bool {
        &&& self.blank_is_blank()
        &&& self.control == 0
        &&& self.stat == 0
        &&& !self.lcd_on()
        &&& self.mode == PpuMode::InOam
        &&& self.cycles == 0
        &&& self.current_line == 0
        &&& self.lyc == 0
        &&& self.scroll_x == 0
        &&& self.scroll_y == 0
        &&& forall|i: int| 0 <= i < FRAMEBUFFER_SIZE ==> self.framebuffer[i] == 0
        &&& forall|i: int| 0 <= i < VRAM_SIZE ==> self.vram[i] == 0
        &&& forall|i: int| 0 <= i < OAM_SIZE ==> self.oam[i] == 0
        &&& forall|i: int|
            0 <= i < 4 ==> self.palette[i] == ramp(0) && self.obj_palette0[i] == ramp(0)
                && self.obj_palette1[i] == ramp(0)
    }

    /// Whether the image that stands in for the framebuffer while the LCD
    /// is off is blank all over. It is from the start, and nothing draws on
    /// it.
    pub open spec fn blank_is_blank(self) -> bool {
        forall|i: int| 0 <= i < self.blank.len() ==> self.blank[i] == BLANK_BYTE
    }

    /// What holds of every PPU between two operations: the memories have
    /// their sizes, the line counter stays within the frame and within the
    /// screen outside vertical blank, and the cycles spent in the current
    /// mode are fewer than the mode lasts.
    pub open spec fn wf(self) -> bool {
        &&& self.framebuffer.len() == FRAMEBUFFER_SIZE
        &&& self.blank.len() == FRAMEBUFFER_SIZE
        &&& self.vram.len() == VRAM_SIZE
        &&& self.oam.len() == OAM_SIZE
        &&& self.palette.len() == 4
        &&& self.obj_palette0.len() == 4
        &&& self.obj_palette1.len() == 4
        &&& self.current_line < FRAME_LINES
        &&& self.mode != PpuMode::VBlank ==> self.current_line < SCREEN_HEIGHT
        &&& 0 <= self.cycles < self.duration()
    }

    /// Whether the LCD is switched on: bit 7 of the control register.
    pub open spec fn lcd_on(self) -> bool {
        self.control & 0x80 != 0
    }

    /// Whether the status register enables the LCD interrupt for the event
    /// with bit `mask`.
    pub open spec fn stat_enabled(self, mask: u8) -> bool {
        self.stat & mask != 0
    }

    /// Whether the CPU is kept away from video memory: the LCD is on and the
    /// PPU is sending pixels.
    pub open spec fn vram_blocked(self) -> bool {
        self.lcd_on() && self.mode == PpuMode::InVram
    }

    /// Whether the CPU is kept away from the sprite table: the LCD is on and
    /// the PPU is scanning the table or sending pixels.
    pub open spec fn oam_blocked(self) -> bool {
        self.lcd_on() && (self.mode == PpuMode::InOam || self.mode == PpuMode::InVram)
    }

    /// What the CPU reads at `address` of video memory.
    pub open spec fn vram_read(self, address: int) -> u8 {
        if self.vram_blocked() {
            0xFF
        } else {
            self.vram[address]
        }
    }

    /// The PPU after the CPU wrote `value` to `address` of video memory.
    pub open spec fn vram_written(self, address: int, value: u8) -> PpuView {
        if self.vram_blocked() {
            self
        } else {
            PpuView { vram: self.vram.update(address, value), ..self }
        }
    }

    /// What the CPU reads at `address` of the sprite table.
    pub open spec fn oam_read(self, address: int) -> u8 {
        if self.oam_blocked() {
            0xFF
        } else {
            self.oam[address]
        }
    }

    /// The PPU after the CPU wrote `value` to `address` of the sprite table.
    pub open spec fn oam_written(self, address: int, value: u8) -> PpuView {
        if self.oam_blocked() {
            self
        } else {
            PpuView { oam: self.oam.update(address, value), ..self }
        }
    }

    /// The PPU after `byte` was written to the control register. Switching
    /// the LCD off takes the PPU back to the start of line 0, in horizontal
    /// blank.
    pub open spec fn with_control_byte(self, byte: u8) -> PpuView {
        if byte & 0x80 != 0 {
            PpuView { control: byte, ..self }
        } else {
            PpuView { control: byte, current_line: 0, cycles: 0, mode: PpuMode::HBlank, ..self }
        }
    }

    /// The status register as software reads it.
    pub open spec fn status_byte(self) -> u8 {
        status_bits(mode_bits(self.mode), self.lyc == self.current_line, self.stat)
    }

    /// The PPU after `byte` was written to the status register: bits 3 to 6
    /// set the interrupt enables, the other bits are not writable.
    pub open spec fn with_status_byte(self, byte: u8) -> PpuView {
        PpuView { stat: byte, ..self }
    }

    /// The image that the host is shown: the framebuffer, or the blank image
    /// while the LCD is off.
    pub open spec fn visible(self) -> Seq<u8> {
        if self.lcd_on() {
            self.framebuffer
        } else {
            self.blank
        }
    }
}

/// One shade of the ramp.
pub fn decode_color(index: u8) -> (color: Color)
    ensures
        color == ramp(index),
{
    if index == 0 {
        (0xE0, 0xF8, 0xD0)
    } else if index == 1 {
        (0x88, 0xC0, 0x70)
    } else if index == 2 {
        (0x34, 0x68, 0x56)
    } else {
        (0x08, 0x18, 0x20)
    }
}

impl Ppu {
    /// See [`PpuView::wf`].
    pub open spec fn wf(&self) -> bool {
        self@.wf()
    }

    /// The memories of every PPU have their sizes.
    pub proof fn lemma_sizes(&self)
        ensures
            self@.framebuffer.len() == FRAMEBUFFER_SIZE,
            self@.blank.len() == FRAMEBUFFER_SIZE,
            self@.vram.len() == VRAM_SIZE,
            self@.oam.len() == OAM_SIZE,
            self@.palette.len() == 4,
            self@.obj_palette0.len() == 4,
            self@.obj_palette1.len() == 4,
    {
    }

    /// Whether the PPU is well formed.
    pub fn is_well_formed(&self) -> (ok: bool)
        ensures
            ok == self.wf(),
    {
        let on_screen = match self.mode {
            PpuMode::VBlank => true,
            _ => (self.current_line as usize) < SCREEN_HEIGHT,
        };
        let in_time = match self.mode {
            PpuMode::InOam => self.cycles < OAM_ACCESS_CYCLES,
            PpuMode::InVram => self.cycles < VRAM_ACCESS_CYCLES,
            PpuMode::HBlank => self.cycles < HBLANK_CYCLES,
            PpuMode::VBlank => self.cycles < SCANLINE_CYCLES,
        };
        self.current_line < FRAME_LINES && on_screen && in_time
    }

    /// A PPU with the LCD off, empty memories and all palettes on the
    /// lightest shade.
    pub fn new() -> (ppu: Ppu)
        ensures
            ppu.wf(),
            ppu@.is_reset(),
    {
        let lightest = decode_color(0);
        assert(0u8 & 0x80 == 0) by (bit_vector);
        Ppu {
            framebuffer: [0; FRAMEBUFFER_SIZE],
            blank: [BLANK_BYTE; FRAMEBUFFER_SIZE],
            cycles: 0,
            control: 0,
            mode: PpuMode::InOam,
            stat: 0,
            vram: [0; VRAM_SIZE],
            oam: [0; OAM_SIZE],
            palette: [lightest; 4],
            obj_palette0: [lightest; 4],
            obj_palette1: [lightest; 4],
            current_line: 0,
            lyc: 0,
            scroll_x: 0,
            scroll_y: 0,
        }
    }

    /// Whether the LCD is switched on.
    pub fn lcd_on(&self) -> (on: bool)
        ensures
            on == self@.lcd_on(),
    {
        (self.control & 0x80) != 0
    }

    /// The switches of the control register.
    pub fn control(&self) -> (control: PpuControl)
        ensures
            control == PpuControl::decoded(self@.control),
    {
        PpuControl::from_byte(self.control)
    }

    /// Reads video memory for the CPU. While the PPU sends pixels the read
    /// gives 0xFF.
    pub fn read_vram(&self, relative_address: u16) -> (value: u8)
        requires
            relative_address < VRAM_SIZE,
        ensures
            value == self@.vram_read(relative_address as int),
    {
        if !self.lcd_on() {
            self.vram[relative_address as usize]
        } else {
            match self.mode {
                PpuMode::InVram => 0xFF,
                _ => self.vram[relative_address as usize],
            }
        }
    }

    /// Writes video memory for the CPU. While the PPU sends pixels the write
    /// is dropped.
    pub fn write_vram(&mut self, relative_address: u16, value: u8)
        requires
            relative_address < VRAM_SIZE,
        ensures
            final(self)@ == old(self)@.vram_written(relative_address as int, value),
    {
        if !self.lcd_on() {
            self.vram[relative_address as usize] = value;
        } else {
            match self.mode {
                PpuMode::InVram => (),
                _ => {
                    self.vram[relative_address as usize] = value;
                },
            }
        }
    }

    /// Reads the sprite table for the CPU. While the PPU scans the table or
    /// sends pixels the read gives 0xFF.
    pub fn read_oam(&self, relative_address: u16) -> (value: u8)
        requires
            relative_address < OAM_SIZE,
        ensures
            value == self@.oam_read(relative_address as int),
    {
        if !self.lcd_on() {
            self.oam[relative_address as usize]
        } else {
            match self.mode {
                PpuMode::InOam => 0xFF,
                PpuMode::InVram => 0xFF,
                _ => self.oam[relative_address as usize],
            }
        }
    }

    /// Writes the sprite table for the CPU. While the PPU scans the table or
    /// sends pixels the write is dropped.
    pub fn write_oam(&mut self, relative_address: u16, value: u8)
        requires
            relative_address < OAM_SIZE,
        ensures
            final(self)@ == old(self)@.oam_written(relative_address as int, value),
    {
        if !self.lcd_on() {
            self.oam[relative_address as usize] = value;
        } else {
            match self.mode {
                PpuMode::InOam => (),
                PpuMode::InVram => (),
                _ => {
                    self.oam[relative_address as usize] = value;
                },
            }
        }
    }

    /// Takes a byte written to the control register.
    pub fn control_from_byte(&mut self, byte: u8)
        ensures
            final(self)@ == old(self)@.with_control_byte(byte),
            old(self).wf() ==> final(self).wf(),
    {
        self.control = byte;
        if (byte & 0x80) == 0 {
            self.current_line = 0;
            self.cycles = 0;
            self.mode = PpuMode::HBlank;
        }
    }

    /// The control register as software reads it.
    pub fn control_as_byte(&self) -> (byte: u8)
        ensures
            byte == self@.control,
    {
        self.control
    }

    /// The line that the PPU is working on.
    pub fn current_line(&self) -> (line: u8)
        ensures
            line == self@.current_line,
    {
        self.current_line
    }

    /// Takes the line counter back to line 0.
    pub fn reset_current_line(&mut self)
        ensures
            final(self)@ == (PpuView { current_line: 0, ..old(self)@ }),
            old(self).wf() ==> final(self).wf(),
    {
        self.current_line = 0
    }

    /// The vertical scroll register.
    pub fn scroll_y(&self) -> (value: u8)
        ensures
            value == self@.scroll_y,
    {
        self.scroll_y
    }

    /// The horizontal scroll register.
    pub fn scroll_x(&self) -> (value: u8)
        ensures
            value == self@.scroll_x,
    {
        self.scroll_x
    }

    /// The line compare register.
    pub fn line_compare(&self) -> (value: u8)
        ensures
            value == self@.lyc,
    {
        self.lyc
    }

    /// Sets the vertical scroll register.
    pub fn set_scroll_y(&mut self, value: u8)
        ensures
            final(self)@ == (PpuView { scroll_y: value, ..old(self)@ }),
    {
        self.scroll_y = value;
    }

    /// Sets the horizontal scroll register.
    pub fn set_scroll_x(&mut self, value: u8)
        ensures
            final(self)@ == (PpuView { scroll_x: value, ..old(self)@ }),
    {
        self.scroll_x = value;
    }

    /// Sets the line compare register.
    pub fn set_line_compare(&mut self, value: u8)
        ensures
            final(self)@ == (PpuView { lyc: value, ..old(self)@ }),
    {
        self.lyc = value;
    }

    /// Takes a byte written to the background palette register.
    pub fn set_palette(&mut self, byte: u8)
        ensures
            final(self)@ == (PpuView { palette: palette_of(byte), ..old(self)@ }),
    {
        self.palette = Ppu::palette_from_byte(byte);
    }

    /// Takes a byte written to the first sprite palette register.
    pub fn set_obj_palette0(&mut self, byte: u8)
        ensures
            final(self)@ == (PpuView { obj_palette0: palette_of(byte), ..old(self)@ }),
    {
        self.obj_palette0 = Ppu::palette_from_byte(byte);
    }

    /// Takes a byte written to the second sprite palette register.
    pub fn set_obj_palette1(&mut self, byte: u8)
        ensures
            final(self)@ == (PpuView { obj_palette1: palette_of(byte), ..old(self)@ }),
    {
        self.obj_palette1 = Ppu::palette_from_byte(byte);
    }

    /// Stores a byte of the sprite table, whatever the PPU is doing.
    pub fn store_oam(&mut self, relative_address: u16, value: u8)
        requires
            relative_address < OAM_SIZE,
        ensures
            final(self)@ == (PpuView {
                oam: old(self)@.oam.update(relative_address as int, value),
                ..old(self)@
            }),
    {
        self.oam[relative_address as usize] = value;
    }

    /// The image for the host, three bytes per pixel, row after row from the
    /// top left: the framebuffer, or the blank image while the LCD is off.
    pub fn framebuffer(&self) -> (image: &[u8])
        ensures
            image@ == self@.visible(),
            image@.len() == FRAMEBUFFER_SIZE,
            self@.blank_is_blank() && !self@.lcd_on() ==> forall|i: int|
                0 <= i < FRAMEBUFFER_SIZE ==> image@[i] == BLANK_BYTE,
    {
        if self.lcd_on() {
            &self.framebuffer
        } else {
            &self.blank
        }
    }

    /// Decodes a byte written to a palette register.
    pub fn palette_from_byte(byte: u8) -> (palette: [Color; 4])
        ensures
            palette@ == palette_of(byte),
    {
        let palette = [
            decode_color(byte & 0x03),
            decode_color((byte >> 2) & 0x03),
            decode_color((byte >> 4) & 0x03),
            decode_color((byte >> 6) & 0x03),
        ];
        assert(palette@ =~= palette_of(byte));
        palette
    }

    /// The status register as software reads it.
    pub fn stat_as_byte(&self) -> (byte: u8)
        ensures
            byte == self@.status_byte(),
    {
        let mode: u8 = match self.mode {
            PpuMode::HBlank => 0,
            PpuMode::VBlank => 1,
            PpuMode::InOam => 2,
            PpuMode::InVram => 3,
        };
        let coincidence: u8 = if self.lyc == self.current_line {
            0x04
        } else {
            0
        };
        mode | coincidence | (self.stat & 0x78)
    }

    /// Takes a byte written to the status register.
    pub fn stat_from_byte(&mut self, byte: u8)
        ensures
            final(self)@ == old(self)@.with_status_byte(byte),
            old(self).wf() ==> final(self).wf(),
    {
        self.stat = byte;
    }
}

proof fn lemma_status_bits(mode: u8, coincidence: bool, written: u8)
    by (bit_vector)
    requires
        mode <= 3,
    ensures
        status_bits(mode, coincidence, written) & 0x03 == mode,
        (status_bits(mode, coincidence, written) & 0x04 != 0) == coincidence,
        status_bits(mode, coincidence, written) & 0x78 == written & 0x78,
        status_bits(mode, coincidence, written) & 0x80 == 0,
        (status_bits(mode, coincidence, written) & 0x08 != 0) == (written & 0x08 != 0),
        (status_bits(mode, coincidence, written) & 0x10 != 0) == (written & 0x10 != 0),
        (status_bits(mode, coincidence, written) & 0x20 != 0) == (written & 0x20 != 0),
        (status_bits(mode, coincidence, written) & 0x40 != 0) == (written & 0x40 != 0),
{
}

/// Of a byte written to the status register, bits 3 to 6 read back as
/// written; the mode and the coincidence bit come from the PPU itself and
/// bit 7 reads as zero; and writing the register with what it reads leaves
/// every interrupt enable as it was.
pub proof fn lemma_status_round_trip(ppu: PpuView, byte: u8, mask: u8)
    requires
        mask == 0x08 || mask == 0x10 || mask == 0x20 || mask == 0x40,
    ensures
        ppu.with_status_byte(byte).status_byte() & 0x78 == byte & 0x78,
        ppu.with_status_byte(byte).status_byte() & 0x03 == mode_bits(ppu.mode),
        (ppu.with_status_byte(byte).status_byte() & 0x04 != 0) == (ppu.lyc == ppu.current_line),
        ppu.with_status_byte(byte).status_byte() & 0x80 == 0,
        ppu.with_status_byte(byte).stat_enabled(mask) == (byte & mask != 0),
        ppu.with_status_byte(ppu.status_byte()).stat_enabled(mask) == ppu.stat_enabled(mask),
        ppu.with_status_byte(ppu.status_byte()).status_byte() == ppu.status_byte(),
{
    let m = mode_bits(ppu.mode);
    let c = ppu.lyc == ppu.current_line;
    lemma_status_bits(m, c, byte);
    lemma_status_bits(m, c, ppu.stat);
    lemma_status_bits(m, c, ppu.status_byte());
    assert(status_bits(m, c, ppu.status_byte()) == ppu.status_byte()) by {
        lemma_status_idempotent(m, c, ppu.stat);
    }
}

proof fn lemma_status_idempotent(mode: u8, coincidence: bool, written: u8)
    by (bit_vector)
    requires
        mode <= 3,
    ensures
        status_bits(mode, coincidence, status_bits(mode, coincidence, written)) == status_bits(
            mode,
            coincidence,
            written,
        ),
{
}

proof fn lemma_shade_bits_pack(byte: u8)
    by (bit_vector)
    ensures
        shade_bits(byte & 0x03, (byte >> 2) & 0x03, (byte >> 4) & 0x03, (byte >> 6) & 0x03)
            == byte,
        byte & 0x03 <= 3,
        (byte >> 2) & 0x03 <= 3,
        (byte >> 4) & 0x03 <= 3,
        (byte >> 6) & 0x03 <= 3,
{
}

proof fn lemma_shade_bits_unpack(s0: u8, s1: u8, s2: u8, s3: u8)
    by (bit_vector)
    requires
        s0 <= 3,
        s1 <= 3,
        s2 <= 3,
        s3 <= 3,
    ensures
        shade_bits(s0, s1, s2, s3) & 0x03 == s0,
        (shade_bits(s0, s1, s2, s3) >> 2) & 0x03 == s1,
        (shade_bits(s0, s1, s2, s3) >> 4) & 0x03 == s2,
        (shade_bits(s0, s1, s2, s3) >> 6) & 0x03 == s3,
{
}

/// A palette byte and the four shades it selects stand for each other: the
/// byte of a decoded palette is the byte that was decoded, and decoding the
/// byte of four shades gives the four shades.
pub proof fn lemma_palette_round_trip(byte: u8, palette: Seq<Color>)
    requires
        palette.len() == 4,
        forall|i: int| 0 <= i < 4 ==> palette[i] == ramp(ramp_index(#[trigger] palette[i])),
    ensures
        palette_byte(palette_of(byte)) == byte,
        palette_of(palette_byte(palette)) == palette,
{
    lemma_shade_bits_pack(byte);
    lemma_shade_bits_unpack(
        ramp_index(palette[0]),
        ramp_index(palette[1]),
        ramp_index(palette[2]),
        ramp_index(palette[3]),
    );
    assert(palette_of(palette_byte(palette)) =~= palette);
}

} // verus!
