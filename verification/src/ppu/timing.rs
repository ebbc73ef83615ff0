//! The mode state machine and its clock.
//!
//! A line of the screen takes 114 machine cycles: 20 of sprite table scan,
//! 43 of pixel transfer, 51 of horizontal blank. After line 143 follow ten
//! lines of vertical blank, 114 machine cycles each.

use vstd::prelude::*;
use crate::interrupts::{Interrupt, InterruptQueue};
use crate::ppu::{
    Ppu, PpuMode, PpuView, FRAME_LINES, HBLANK_CYCLES, OAM_ACCESS_CYCLES, SCANLINE_CYCLES,
    SCREEN_HEIGHT, VRAM_ACCESS_CYCLES,
};

verus! {

/// Machine cycles of a whole frame.
pub const FRAME_CYCLES: u32 = 17556;

impl PpuView {
    /// The PPU and the interrupt requests after the current mode has run its
    /// full time and the PPU has gone over to the next one.
    ///
    /// The end of the sprite table scan, the end of the pixel transfer, the
    /// start of vertical blank and a line of vertical blank that coincides
    /// with the line compare register each request the LCD interrupt, if the
    /// status register enables it for that event. The end of the pixel
    /// transfer draws the line. The start of vertical blank requests the
    /// vertical blank interrupt.
    pub open spec fn advanced(self, interrupts: InterruptQueue) -> (PpuView, InterruptQueue) {
        let cycles = self.cycles - self.duration();
        match self.mode {
            PpuMode::InOam => (
                PpuView { cycles, mode: PpuMode::InVram, ..self },
                interrupts.request_if(self.stat_enabled(0x20), Interrupt::Lcd),
            ),
            PpuMode::InVram => (
                PpuView { cycles, mode: PpuMode::HBlank, framebuffer: self.rendered(), ..self },
                interrupts.request_if(self.stat_enabled(0x08), Interrupt::Lcd),
            ),
            PpuMode::HBlank => if self.current_line + 1 == SCREEN_HEIGHT {
                (
                    PpuView {
                        cycles,
                        mode: PpuMode::VBlank,
                        current_line: (self.current_line + 1) as u8,
                        ..self
                    },
                    interrupts.with_request(Interrupt::VBlank, true).request_if(
                        self.stat_enabled(0x10),
                        Interrupt::Lcd,
                    ),
                )
            } else {
                (
                    PpuView {
                        cycles,
                        mode: PpuMode::InOam,
                        current_line: (self.current_line + 1) as u8,
                        ..self
                    },
                    interrupts,
                )
            },
            PpuMode::VBlank => {
                let last = self.current_line + 1 == FRAME_LINES;
                let line = if last {
                    0u8
                } else {
                    (self.current_line + 1) as u8
                };
                (
                    PpuView {
                        cycles,
                        mode: if last {
                            PpuMode::InOam
                        } else {
                            PpuMode::VBlank
                        },
                        current_line: line,
                        ..self
                    },
                    interrupts.request_if(
                        self.stat_enabled(0x40) && line == self.lyc,
                        Interrupt::Lcd,
                    ),
                )
            },
        }
    }

    /// The PPU and the interrupt requests once every mode that has run its
    /// full time has been left.
    pub open spec fn settled(self, interrupts: InterruptQueue) -> (PpuView, InterruptQueue)
        decreases self.cycles,
    {
        if self.cycles >= self.duration() {
            let (next, raised) = self.advanced(interrupts);
            next.settled(raised)
        } else {
            (self, interrupts)
        }
    }

    /// The PPU and the interrupt requests after `cycles` machine cycles.
    /// While the LCD is off nothing moves.
    pub open spec fn stepped(self, cycles: u32, interrupts: InterruptQueue) -> (
        PpuView,
        InterruptQueue,
    ) {
        if self.lcd_on() {
            (PpuView { cycles: self.cycles + cycles, ..self }).settled(interrupts)
        } else {
            (self, interrupts)
        }
    }

    /// Whether the mode fits the line: vertical blank on the lines below the
    /// screen and nowhere else. It does unless software reset the line
    /// counter in the middle of vertical blank.
    pub open spec fn aligned(self) -> bool {
        &&& self.current_line < FRAME_LINES
        &&& (self.mode == PpuMode::VBlank) == (self.current_line >= SCREEN_HEIGHT)
        &&& 0 <= self.cycles
    }

    /// Machine cycles since the frame began.
    pub open spec fn position(self) -> int {
        self.current_line * SCANLINE_CYCLES + self.cycles + match self.mode {
            PpuMode::InOam => 0,
            PpuMode::InVram => OAM_ACCESS_CYCLES as int,
            PpuMode::HBlank => OAM_ACCESS_CYCLES + VRAM_ACCESS_CYCLES,
            PpuMode::VBlank => 0,
        }
    }
}

impl Ppu {
    /// Machine cycles that the current mode lasts.
    pub fn mode_cycles(&self) -> (cycles: u32)
        ensures
            cycles == self@.duration(),
    {
        match self.mode {
            PpuMode::InOam => OAM_ACCESS_CYCLES,
            PpuMode::InVram => VRAM_ACCESS_CYCLES,
            PpuMode::HBlank => HBLANK_CYCLES,
            PpuMode::VBlank => SCANLINE_CYCLES,
        }
    }

    /// Leaves the current mode for the next one.
    fn advance(&mut self, interrupts: &mut InterruptQueue)
        requires
            old(self).current_line < FRAME_LINES,
            old(self).mode != PpuMode::VBlank ==> old(self).current_line < SCREEN_HEIGHT,
        ensures
            (PpuView { cycles: final(self)@.cycles - old(self)@.duration(), ..final(self)@ })
                == old(self)@.advanced(*old(interrupts)).0,
            *final(interrupts) == old(self)@.advanced(*old(interrupts)).1,
            final(self).current_line < FRAME_LINES,
            final(self).mode != PpuMode::VBlank ==> final(self).current_line < SCREEN_HEIGHT,
            final(self).cycles == old(self).cycles,
    {
        match self.mode {
            PpuMode::InOam => {
                self.mode = PpuMode::InVram;
                if (self.stat & 0x20) != 0 {
                    interrupts.request_interrupt(Interrupt::Lcd);
                }
            },
            PpuMode::InVram => {
                self.render_scanline();
                self.mode = PpuMode::HBlank;
                if (self.stat & 0x08) != 0 {
                    interrupts.request_interrupt(Interrupt::Lcd);
                }
            },
            PpuMode::HBlank => {
                self.current_line += 1;
                if self.current_line as usize == SCREEN_HEIGHT {
                    self.mode = PpuMode::VBlank;
                    interrupts.request_interrupt(Interrupt::VBlank);
                    if (self.stat & 0x10) != 0 {
                        interrupts.request_interrupt(Interrupt::Lcd);
                    }
                } else {
                    self.mode = PpuMode::InOam;
                }
            },
            PpuMode::VBlank => {
                self.current_line += 1;
                if self.current_line == FRAME_LINES {
                    self.current_line = 0;
                    self.mode = PpuMode::InOam;
                }
                if (self.stat & 0x40) != 0 && self.current_line == self.lyc {
                    interrupts.request_interrupt(Interrupt::Lcd);
                }
            },
        }
    }

    /// Lets `cycles` machine cycles pass: the PPU walks through as many
    /// modes as fit into them, draws the lines whose pixel transfer ends,
    /// and requests the interrupts that fall due. While the LCD is off
    /// nothing happens.
    pub fn step(&mut self, cycles: u32, interrupts: &mut InterruptQueue)
        requires
            old(self).wf(),
        ensures
            final(self).wf(),
            final(self)@ == old(self)@.stepped(cycles, *old(interrupts)).0,
            *final(interrupts) == old(self)@.stepped(cycles, *old(interrupts)).1,
    {
        if !self.lcd_on() {
            return ;
        }
        let mut total: u64 = self.cycles as u64 + cycles as u64;
        let ghost target = old(self)@.stepped(cycles, *old(interrupts));
        while total >= self.mode_cycles() as u64
            invariant
                self.current_line < FRAME_LINES,
                self.mode != PpuMode::VBlank ==> self.current_line < SCREEN_HEIGHT,
                old(self).wf(),
                (PpuView { cycles: total as int, ..self@ }).settled(*interrupts) == target,
            decreases total,
        {
            total = total - self.mode_cycles() as u64;
            self.advance(interrupts);
        }
        self.cycles = total as u32;
    }
}

/// Leaving a mode keeps the PPU aligned and moves its position by a whole
/// number of frames: by none, or back by one where line 153 ends.
proof fn lemma_advance_position(ppu: PpuView, interrupts: InterruptQueue)
    requires
        ppu.aligned(),
        ppu.cycles >= ppu.duration(),
    ensures
        ppu.advanced(interrupts).0.aligned(),
        ppu.advanced(interrupts).0.position() == ppu.position() || ppu.advanced(
            interrupts,
        ).0.position() == ppu.position() - FRAME_CYCLES,
        ppu.advanced(interrupts).0.control == ppu.control,
{
}

proof fn lemma_settled_position(ppu: PpuView, interrupts: InterruptQueue)
    requires
        ppu.aligned(),
    ensures
        ppu.settled(interrupts).0.aligned(),
        ppu.settled(interrupts).0.cycles < ppu.settled(interrupts).0.duration(),
        ppu.settled(interrupts).0.position() == ppu.position() % (FRAME_CYCLES as int),
        ppu.settled(interrupts).0.control == ppu.control,
    decreases ppu.cycles,
{
    if ppu.cycles >= ppu.duration() {
        let (next, raised) = ppu.advanced(interrupts);
        lemma_advance_position(ppu, interrupts);
        lemma_settled_position(next, raised);
    }
}

/// The PPU keeps time. As long as the LCD is on, the position within the
/// frame moves on by exactly the machine cycles that pass, and starts again
/// at zero after 17556 of them.
pub proof fn lemma_step_keeps_time(ppu: PpuView, cycles: u32, interrupts: InterruptQueue)
    requires
        ppu.aligned(),
        ppu.lcd_on(),
    ensures
        ppu.stepped(cycles, interrupts).0.aligned(),
        ppu.stepped(cycles, interrupts).0.cycles < ppu.stepped(cycles, interrupts).0.duration(),
        ppu.stepped(cycles, interrupts).0.position() == (ppu.position() + cycles) % (
        FRAME_CYCLES as int),
{
    lemma_settled_position(PpuView { cycles: ppu.cycles + cycles, ..ppu }, interrupts);
}

/// The position within the frame tells the line and the mode: every line
/// takes 114 machine cycles, lines 0 to 153 follow each other, and on the
/// first 144 of them the sprite table scan takes the first 20 machine
/// cycles, the pixel transfer the next 43 and horizontal blank the last 51.
pub proof fn lemma_position_tells_line(ppu: PpuView)
    requires
        ppu.aligned(),
        ppu.cycles < ppu.duration(),
    ensures
        0 <= ppu.position() < FRAME_CYCLES,
        ppu.current_line == ppu.position() / (SCANLINE_CYCLES as int),
        ppu.current_line >= SCREEN_HEIGHT ==> ppu.mode == PpuMode::VBlank && ppu.cycles
            == ppu.position() % (SCANLINE_CYCLES as int),
        ppu.current_line < SCREEN_HEIGHT ==> {
            let offset = ppu.position() % (SCANLINE_CYCLES as int);
            if offset < OAM_ACCESS_CYCLES {
                ppu.mode == PpuMode::InOam && ppu.cycles == offset
            } else if offset < OAM_ACCESS_CYCLES + VRAM_ACCESS_CYCLES {
                ppu.mode == PpuMode::InVram && ppu.cycles == offset - OAM_ACCESS_CYCLES
            } else {
                ppu.mode == PpuMode::HBlank && ppu.cycles == offset - OAM_ACCESS_CYCLES
                    - VRAM_ACCESS_CYCLES
            }
        },
{
}

/// Exactly 114 machine cycles after any moment the PPU is as far into the
/// next line as it was into this one, and line 0 follows line 153.
pub proof fn lemma_scanline_takes_114_cycles(ppu: PpuView, interrupts: InterruptQueue)
    requires
        ppu.aligned(),
        ppu.cycles < ppu.duration(),
        ppu.lcd_on(),
    ensures
        ({
            let after = ppu.stepped(SCANLINE_CYCLES, interrupts).0;
            &&& after.current_line == (ppu.current_line + 1) % (FRAME_LINES as int)
            &&& after.position() % (SCANLINE_CYCLES as int) == ppu.position() % (
            SCANLINE_CYCLES as int)
            &&& (after.current_line < SCREEN_HEIGHT) == (ppu.current_line < SCREEN_HEIGHT)
                ==> after.mode == ppu.mode && after.cycles == ppu.cycles
        }),
{
    let after = ppu.stepped(SCANLINE_CYCLES, interrupts).0;
    lemma_step_keeps_time(ppu, SCANLINE_CYCLES, interrupts);
    lemma_position_tells_line(ppu);
    lemma_position_tells_line(after);
    let p = ppu.position();
    if p + SCANLINE_CYCLES < FRAME_CYCLES {
        assert(after.position() == p + SCANLINE_CYCLES);
    } else {
        assert(after.position() == p + SCANLINE_CYCLES - FRAME_CYCLES);
    }
}

/// Two moments at the same position of the frame are on the same line, in
/// the same mode, equally far into it.
proof fn lemma_position_tells_place(a: PpuView, b: PpuView)
    requires
        a.aligned(),
        a.cycles < a.duration(),
        b.aligned(),
        b.cycles < b.duration(),
        a.position() == b.position(),
    ensures
        a.current_line == b.current_line,
        a.mode == b.mode,
        a.cycles == b.cycles,
{
    lemma_position_tells_line(a);
    lemma_position_tells_line(b);
}

/// Exactly 17556 machine cycles after any moment the PPU is at the same
/// place of the same line again.
pub proof fn lemma_frame_takes_17556_cycles(ppu: PpuView, interrupts: InterruptQueue)
    requires
        ppu.aligned(),
        ppu.cycles < ppu.duration(),
        ppu.lcd_on(),
    ensures
        ({
            let after = ppu.stepped(FRAME_CYCLES, interrupts).0;
            &&& after.current_line == ppu.current_line
            &&& after.mode == ppu.mode
            &&& after.cycles == ppu.cycles
        }),
{
    let after = ppu.stepped(FRAME_CYCLES, interrupts).0;
    lemma_step_keeps_time(ppu, FRAME_CYCLES, interrupts);
    assert(0 <= ppu.position() < FRAME_CYCLES) by {
        lemma_position_tells_line(ppu);
    }
    assert(after.position() == ppu.position());
    lemma_position_tells_place(after, ppu);
}

/// Running out the modes that are over, then letting time pass and running
/// them out again, comes to the same as letting the time pass first.
proof fn lemma_settle_in_parts(ppu: PpuView, later: int, interrupts: InterruptQueue)
    requires
        0 <= ppu.cycles,
        0 <= later,
    ensures
        ({
            let (settled, raised) = ppu.settled(interrupts);
            &&& settled.control == ppu.control
            &&& (PpuView { cycles: settled.cycles + later, ..settled }).settled(raised) == (PpuView {
                cycles: ppu.cycles + later,
                ..ppu
            }).settled(interrupts)
        }),
    decreases ppu.cycles,
{
    if ppu.cycles >= ppu.duration() {
        let (next, raised) = ppu.advanced(interrupts);
        let moved = PpuView { cycles: ppu.cycles + later, ..ppu };
        assert(moved.scene() == ppu.scene());
        assert(moved.advanced(interrupts) == (
            PpuView { cycles: next.cycles + later, ..next },
            raised,
        ));
        lemma_settle_in_parts(next, later, raised);
    }
}

/// Time may be handed to the PPU in pieces: two steps in a row draw the
/// same lines, request the same interrupts and end in the same place as one
/// step of their sum.
pub proof fn lemma_steps_add(ppu: PpuView, first: u32, second: u32, interrupts: InterruptQueue)
    requires
        first + second <= u32::MAX,
        0 <= ppu.cycles,
    ensures
        ({
            let (after, raised) = ppu.stepped(first, interrupts);
            after.stepped(second, raised) == ppu.stepped((first + second) as u32, interrupts)
        }),
{
    if ppu.lcd_on() {
        lemma_settle_in_parts(PpuView { cycles: ppu.cycles + first, ..ppu }, second as int, interrupts);
    }
}

} // verus!
