//! The LCD control register.

use vstd::prelude::*;
use crate::bits::mask_if;

verus! {

/// The eight switches of the LCD control register, bit 0 first.
#[derive(Debug, Clone, Copy, PartialEq, Eq, Structural)]
pub struct PpuControl {
    pub bg_on: bool,
    pub obj_on: bool,
    pub obj_long_blocks: bool,
    pub bg_use_upper_map: bool,
    pub tile_ram_unsigned_mode: bool,
    pub window_on: bool,
    pub window_use_upper_map: bool,
    pub lcd_on: bool,
}

/// Eight switches packed into a byte, the first in bit 0.
pub open spec fn switch_bits(
    b0: bool,
    b1: bool,
    b2: bool,
    b3: bool,
    b4: bool,
    b5: bool,
    b6: bool,
    b7: bool,
) -> u8 {
    mask_if(b0, 0x01) | mask_if(b1, 0x02) | mask_if(b2, 0x04) | mask_if(b3, 0x08) | mask_if(
        b4,
        0x10,
    ) | mask_if(b5, 0x20) | mask_if(b6, 0x40) | mask_if(b7, 0x80)
}

impl PpuControl {
    /// The switches that `byte` stands for: switch `n` is on exactly when
    /// bit `n` is set.
    pub open spec fn decoded(byte: u8) -> PpuControl {
        PpuControl {
            bg_on: byte & 0x01 != 0,
            obj_on: byte & 0x02 != 0,
            obj_long_blocks: byte & 0x04 != 0,
            bg_use_upper_map: byte & 0x08 != 0,
            tile_ram_unsigned_mode: byte & 0x10 != 0,
            window_on: byte & 0x20 != 0,
            window_use_upper_map: byte & 0x40 != 0,
            lcd_on: byte & 0x80 != 0,
        }
    }

    /// The register byte of these switches.
    pub open spec fn encoded(self) -> u8 {
        switch_bits(
            self.bg_on,
            self.obj_on,
            self.obj_long_blocks,
            self.bg_use_upper_map,
            self.tile_ram_unsigned_mode,
            self.window_on,
            self.window_use_upper_map,
            self.lcd_on,
        )
    }

    /// Decodes a byte written to the register.
    pub fn from_byte(byte: u8) -> (control: PpuControl)
        ensures
            control == PpuControl::decoded(byte),
    {
        PpuControl {
            bg_on: (byte & 0x01) != 0,
            obj_on: (byte & 0x02) != 0,
            obj_long_blocks: (byte & 0x04) != 0,
            bg_use_upper_map: (byte & 0x08) != 0,
            tile_ram_unsigned_mode: (byte & 0x10) != 0,
            window_on: (byte & 0x20) != 0,
            window_use_upper_map: (byte & 0x40) != 0,
            lcd_on: (byte & 0x80) != 0,
        }
    }

    /// The register as software reads it.
    pub fn as_byte(&self) -> (byte: u8)
        ensures
            byte == self.encoded(),
    {
        let b0: u8 = if self.bg_on { 0x01 } else { 0 };
        let b1: u8 = if self.obj_on { 0x02 } else { 0 };
        let b2: u8 = if self.obj_long_blocks { 0x04 } else { 0 };
        let b3: u8 = if self.bg_use_upper_map { 0x08 } else { 0 };
        let b4: u8 = if self.tile_ram_unsigned_mode { 0x10 } else { 0 };
        let b5: u8 = if self.window_on { 0x20 } else { 0 };
        let b6: u8 = if self.window_use_upper_map { 0x40 } else { 0 };
        let b7: u8 = if self.lcd_on { 0x80 } else { 0 };
        b0 | b1 | b2 | b3 | b4 | b5 | b6 | b7
    }
}

proof fn lemma_switch_bits_unpack(
    b0: bool,
    b1: bool,
    b2: bool,
    b3: bool,
    b4: bool,
    b5: bool,
    b6: bool,
    b7: bool,
)
    by (bit_vector)
    ensures
        (switch_bits(b0, b1, b2, b3, b4, b5, b6, b7) & 0x01 != 0) == b0,
        (switch_bits(b0, b1, b2, b3, b4, b5, b6, b7) & 0x02 != 0) == b1,
        (switch_bits(b0, b1, b2, b3, b4, b5, b6, b7) & 0x04 != 0) == b2,
        (switch_bits(b0, b1, b2, b3, b4, b5, b6, b7) & 0x08 != 0) == b3,
        (switch_bits(b0, b1, b2, b3, b4, b5, b6, b7) & 0x10 != 0) == b4,
        (switch_bits(b0, b1, b2, b3, b4, b5, b6, b7) & 0x20 != 0) == b5,
        (switch_bits(b0, b1, b2, b3, b4, b5, b6, b7) & 0x40 != 0) == b6,
        (switch_bits(b0, b1, b2, b3, b4, b5, b6, b7) & 0x80 != 0) == b7,
{
}

proof fn lemma_switch_bits_pack(byte: u8)
    by (bit_vector)
    ensures
        switch_bits(
            byte & 0x01 != 0,
            byte & 0x02 != 0,
            byte & 0x04 != 0,
            byte & 0x08 != 0,
            byte & 0x10 != 0,
            byte & 0x20 != 0,
            byte & 0x40 != 0,
            byte & 0x80 != 0,
        ) == byte,
{
}

/// The register and its switches stand for each other: decoding a byte and
/// encoding the switches gives the byte back, and the other way round.
pub proof fn lemma_control_round_trip(byte: u8, control: PpuControl)
    ensures
        PpuControl::decoded(byte).encoded() == byte,
        PpuControl::decoded(control.encoded()) == control,
{
    lemma_switch_bits_pack(byte);
    lemma_switch_bits_unpack(
        control.bg_on,
        control.obj_on,
        control.obj_long_blocks,
        control.bg_use_upper_map,
        control.tile_ram_unsigned_mode,
        control.window_on,
        control.window_use_upper_map,
        control.lcd_on,
    );
}

} // verus!
