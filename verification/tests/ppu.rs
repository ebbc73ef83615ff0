use feox::interrupts::InterruptQueue;
use feox::ppu::control::PpuControl;
use feox::ppu::{decode_color, Ppu, PpuMode, FRAMEBUFFER_SIZE};

const COLOR0: (u8, u8, u8) = (0xE0, 0xF8, 0xD0);
const COLOR1: (u8, u8, u8) = (0x88, 0xC0, 0x70);
const COLOR2: (u8, u8, u8) = (0x34, 0x68, 0x56);
const COLOR3: (u8, u8, u8) = (0x08, 0x18, 0x20);

fn pixel(ppu: &Ppu, x: usize, y: usize) -> (u8, u8, u8) {
    let image = ppu.framebuffer();
    let base = (y * 160 + x) * 3;
    (image[base], image[base + 1], image[base + 2])
}

/// A PPU with the LCD on and the identity palette everywhere.
fn lit(control: u8) -> Ppu {
    let mut ppu = Ppu::new();
    ppu.control_from_byte(control);
    ppu.set_palette(0xE4);
    ppu.set_obj_palette0(0xE4);
    ppu.set_obj_palette1(0xE4);
    ppu
}

fn set_sprite(ppu: &mut Ppu, index: usize, y: u8, x: u8, tile: u8, attributes: u8) {
    ppu.oam[index * 4] = y;
    ppu.oam[index * 4 + 1] = x;
    ppu.oam[index * 4 + 2] = tile;
    ppu.oam[index * 4 + 3] = attributes;
}

/// Fills all rows of a tile with the same two bytes.
fn set_tile(ppu: &mut Ppu, address: usize, byte1: u8, byte2: u8, rows: usize) {
    for row in 0..rows {
        ppu.vram[address + row * 2] = byte1;
        ppu.vram[address + row * 2 + 1] = byte2;
    }
}

fn render_line(ppu: &mut Ppu) {
    let mut interrupts = InterruptQueue::new();
    ppu.step(63, &mut interrupts);
}

#[test]
fn control_byte_round_trip() {
    for byte in 0..=255u8 {
        assert_eq!(PpuControl::from_byte(byte).as_byte(), byte);
    }
    let control = PpuControl::from_byte(0x91);
    assert!(control.lcd_on);
    assert!(control.tile_ram_unsigned_mode);
    assert!(control.bg_on);
    assert!(!control.obj_on);
    assert!(!control.obj_long_blocks);
    assert!(!control.bg_use_upper_map);
    assert!(!control.window_on);
    assert!(!control.window_use_upper_map);
}

#[test]
fn control_register_reads_back() {
    let mut ppu = Ppu::new();
    for byte in [0x00u8, 0x80, 0x91, 0xFF, 0x7F] {
        ppu.control_from_byte(byte);
        assert_eq!(ppu.control_as_byte(), byte);
        assert_eq!(ppu.control(), PpuControl::from_byte(byte));
        assert_eq!(ppu.lcd_on(), byte & 0x80 != 0);
    }
}

#[test]
fn palette_byte_selects_four_shades() {
    assert_eq!(decode_color(0), COLOR0);
    assert_eq!(decode_color(1), COLOR1);
    assert_eq!(decode_color(2), COLOR2);
    assert_eq!(decode_color(3), COLOR3);
    assert_eq!(Ppu::palette_from_byte(0xE4), [COLOR0, COLOR1, COLOR2, COLOR3]);
    assert_eq!(Ppu::palette_from_byte(0x1B), [COLOR3, COLOR2, COLOR1, COLOR0]);
    assert_eq!(Ppu::palette_from_byte(0x00), [COLOR0; 4]);
    assert_eq!(Ppu::palette_from_byte(0xFF), [COLOR3; 4]);
}

#[test]
fn new_ppu_shows_the_blank_image() {
    let ppu = Ppu::new();
    let image = ppu.framebuffer();
    assert_eq!(image.len(), FRAMEBUFFER_SIZE);
    assert_eq!(image.len(), 160 * 144 * 3);
    assert!(image.iter().all(|&byte| byte == 0x05));
    assert_eq!(ppu.current_line(), 0);
    assert_eq!(ppu.palette, [COLOR0; 4]);
}

#[test]
fn lcd_off_hides_the_framebuffer() {
    let mut ppu = lit(0x91);
    ppu.vram[0x1800] = 1;
    set_tile(&mut ppu, 0x10, 0xFF, 0xFF, 8);
    render_line(&mut ppu);
    assert_eq!(pixel(&ppu, 0, 0), COLOR3);
    ppu.control_from_byte(0x11);
    assert!(ppu.framebuffer().iter().all(|&byte| byte == 0x05));
    ppu.control_from_byte(0x91);
    assert_eq!(pixel(&ppu, 0, 0), COLOR3);
}

#[test]
fn stepping_with_the_lcd_off_does_nothing() {
    let mut ppu = Ppu::new();
    let mut interrupts = InterruptQueue::new();
    ppu.step(100_000, &mut interrupts);
    assert_eq!(ppu.current_line(), 0);
    assert_eq!(ppu.cycles, 0);
    assert_eq!(ppu.mode, PpuMode::InOam);
    assert_eq!(interrupts.as_byte(), 0);
}

#[test]
fn switching_the_lcd_off_resets_line_and_mode() {
    let mut ppu = lit(0x80);
    let mut interrupts = InterruptQueue::new();
    ppu.step(114 * 7 + 30, &mut interrupts);
    assert_eq!(ppu.current_line(), 7);
    ppu.control_from_byte(0x00);
    assert_eq!(ppu.current_line(), 0);
    assert_eq!(ppu.cycles, 0);
    assert_eq!(ppu.mode, PpuMode::HBlank);
    assert_eq!(ppu.stat_as_byte() & 0x03, 0);
}

#[test]
fn modes_last_20_43_and_51_machine_cycles() {
    let mut ppu = lit(0x80);
    let mut interrupts = InterruptQueue::new();
    assert_eq!(ppu.stat_as_byte() & 0x03, 2);
    ppu.step(19, &mut interrupts);
    assert_eq!(ppu.stat_as_byte() & 0x03, 2);
    ppu.step(1, &mut interrupts);
    assert_eq!(ppu.stat_as_byte() & 0x03, 3);
    ppu.step(42, &mut interrupts);
    assert_eq!(ppu.stat_as_byte() & 0x03, 3);
    ppu.step(1, &mut interrupts);
    assert_eq!(ppu.stat_as_byte() & 0x03, 0);
    ppu.step(50, &mut interrupts);
    assert_eq!(ppu.stat_as_byte() & 0x03, 0);
    assert_eq!(ppu.current_line(), 0);
    ppu.step(1, &mut interrupts);
    assert_eq!(ppu.stat_as_byte() & 0x03, 2);
    assert_eq!(ppu.current_line(), 1);
    assert_eq!(interrupts.as_byte(), 0);
}

#[test]
fn every_line_takes_114_machine_cycles() {
    let mut ppu = lit(0x80);
    let mut interrupts = InterruptQueue::new();
    for line in 0..154u32 {
        assert_eq!(ppu.current_line() as u32, line);
        ppu.step(113, &mut interrupts);
        assert_eq!(ppu.current_line() as u32, line);
        ppu.step(1, &mut interrupts);
    }
    assert_eq!(ppu.current_line(), 0);
    assert_eq!(ppu.mode, PpuMode::InOam);
    assert_eq!(ppu.cycles, 0);
}

#[test]
fn vertical_blank_starts_at_line_144() {
    let mut ppu = lit(0x80);
    let mut interrupts = InterruptQueue::new();
    ppu.step(114 * 144 - 1, &mut interrupts);
    assert_eq!(ppu.current_line(), 143);
    assert_eq!(interrupts.as_byte(), 0x00);
    ppu.step(1, &mut interrupts);
    assert_eq!(ppu.current_line(), 144);
    assert_eq!(ppu.stat_as_byte() & 0x03, 1);
    assert_eq!(interrupts.as_byte(), 0x01);
    ppu.step(114 * 10 - 1, &mut interrupts);
    assert_eq!(ppu.current_line(), 153);
    ppu.step(1, &mut interrupts);
    assert_eq!(ppu.current_line(), 0);
    assert_eq!(ppu.stat_as_byte() & 0x03, 2);
}

#[test]
fn a_frame_takes_17556_machine_cycles() {
    let mut ppu = lit(0x80);
    let mut interrupts = InterruptQueue::new();
    ppu.step(1234, &mut interrupts);
    let line = ppu.current_line();
    let mode = ppu.mode;
    let cycles = ppu.cycles;
    for _ in 0..3 {
        ppu.step(17_556, &mut interrupts);
        assert_eq!(ppu.current_line(), line);
        assert_eq!(ppu.mode, mode);
        assert_eq!(ppu.cycles, cycles);
    }
    ppu.step(17_556 * 100, &mut interrupts);
    assert_eq!(ppu.current_line(), line);
    assert_eq!(ppu.mode, mode);
    assert_eq!(ppu.cycles, cycles);
}

#[test]
fn status_interrupts_follow_their_enables() {
    let mut interrupts = InterruptQueue::new();
    let mut ppu = lit(0x80);
    ppu.stat_from_byte(0x20);
    ppu.step(20, &mut interrupts);
    assert_eq!(interrupts.as_byte(), 0x02);

    interrupts.from_byte(0);
    let mut ppu = lit(0x80);
    ppu.stat_from_byte(0x08);
    ppu.step(62, &mut interrupts);
    assert_eq!(interrupts.as_byte(), 0x00);
    ppu.step(1, &mut interrupts);
    assert_eq!(interrupts.as_byte(), 0x02);

    interrupts.from_byte(0);
    let mut ppu = lit(0x80);
    ppu.stat_from_byte(0x10);
    ppu.step(114 * 144, &mut interrupts);
    assert_eq!(interrupts.as_byte(), 0x03);

    interrupts.from_byte(0);
    let mut ppu = lit(0x80);
    ppu.stat_from_byte(0x40);
    ppu.set_line_compare(150);
    ppu.step(114 * 149, &mut interrupts);
    assert_eq!(interrupts.as_byte(), 0x01);
    ppu.step(114, &mut interrupts);
    assert_eq!(ppu.current_line(), 150);
    assert_eq!(interrupts.as_byte(), 0x03);
}

#[test]
fn line_compare_at_zero_fires_when_the_frame_wraps() {
    let mut interrupts = InterruptQueue::new();
    let mut ppu = lit(0x80);
    ppu.stat_from_byte(0x40);
    ppu.step(114 * 153, &mut interrupts);
    assert_eq!(interrupts.as_byte(), 0x01);
    ppu.step(114, &mut interrupts);
    assert_eq!(ppu.current_line(), 0);
    assert_eq!(interrupts.as_byte(), 0x03);
}

#[test]
fn status_register_round_trip() {
    let mut ppu = lit(0x80);
    ppu.stat_from_byte(0xFF);
    assert_eq!(ppu.stat_as_byte(), 0x7E);
    ppu.stat_from_byte(0x00);
    assert_eq!(ppu.stat_as_byte(), 0x06);
    ppu.set_line_compare(9);
    assert_eq!(ppu.stat_as_byte(), 0x02);
    for byte in 0..=255u8 {
        ppu.stat_from_byte(byte);
        assert_eq!(ppu.stat_as_byte() & 0x78, byte & 0x78);
        assert_eq!(ppu.stat_as_byte() & 0x87, 0x02);
    }
}

#[test]
fn video_memory_is_closed_during_pixel_transfer() {
    let mut ppu = lit(0x80);
    let mut interrupts = InterruptQueue::new();
    ppu.write_vram(0x0100, 0x12);
    assert_eq!(ppu.read_vram(0x0100), 0x12);
    ppu.step(20, &mut interrupts);
    assert_eq!(ppu.read_vram(0x0100), 0xFF);
    ppu.write_vram(0x0100, 0x34);
    ppu.step(43, &mut interrupts);
    assert_eq!(ppu.read_vram(0x0100), 0x12);
    ppu.write_vram(0x0100, 0x56);
    assert_eq!(ppu.read_vram(0x0100), 0x56);
}

#[test]
fn sprite_table_is_closed_during_scan_and_pixel_transfer() {
    let mut ppu = lit(0x80);
    let mut interrupts = InterruptQueue::new();
    ppu.write_oam(0x10, 0x12);
    assert_eq!(ppu.read_oam(0x10), 0xFF);
    ppu.step(20, &mut interrupts);
    ppu.write_oam(0x10, 0x12);
    assert_eq!(ppu.read_oam(0x10), 0xFF);
    ppu.step(43, &mut interrupts);
    assert_eq!(ppu.read_oam(0x10), 0x00);
    ppu.write_oam(0x10, 0x34);
    assert_eq!(ppu.read_oam(0x10), 0x34);
    ppu.store_oam(0x11, 0x56);
    assert_eq!(ppu.read_oam(0x11), 0x56);
}

#[test]
fn memory_is_open_while_the_lcd_is_off() {
    let mut ppu = Ppu::new();
    assert_eq!(ppu.mode, PpuMode::InOam);
    ppu.write_oam(0x9F, 0x12);
    ppu.write_vram(0x1FFF, 0x34);
    assert_eq!(ppu.read_oam(0x9F), 0x12);
    assert_eq!(ppu.read_vram(0x1FFF), 0x34);
}

#[test]
fn background_pixels_come_from_two_bit_planes() {
    let mut ppu = lit(0x91);
    ppu.vram[0x1800] = 1;
    ppu.vram[0x10] = 0xF0;
    ppu.vram[0x11] = 0xCC;
    render_line(&mut ppu);
    let expected = [COLOR3, COLOR3, COLOR2, COLOR2, COLOR1, COLOR1, COLOR0, COLOR0];
    for (x, color) in expected.iter().enumerate() {
        assert_eq!(pixel(&ppu, x, 0), *color);
    }
    for x in 8..160 {
        assert_eq!(pixel(&ppu, x, 0), COLOR0);
    }
    // Only the line that was drawn has changed.
    assert_eq!(pixel(&ppu, 0, 1), (0, 0, 0));
}

#[test]
fn background_goes_through_the_palette() {
    let mut ppu = lit(0x91);
    ppu.set_palette(0x1B);
    ppu.vram[0x1800] = 1;
    ppu.vram[0x10] = 0xF0;
    ppu.vram[0x11] = 0xCC;
    render_line(&mut ppu);
    let expected = [COLOR0, COLOR0, COLOR1, COLOR1, COLOR2, COLOR2, COLOR3, COLOR3];
    for (x, color) in expected.iter().enumerate() {
        assert_eq!(pixel(&ppu, x, 0), *color);
    }
}

#[test]
fn background_rows_follow_the_line() {
    let mut ppu = lit(0x91);
    let mut interrupts = InterruptQueue::new();
    ppu.vram[0x1800] = 1;
    ppu.vram[0x1820] = 2;
    // Tile 1 is dark in row 3 only; tile 2 is mid grey all over.
    ppu.vram[0x10 + 6] = 0xFF;
    ppu.vram[0x10 + 7] = 0xFF;
    set_tile(&mut ppu, 0x20, 0xFF, 0x00, 8);
    ppu.step(114 * 9, &mut interrupts);
    for y in 0..8 {
        let expected = if y == 3 { COLOR3 } else { COLOR0 };
        assert_eq!(pixel(&ppu, 0, y), expected);
        assert_eq!(pixel(&ppu, 7, y), expected);
        assert_eq!(pixel(&ppu, 8, y), COLOR0);
    }
    assert_eq!(pixel(&ppu, 0, 8), COLOR2);
    assert_eq!(pixel(&ppu, 0, 9), (0, 0, 0));
}

#[test]
fn signed_tile_numbers_count_from_0x1000() {
    let mut ppu = lit(0x81);
    ppu.vram[0x1800] = 0x00;
    ppu.vram[0x1801] = 0x7F;
    ppu.vram[0x1802] = 0x80;
    ppu.vram[0x1803] = 0xFF;
    set_tile(&mut ppu, 0x1000, 0x00, 0xFF, 8);
    set_tile(&mut ppu, 0x17F0, 0xFF, 0x00, 8);
    set_tile(&mut ppu, 0x0800, 0xFF, 0xFF, 8);
    set_tile(&mut ppu, 0x0FF0, 0x00, 0xFF, 8);
    render_line(&mut ppu);
    assert_eq!(pixel(&ppu, 0, 0), COLOR1);
    assert_eq!(pixel(&ppu, 8, 0), COLOR2);
    assert_eq!(pixel(&ppu, 16, 0), COLOR3);
    assert_eq!(pixel(&ppu, 24, 0), COLOR1);
    assert_eq!(pixel(&ppu, 32, 0), COLOR1);
}

#[test]
fn upper_background_map_starts_at_0x1c00() {
    let mut ppu = lit(0x99);
    ppu.vram[0x1800] = 1;
    ppu.vram[0x1C00] = 2;
    set_tile(&mut ppu, 0x10, 0xFF, 0xFF, 8);
    set_tile(&mut ppu, 0x20, 0x00, 0xFF, 8);
    render_line(&mut ppu);
    assert_eq!(pixel(&ppu, 0, 0), COLOR1);
}

#[test]
fn scroll_moves_the_background_by_whole_tiles() {
    let mut ppu = lit(0x91);
    ppu.vram[0x1800 + 32 + 1] = 1;
    set_tile(&mut ppu, 0x10, 0xFF, 0xFF, 8);
    ppu.set_scroll_x(8);
    ppu.set_scroll_y(8);
    render_line(&mut ppu);
    assert_eq!(pixel(&ppu, 0, 0), COLOR3);
    assert_eq!(pixel(&ppu, 7, 0), COLOR3);
    assert_eq!(pixel(&ppu, 8, 0), COLOR0);
    assert_eq!(ppu.scroll_x(), 8);
    assert_eq!(ppu.scroll_y(), 8);
}

#[test]
fn scroll_wraps_around_the_map() {
    let mut ppu = lit(0x91);
    ppu.vram[0x1800 + 31 * 32 + 31] = 1;
    set_tile(&mut ppu, 0x10, 0xFF, 0xFF, 8);
    ppu.set_scroll_x(248);
    ppu.set_scroll_y(248);
    render_line(&mut ppu);
    assert_eq!(pixel(&ppu, 0, 0), COLOR3);
    assert_eq!(pixel(&ppu, 8, 0), COLOR0);
}

#[test]
fn background_off_leaves_the_line_alone() {
    let mut ppu = lit(0x90);
    ppu.vram[0x1800] = 1;
    set_tile(&mut ppu, 0x10, 0xFF, 0xFF, 8);
    render_line(&mut ppu);
    assert_eq!(pixel(&ppu, 0, 0), (0, 0, 0));
}

#[test]
fn sprite_with_lower_index_wins() {
    let mut ppu = lit(0x82);
    set_tile(&mut ppu, 0x10, 0x00, 0xFF, 8);
    set_tile(&mut ppu, 0x20, 0xFF, 0x00, 8);
    set_sprite(&mut ppu, 0, 16, 8, 1, 0x00);
    set_sprite(&mut ppu, 5, 16, 8, 2, 0x10);
    render_line(&mut ppu);
    for x in 0..8 {
        assert_eq!(pixel(&ppu, x, 0), COLOR1);
    }
    assert_eq!(pixel(&ppu, 8, 0), (0, 0, 0));

    // With the two sprites exchanged the other colour shows.
    let mut ppu = lit(0x82);
    set_tile(&mut ppu, 0x10, 0x00, 0xFF, 8);
    set_tile(&mut ppu, 0x20, 0xFF, 0x00, 8);
    set_sprite(&mut ppu, 5, 16, 8, 1, 0x00);
    set_sprite(&mut ppu, 0, 16, 8, 2, 0x10);
    render_line(&mut ppu);
    for x in 0..8 {
        assert_eq!(pixel(&ppu, x, 0), COLOR2);
    }
}

#[test]
fn sprite_colour_zero_is_transparent() {
    let mut ppu = lit(0x93);
    ppu.vram[0x1800] = 3;
    set_tile(&mut ppu, 0x30, 0xFF, 0xFF, 8);
    // The sprite is opaque in its left half only.
    set_tile(&mut ppu, 0x10, 0x00, 0xF0, 8);
    set_sprite(&mut ppu, 0, 16, 8, 1, 0x00);
    // Even a palette that maps colour 0 to black leaves it transparent.
    ppu.set_obj_palette0(0x1B);
    render_line(&mut ppu);
    for x in 0..4 {
        assert_eq!(pixel(&ppu, x, 0), COLOR2);
    }
    for x in 4..8 {
        assert_eq!(pixel(&ppu, x, 0), COLOR3);
    }
}

#[test]
fn sprite_palettes_flips_and_position() {
    let mut ppu = lit(0x82);
    ppu.set_obj_palette1(0x1B);
    // Row 0 of tile 1: colour 3 at the leftmost pixel only; row 7: colour 1.
    ppu.vram[0x10] = 0x80;
    ppu.vram[0x11] = 0x80;
    ppu.vram[0x1E] = 0x00;
    ppu.vram[0x1F] = 0x80;
    set_sprite(&mut ppu, 0, 16, 8 + 10, 1, 0x00);
    set_sprite(&mut ppu, 1, 16, 8 + 30, 1, 0x20);
    set_sprite(&mut ppu, 2, 16, 8 + 50, 1, 0x40);
    set_sprite(&mut ppu, 3, 16, 8 + 70, 1, 0x10);
    render_line(&mut ppu);
    assert_eq!(pixel(&ppu, 10, 0), COLOR3);
    assert_eq!(pixel(&ppu, 11, 0), (0, 0, 0));
    assert_eq!(pixel(&ppu, 30, 0), (0, 0, 0));
    assert_eq!(pixel(&ppu, 37, 0), COLOR3);
    assert_eq!(pixel(&ppu, 50, 0), COLOR1);
    assert_eq!(pixel(&ppu, 70, 0), COLOR0);
}

#[test]
fn sprites_are_eight_or_sixteen_lines_high() {
    let mut interrupts = InterruptQueue::new();
    let mut ppu = lit(0x82);
    set_tile(&mut ppu, 0x10, 0xFF, 0xFF, 16);
    set_sprite(&mut ppu, 0, 16, 8, 1, 0x00);
    ppu.step(114 * 20, &mut interrupts);
    assert_eq!(pixel(&ppu, 0, 7), COLOR3);
    assert_eq!(pixel(&ppu, 0, 8), (0, 0, 0));

    let mut ppu = lit(0x86);
    set_tile(&mut ppu, 0x10, 0xFF, 0xFF, 16);
    set_sprite(&mut ppu, 0, 16, 8, 1, 0x00);
    ppu.step(114 * 20, &mut interrupts);
    assert_eq!(pixel(&ppu, 0, 7), COLOR3);
    assert_eq!(pixel(&ppu, 0, 15), COLOR3);
    assert_eq!(pixel(&ppu, 0, 16), (0, 0, 0));
}

#[test]
fn sprites_off_the_screen_are_not_drawn() {
    let mut interrupts = InterruptQueue::new();
    let mut ppu = lit(0x82);
    set_tile(&mut ppu, 0x10, 0xFF, 0xFF, 8);
    // Partly beyond the right edge: the columns on the screen are drawn.
    set_sprite(&mut ppu, 0, 16, 8 + 156, 1, 0x00);
    // Left of the screen and above it: not drawn at all.
    set_sprite(&mut ppu, 1, 16, 4, 1, 0x00);
    set_sprite(&mut ppu, 2, 12, 8 + 40, 1, 0x00);
    set_sprite(&mut ppu, 3, 0, 8 + 80, 1, 0x00);
    ppu.step(114 * 2, &mut interrupts);
    assert_eq!(pixel(&ppu, 155, 0), (0, 0, 0));
    assert_eq!(pixel(&ppu, 156, 0), COLOR3);
    assert_eq!(pixel(&ppu, 159, 0), COLOR3);
    assert_eq!(pixel(&ppu, 0, 1), (0, 0, 0));
    assert_eq!(pixel(&ppu, 3, 1), (0, 0, 0));
    for x in 0..156 {
        assert_eq!(pixel(&ppu, x, 0), (0, 0, 0));
        assert_eq!(pixel(&ppu, x, 1), (0, 0, 0));
    }
}

#[test]
fn a_line_shows_ten_sprites_at_most() {
    let mut ppu = lit(0x82);
    set_tile(&mut ppu, 0x10, 0xFF, 0xFF, 8);
    for index in 0..12 {
        set_sprite(&mut ppu, index, 16, 8 + 10 * index as u8, 1, 0x00);
    }
    render_line(&mut ppu);
    let shown = (0..12).filter(|index| pixel(&ppu, 10 * index, 0) == COLOR3).count();
    assert_eq!(shown, 10);
    // The table is scanned from its end: the first two entries are left out.
    assert_eq!(pixel(&ppu, 0, 0), (0, 0, 0));
    assert_eq!(pixel(&ppu, 10, 0), (0, 0, 0));
    assert_eq!(pixel(&ppu, 20, 0), COLOR3);
    assert_eq!(pixel(&ppu, 110, 0), COLOR3);
}

#[test]
fn sprites_behind_the_background_fill_the_lightest_shade_first() {
    // Without a background the first pass draws a hidden sprite where the
    // line still has the lightest shade.
    let mut ppu = lit(0x82);
    set_tile(&mut ppu, 0x10, 0xFF, 0xFF, 8);
    for x in 0..160 {
        let base = x * 3;
        ppu.framebuffer[base] = COLOR0.0;
        ppu.framebuffer[base + 1] = COLOR0.1;
        ppu.framebuffer[base + 2] = COLOR0.2;
    }
    set_sprite(&mut ppu, 0, 16, 8, 1, 0x80);
    ppu.render_sprites(false);
    assert_eq!(pixel(&ppu, 0, 0), COLOR3);
    assert_eq!(pixel(&ppu, 8, 0), COLOR0);

    // Where the line holds another colour the hidden sprite stays away, and
    // a sprite that is not hidden waits for the second pass.
    let mut ppu = lit(0x82);
    set_tile(&mut ppu, 0x10, 0xFF, 0xFF, 8);
    set_sprite(&mut ppu, 0, 16, 8, 1, 0x80);
    set_sprite(&mut ppu, 1, 16, 8 + 20, 1, 0x00);
    ppu.render_sprites(false);
    assert_eq!(pixel(&ppu, 0, 0), (0, 0, 0));
    assert_eq!(pixel(&ppu, 20, 0), (0, 0, 0));
    ppu.render_sprites(true);
    assert_eq!(pixel(&ppu, 0, 0), COLOR3);
    assert_eq!(pixel(&ppu, 20, 0), COLOR3);
}

#[test]
fn render_scanline_draws_background_then_sprites() {
    let mut ppu = lit(0x93);
    ppu.vram[0x1800] = 2;
    set_tile(&mut ppu, 0x20, 0xFF, 0x00, 8);
    set_tile(&mut ppu, 0x10, 0x00, 0xFF, 8);
    set_sprite(&mut ppu, 0, 16, 8 + 4, 1, 0x00);
    ppu.render_scanline();
    assert_eq!(pixel(&ppu, 0, 0), COLOR2);
    assert_eq!(pixel(&ppu, 3, 0), COLOR2);
    assert_eq!(pixel(&ppu, 4, 0), COLOR1);
    assert_eq!(pixel(&ppu, 11, 0), COLOR1);
    assert_eq!(pixel(&ppu, 12, 0), COLOR0);
    ppu.render_bg();
    assert_eq!(pixel(&ppu, 4, 0), COLOR2);
}

#[test]
fn reset_current_line_goes_back_to_line_zero() {
    let mut ppu = lit(0x80);
    let mut interrupts = InterruptQueue::new();
    ppu.step(114 * 3, &mut interrupts);
    assert_eq!(ppu.current_line(), 3);
    ppu.reset_current_line();
    assert_eq!(ppu.current_line(), 0);
    assert_eq!(ppu.line_compare(), 0);
    assert_eq!(ppu.mode_cycles(), 20);
}

#[test]
fn stepping_in_pieces_draws_the_same_frame() {
    let mut whole = lit(0x93);
    let mut parts = lit(0x93);
    for ppu in [&mut whole, &mut parts] {
        ppu.stat_from_byte(0x78);
        ppu.set_line_compare(147);
        for i in 0..0x400 {
            ppu.vram[0x1800 + i] = (i % 7) as u8;
        }
        for i in 0..0x80 {
            ppu.vram[i] = (i * 37 % 256) as u8;
        }
        for index in 0..40 {
            set_sprite(ppu, index, 16 + 3 * index as u8, 8 + 4 * index as u8, index as u8 % 8, 0);
        }
    }
    let mut first = InterruptQueue::new();
    let mut second = InterruptQueue::new();
    whole.step(2 * 17_556 + 1000, &mut first);
    for piece in 0..(2 * 17_556 + 1000) / 8 {
        parts.step(8, &mut second);
        assert!(parts.is_well_formed(), "after piece {}", piece);
    }
    assert_eq!(whole.current_line(), parts.current_line());
    assert_eq!(whole.mode, parts.mode);
    assert_eq!(whole.cycles, parts.cycles);
    assert_eq!(first, second);
    assert_eq!(first.as_byte(), 0x03);
    assert!(whole.framebuffer() == parts.framebuffer());
    assert!(whole.framebuffer().iter().any(|&byte| byte != 0));
}
