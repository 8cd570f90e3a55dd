//! Picture unit tests: timing, STAT and scanline rendering.

use gbcam_core::interrupts::InterruptController;
use gbcam_core::memory::Memory;
use gbcam_core::ppu::sprites::Sprite;
use gbcam_core::ppu::{Ppu, PpuMode, SCREEN_HEIGHT, SCREEN_WIDTH};

#[test]
fn ppu_test_ppu_initial_state() {
    let ppu = Ppu::new();
    assert_eq!(ppu.mode, PpuMode::OamScan);
    assert_eq!(ppu.line, 0);
    assert_eq!(ppu.cycles, 0);
}

#[test]
fn ppu_test_buffer_size() {
    let ppu = Ppu::new();
    assert_eq!(ppu.get_buffer().len(), SCREEN_WIDTH * SCREEN_HEIGHT * 4);
}

#[test]
fn mod_test_ppu_initial_state() {
    let ppu = Ppu::new();
    assert_eq!(ppu.mode, PpuMode::OamScan);
    assert_eq!(ppu.line, 0);
    assert_eq!(ppu.cycles, 0);
}

#[test]
fn mod_test_buffer_size() {
    let ppu = Ppu::new();
    assert_eq!(ppu.get_buffer().len(), SCREEN_WIDTH * SCREEN_HEIGHT * 4);
}

// ---------------------------------------------------------------------------
// Further tests
// ---------------------------------------------------------------------------

fn pixel(ppu: &Ppu, x: usize, y: usize) -> [u8; 4] {
    let i = (y * 160 + x) * 4;
    let b = ppu.get_buffer();
    [b[i], b[i + 1], b[i + 2], b[i + 3]]
}

/// Ticks until the given scanline has been rendered.
fn render_line(ppu: &mut Ppu, mem: &mut Memory, line: u8) {
    let ic = InterruptController::new();
    ppu.line = line;
    ppu.mode = PpuMode::Drawing;
    ppu.cycles = 0;
    ppu.tick(172, mem, &ic);
}

#[test]
fn mode_machine_walks_a_scanline() {
    let ic = InterruptController::new();
    let mut ppu = Ppu::new();
    let mut mem = Memory::new();
    ppu.tick(79, &mut mem, &ic);
    assert_eq!(ppu.mode, PpuMode::OamScan);
    assert_eq!(mem.read_io_direct(0x41) & 0x03, 2);
    ppu.tick(1, &mut mem, &ic);
    assert_eq!(ppu.mode, PpuMode::Drawing);
    assert_eq!(ppu.cycles, 0);
    assert_eq!(mem.read_io_direct(0x41) & 0x03, 3);
    ppu.tick(172, &mut mem, &ic);
    assert_eq!(ppu.mode, PpuMode::HBlank);
    assert_eq!(mem.read_io_direct(0x41) & 0x03, 0);
    ppu.tick(204, &mut mem, &ic);
    assert_eq!(ppu.mode, PpuMode::OamScan);
    assert_eq!(ppu.line, 1);
    assert_eq!(mem.read(0xFF44), 1);
}

#[test]
fn a_whole_frame_of_ticks_returns_to_line_zero_oam_scan() {
    let ic = InterruptController::new();
    let mut ppu = Ppu::new();
    let mut mem = Memory::new();
    mem.write_io_direct(0x0F, 0x00);
    let mut entered_vblank_at = None;
    let mut total = 0u32;
    while total < 70224 {
        ppu.tick(4, &mut mem, &ic);
        total += 4;
        if ppu.mode == PpuMode::VBlank && entered_vblank_at.is_none() {
            entered_vblank_at = Some(total);
            assert_eq!(ppu.line, 144);
            assert!(ppu.frame_ready);
            assert_eq!(mem.read_io_direct(0x0F) & 0x01, 0x01);
        }
    }
    assert_eq!(entered_vblank_at, Some(144 * 456));
    assert_eq!(ppu.line, 0);
    assert_eq!(ppu.mode, PpuMode::OamScan);
    assert_eq!(ppu.cycles, 0);
    assert_eq!(mem.read(0xFF44), 0);
    assert!(ppu.frame_ready());
    assert!(!ppu.frame_ready());
}

#[test]
fn lcd_off_rests_in_hblank_on_line_zero() {
    let ic = InterruptController::new();
    let mut ppu = Ppu::new();
    let mut mem = Memory::new();
    ppu.tick(456 * 10 + 100, &mut mem, &ic);
    ppu.tick(456, &mut mem, &ic);
    mem.write(0xFF40, 0x11);
    let before = ppu.get_buffer().clone();
    ppu.tick(12, &mut mem, &ic);
    assert_eq!(ppu.mode, PpuMode::HBlank);
    assert_eq!(ppu.line, 0);
    assert_eq!(ppu.cycles, 0);
    assert_eq!(mem.read(0xFF44), 0);
    assert_eq!(ppu.get_buffer(), &before);
}

#[test]
fn lyc_match_sets_stat_bit_and_requests_interrupt() {
    let ic = InterruptController::new();
    let mut ppu = Ppu::new();
    let mut mem = Memory::new();
    mem.write_io_direct(0x0F, 0x00);
    mem.write(0xFF45, 1); // LYC = 1
    mem.write(0xFF41, 0x40); // LYC source enabled
    ppu.tick(80, &mut mem, &ic);
    ppu.tick(172, &mut mem, &ic);
    assert_eq!(mem.read_io_direct(0x0F) & 0x02, 0);
    ppu.tick(204, &mut mem, &ic);
    assert_eq!(ppu.line, 1);
    assert_eq!(mem.read(0xFF41) & 0x04, 0x04);
    assert_eq!(mem.read_io_direct(0x0F) & 0x02, 0x02);
    mem.write_io_direct(0x0F, 0x00);
    ppu.tick(80, &mut mem, &ic);
    ppu.tick(172, &mut mem, &ic);
    ppu.tick(204, &mut mem, &ic);
    assert_eq!(mem.read(0xFF41) & 0x04, 0x00);
    assert_eq!(mem.read_io_direct(0x0F) & 0x02, 0);
}

#[test]
fn stat_sources_request_on_mode_entry() {
    let ic = InterruptController::new();
    let mut ppu = Ppu::new();
    let mut mem = Memory::new();
    mem.write(0xFF45, 0xFF);
    mem.write(0xFF41, 0x08); // H-blank source
    mem.write_io_direct(0x0F, 0x00);
    ppu.tick(80, &mut mem, &ic);
    assert_eq!(mem.read_io_direct(0x0F), 0x00);
    ppu.tick(172, &mut mem, &ic);
    assert_eq!(mem.read_io_direct(0x0F), 0x02);
    mem.write(0xFF41, 0x20); // OAM source
    mem.write_io_direct(0x0F, 0x00);
    ppu.tick(204, &mut mem, &ic);
    assert_eq!(mem.read_io_direct(0x0F), 0x02);
}

#[test]
fn background_disabled_draws_white() {
    let mut ppu = Ppu::new();
    let mut mem = Memory::new();
    mem.write(0xFF40, 0x80);
    render_line(&mut ppu, &mut mem, 3);
    for x in 0..160 {
        assert_eq!(pixel(&ppu, x, 3), [0xFF, 0xFF, 0xFF, 0xFF]);
    }
    assert_eq!(pixel(&ppu, 0, 2), [0, 0, 0, 0]);
    assert_eq!(ppu.count_non_zero_pixels(), 640);
}

#[test]
fn dmg_background_uses_tile_map_scroll_and_palette() {
    let mut ppu = Ppu::new();
    let mut mem = Memory::new();
    // Tile 1: row 0 has colours 0,1,2,3,0,1,2,3 from the left.
    mem.write(0x8010, 0b0101_0101);
    mem.write(0x8011, 0b0011_0011);
    mem.write(0x9800, 1); // map (0,0) = tile 1
    mem.write(0xFF47, 0b1110_0100); // identity palette
    mem.write(0xFF40, 0x91);
    render_line(&mut ppu, &mut mem, 0);
    let grays = [0xFFu8, 0xAA, 0x55, 0x00];
    for x in 0..8 {
        let g = grays[x % 4];
        assert_eq!(pixel(&ppu, x, 0), [g, g, g, 255]);
    }
    assert_eq!(pixel(&ppu, 8, 0), [0xFF, 0xFF, 0xFF, 255]);
    assert_eq!(ppu.scanline_bg_info[0], 1);
    assert_eq!(ppu.scanline_bg_info[1], 0);
    // Scroll by three pixels: screen x = 0 shows tile pixel 3.
    mem.write(0xFF43, 3);
    render_line(&mut ppu, &mut mem, 0);
    assert_eq!(pixel(&ppu, 0, 0), [0x00, 0x00, 0x00, 255]);
    assert_eq!(pixel(&ppu, 1, 0), [0xFF, 0xFF, 0xFF, 255]);
    // Inverted palette.
    mem.write(0xFF43, 0);
    mem.write(0xFF47, 0b0001_1011);
    render_line(&mut ppu, &mut mem, 0);
    assert_eq!(pixel(&ppu, 0, 0), [0x00, 0x00, 0x00, 255]);
    assert_eq!(pixel(&ppu, 3, 0), [0xFF, 0xFF, 0xFF, 255]);
}

#[test]
fn dmg_signed_tile_addressing() {
    let mut ppu = Ppu::new();
    let mut mem = Memory::new();
    // LCDC bit 4 clear: tile 0x80 lives at 0x8800, tile 0 at 0x9000.
    mem.write(0x8800, 0xFF);
    mem.write(0x8801, 0xFF);
    mem.write(0x9000, 0xFF);
    mem.write(0x9001, 0x00);
    mem.write(0x9800, 0x80);
    mem.write(0x9801, 0x00);
    mem.write(0xFF47, 0b1110_0100);
    mem.write(0xFF40, 0x81);
    render_line(&mut ppu, &mut mem, 0);
    assert_eq!(pixel(&ppu, 0, 0), [0x00, 0x00, 0x00, 255]);
    assert_eq!(pixel(&ppu, 8, 0), [0xAA, 0xAA, 0xAA, 255]);
}

#[test]
fn window_covers_from_wx_minus_seven_and_counts_its_own_lines() {
    let mut ppu = Ppu::new();
    let mut mem = Memory::new();
    // Tile 2: all colour 3.
    for row in 0..8u16 {
        mem.write(0x8020 + row * 2, 0xFF);
        mem.write(0x8021 + row * 2, 0xFF);
    }
    for col in 0..32u16 {
        mem.write(0x9C00 + col, 2);
    }
    mem.write(0xFF47, 0b1110_0100);
    mem.write(0xFF40, 0x91 | 0x20 | 0x40); // window on, window map 0x9C00
    mem.write(0xFF4A, 5); // WY
    mem.write(0xFF4B, 87); // WX: left edge at column 80
    render_line(&mut ppu, &mut mem, 4);
    assert_eq!(pixel(&ppu, 100, 4), [0xFF, 0xFF, 0xFF, 255]);
    assert_eq!(ppu.window_line_counter, 0);
    render_line(&mut ppu, &mut mem, 5);
    assert_eq!(pixel(&ppu, 79, 5), [0xFF, 0xFF, 0xFF, 255]);
    assert_eq!(pixel(&ppu, 80, 5), [0x00, 0x00, 0x00, 255]);
    assert_eq!(pixel(&ppu, 159, 5), [0x00, 0x00, 0x00, 255]);
    assert_eq!(ppu.window_line_counter, 1);
    mem.write(0xFF4B, 167);
    render_line(&mut ppu, &mut mem, 6);
    assert_eq!(pixel(&ppu, 159, 6), [0xFF, 0xFF, 0xFF, 255]);
    assert_eq!(ppu.window_line_counter, 1);
}

fn solid_tile(mem: &mut Memory, tile: u16, colour: u8) {
    for row in 0..8u16 {
        mem.write(0x8000 + tile * 16 + row * 2, if colour & 1 != 0 { 0xFF } else { 0 });
        mem.write(0x8000 + tile * 16 + row * 2 + 1, if colour & 2 != 0 { 0xFF } else { 0 });
    }
}

fn put_sprite(mem: &mut Memory, index: u16, y: u8, x: u8, tile: u8, flags: u8) {
    mem.write(0xFE00 + index * 4, y);
    mem.write(0xFE00 + index * 4 + 1, x);
    mem.write(0xFE00 + index * 4 + 2, tile);
    mem.write(0xFE00 + index * 4 + 3, flags);
}

#[test]
fn sprite_with_lower_x_wins_and_ties_go_to_oam_order() {
    let mut ppu = Ppu::new();
    let mut mem = Memory::new();
    solid_tile(&mut mem, 1, 1);
    solid_tile(&mut mem, 2, 2);
    solid_tile(&mut mem, 3, 3);
    mem.write(0xFF47, 0b1110_0100);
    mem.write(0xFF48, 0b1110_0100);
    mem.write(0xFF40, 0x93);
    put_sprite(&mut mem, 0, 16, 12, 1, 0); // columns 4..12
    put_sprite(&mut mem, 1, 16, 8, 2, 0); // columns 0..8, lower X
    put_sprite(&mut mem, 2, 16, 12, 3, 0); // same X as sprite 0, later in OAM
    render_line(&mut ppu, &mut mem, 0);
    assert_eq!(pixel(&ppu, 0, 0), [0x55, 0x55, 0x55, 255]);
    assert_eq!(pixel(&ppu, 5, 0), [0x55, 0x55, 0x55, 255]);
    assert_eq!(pixel(&ppu, 8, 0), [0xAA, 0xAA, 0xAA, 255]);
    assert_eq!(pixel(&ppu, 11, 0), [0xAA, 0xAA, 0xAA, 255]);
    assert_eq!(pixel(&ppu, 12, 0), [0xFF, 0xFF, 0xFF, 255]);
}

#[test]
fn only_the_first_ten_sprites_of_a_line_are_drawn() {
    let mut ppu = Ppu::new();
    let mut mem = Memory::new();
    solid_tile(&mut mem, 1, 3);
    mem.write(0xFF47, 0b1110_0100);
    mem.write(0xFF48, 0b1110_0100);
    mem.write(0xFF40, 0x93);
    for i in 0..12u16 {
        put_sprite(&mut mem, i, 16, 8 + (i as u8) * 8, 1, 0);
    }
    render_line(&mut ppu, &mut mem, 0);
    assert_eq!(pixel(&ppu, 79, 0), [0x00, 0x00, 0x00, 255]);
    assert_eq!(pixel(&ppu, 80, 0), [0xFF, 0xFF, 0xFF, 255]);
    let list = Ppu::scan_oam(&mem, 0);
    assert_eq!(list.len(), 10);
    assert_eq!(list[9].x, 8 + 9 * 8);
}

#[test]
fn sprite_behind_background_shows_only_over_colour_zero() {
    let mut ppu = Ppu::new();
    let mut mem = Memory::new();
    solid_tile(&mut mem, 1, 1); // background tile, colour 1
    solid_tile(&mut mem, 2, 3); // sprite tile
    mem.write(0x9800, 1); // first map tile is colour 1, the rest colour 0
    mem.write(0xFF47, 0b1110_0100);
    mem.write(0xFF48, 0b1110_0100);
    mem.write(0xFF40, 0x93);
    put_sprite(&mut mem, 0, 16, 12, 2, 0x80); // columns 4..12, behind background
    render_line(&mut ppu, &mut mem, 0);
    assert_eq!(pixel(&ppu, 4, 0), [0xAA, 0xAA, 0xAA, 255]);
    assert_eq!(pixel(&ppu, 7, 0), [0xAA, 0xAA, 0xAA, 255]);
    assert_eq!(pixel(&ppu, 8, 0), [0x00, 0x00, 0x00, 255]);
    assert_eq!(pixel(&ppu, 11, 0), [0x00, 0x00, 0x00, 255]);
}

#[test]
fn sprite_flips_palette_select_and_tall_sprites() {
    let mut ppu = Ppu::new();
    let mut mem = Memory::new();
    // Tile 4: row 0 = colour 1 in the leftmost pixel only; row 7 = colour 2 everywhere.
    mem.write(0x8040, 0x80);
    mem.write(0x804E + 1, 0xFF);
    // Tile 5 (bottom half of a tall sprite): row 0 = colour 3 everywhere.
    mem.write(0x8050, 0xFF);
    mem.write(0x8051, 0xFF);
    mem.write(0xFF47, 0b1110_0100);
    mem.write(0xFF48, 0b1110_0100); // OBP0 identity
    mem.write(0xFF49, 0b0001_1011); // OBP1 inverted
    mem.write(0xFF40, 0x93);
    put_sprite(&mut mem, 0, 16, 8, 4, 0);
    render_line(&mut ppu, &mut mem, 0);
    assert_eq!(pixel(&ppu, 0, 0), [0xAA, 0xAA, 0xAA, 255]);
    assert_eq!(pixel(&ppu, 7, 0), [0xFF, 0xFF, 0xFF, 255]);
    put_sprite(&mut mem, 0, 16, 8, 4, 0x20); // X flip
    render_line(&mut ppu, &mut mem, 0);
    assert_eq!(pixel(&ppu, 0, 0), [0xFF, 0xFF, 0xFF, 255]);
    assert_eq!(pixel(&ppu, 7, 0), [0xAA, 0xAA, 0xAA, 255]);
    put_sprite(&mut mem, 0, 16, 8, 4, 0x40); // Y flip: line 0 shows row 7
    render_line(&mut ppu, &mut mem, 0);
    assert_eq!(pixel(&ppu, 3, 0), [0x55, 0x55, 0x55, 255]);
    put_sprite(&mut mem, 0, 16, 8, 4, 0x10); // OBP1
    render_line(&mut ppu, &mut mem, 0);
    assert_eq!(pixel(&ppu, 0, 0), [0x55, 0x55, 0x55, 255]);
    // 8x16: tile number bit 0 is ignored, line 8 shows row 0 of the odd tile
    mem.write(0xFF40, 0x97);
    put_sprite(&mut mem, 0, 16, 8, 5, 0);
    render_line(&mut ppu, &mut mem, 0);
    assert_eq!(pixel(&ppu, 0, 0), [0xAA, 0xAA, 0xAA, 255]);
    render_line(&mut ppu, &mut mem, 8);
    assert_eq!(pixel(&ppu, 0, 8), [0x00, 0x00, 0x00, 255]);
}

#[test]
fn sort_by_x_is_stable() {
    let list = vec![
        Sprite { y: 16, x: 30, tile: 0, flags: 0 },
        Sprite { y: 16, x: 10, tile: 1, flags: 0 },
        Sprite { y: 16, x: 30, tile: 2, flags: 0 },
        Sprite { y: 16, x: 10, tile: 3, flags: 0 },
        Sprite { y: 16, x: 5, tile: 4, flags: 0 },
    ];
    let sorted = Ppu::sort_by_x(&list);
    let tiles: Vec<u8> = sorted.iter().map(|s| s.tile).collect();
    assert_eq!(tiles, vec![4, 1, 3, 0, 2]);
}

#[test]
fn rgb555_expands_each_channel() {
    assert_eq!(Ppu::rgb555_to_rgba(0xFF, 0x7F), [255, 255, 255, 255]);
    assert_eq!(Ppu::rgb555_to_rgba(0x00, 0x00), [0, 0, 0, 255]);
    assert_eq!(Ppu::rgb555_to_rgba(0x1F, 0x00), [255, 0, 0, 255]);
    assert_eq!(Ppu::rgb555_to_rgba(0xE0, 0x03), [0, 255, 0, 255]);
    assert_eq!(Ppu::rgb555_to_rgba(0x00, 0x7C), [0, 0, 255, 255]);
    assert_eq!(Ppu::rgb555_to_rgba(0x10, 0x42), [0x84, 0x84, 0x84, 255]);
}

fn cgb_memory() -> Memory {
    let mut mem = Memory::new();
    mem.load_rom(&vec![0u8; 0x8000], true).unwrap();
    mem
}

fn set_bg_colour(mem: &mut Memory, palette: u8, colour: u8, lo: u8, hi: u8) {
    mem.write(0xFF68, 0x80 | (palette * 8 + colour * 2));
    mem.write(0xFF69, lo);
    mem.write(0xFF69, hi);
}

fn set_obj_colour(mem: &mut Memory, palette: u8, colour: u8, lo: u8, hi: u8) {
    mem.write(0xFF6A, 0x80 | (palette * 8 + colour * 2));
    mem.write(0xFF6B, lo);
    mem.write(0xFF6B, hi);
}

#[test]
fn cgb_background_reads_attributes_from_bank_one() {
    let mut ppu = Ppu::new();
    ppu.reset(true);
    let mut mem = cgb_memory();
    // Tile 1 in bank 1: leftmost pixel colour 1, the others colour 0.
    mem.write(0xFF4F, 1);
    mem.write(0x8010, 0x80);
    mem.write(0x9800, 0x08 | 0x20 | 0x02); // attributes: bank 1, X flip, palette 2
    mem.write(0xFF4F, 0);
    mem.write(0x9800, 1);
    set_bg_colour(&mut mem, 2, 0, 0x00, 0x00);
    set_bg_colour(&mut mem, 2, 1, 0x1F, 0x00); // red
    set_bg_colour(&mut mem, 0, 0, 0xFF, 0x7F); // white
    mem.write(0xFF40, 0x91);
    render_line(&mut ppu, &mut mem, 0);
    assert_eq!(pixel(&ppu, 0, 0), [0, 0, 0, 255]);
    assert_eq!(pixel(&ppu, 7, 0), [255, 0, 0, 255]);
    assert_eq!(pixel(&ppu, 8, 0), [255, 255, 255, 255]);
    assert_eq!(ppu.scanline_bg_info[7], 0);
    assert_eq!(ppu.scanline_bg_info[0], 1);
}

#[test]
fn cgb_sprite_priority_rules() {
    let mut mem = cgb_memory();
    solid_tile(&mut mem, 1, 1); // background, colour 1
    solid_tile(&mut mem, 2, 3); // sprite
    mem.write(0x9800, 1);
    set_bg_colour(&mut mem, 0, 0, 0x00, 0x00);
    set_bg_colour(&mut mem, 0, 1, 0xE0, 0x03); // green
    set_obj_colour(&mut mem, 3, 3, 0x1F, 0x00); // red
    put_sprite(&mut mem, 0, 16, 12, 2, 0x03); // columns 4..12, palette 3

    // No priority bits: the sprite draws everywhere.
    let mut ppu = Ppu::new();
    ppu.reset(true);
    mem.write(0xFF40, 0x93);
    render_line(&mut ppu, &mut mem, 0);
    assert_eq!(pixel(&ppu, 3, 0), [0, 255, 0, 255]);
    assert_eq!(pixel(&ppu, 4, 0), [255, 0, 0, 255]);
    assert_eq!(pixel(&ppu, 11, 0), [255, 0, 0, 255]);

    // OAM bit 7: only over background colour 0.
    put_sprite(&mut mem, 0, 16, 12, 2, 0x83);
    render_line(&mut ppu, &mut mem, 0);
    assert_eq!(pixel(&ppu, 4, 0), [0, 255, 0, 255]);
    assert_eq!(pixel(&ppu, 8, 0), [255, 0, 0, 255]);

    // Tile force-priority: only over background colour 0, whatever the sprite says.
    put_sprite(&mut mem, 0, 16, 12, 2, 0x03);
    mem.write(0xFF4F, 1);
    mem.write(0x9800, 0x80);
    mem.write(0xFF4F, 0);
    render_line(&mut ppu, &mut mem, 0);
    assert_eq!(pixel(&ppu, 4, 0), [0, 255, 0, 255]);
    assert_eq!(pixel(&ppu, 8, 0), [255, 0, 0, 255]);
    assert_eq!(ppu.scanline_bg_info[4], 2);
    assert_eq!(ppu.scanline_bg_info[8], 1);

    // LCDC bit 0 clear: sprites always win.
    mem.write(0xFF40, 0x92);
    put_sprite(&mut mem, 0, 16, 12, 2, 0x83);
    render_line(&mut ppu, &mut mem, 0);
    assert_eq!(pixel(&ppu, 4, 0), [255, 0, 0, 255]);
    assert_eq!(pixel(&ppu, 0, 0), [255, 255, 255, 255]);
}

#[test]
fn cgb_sprites_keep_oam_order() {
    let mut mem = cgb_memory();
    solid_tile(&mut mem, 1, 1);
    solid_tile(&mut mem, 2, 2);
    set_obj_colour(&mut mem, 0, 1, 0x1F, 0x00); // red
    set_obj_colour(&mut mem, 0, 2, 0x00, 0x7C); // blue
    put_sprite(&mut mem, 0, 16, 12, 1, 0); // first in OAM, higher X
    put_sprite(&mut mem, 1, 16, 8, 2, 0); // lower X, later in OAM
    let mut ppu = Ppu::new();
    ppu.reset(true);
    mem.write(0xFF40, 0x93);
    render_line(&mut ppu, &mut mem, 0);
    assert_eq!(pixel(&ppu, 3, 0), [0, 0, 255, 255]);
    assert_eq!(pixel(&ppu, 5, 0), [255, 0, 0, 255]);
}

#[test]
fn hblank_entry_runs_one_hdma_block() {
    let ic = InterruptController::new();
    let mut mem = cgb_memory();
    for i in 0..0x10u16 {
        mem.write(0xC000 + i, 0x40 + i as u8);
    }
    mem.write(0xFF51, 0xC0);
    mem.write(0xFF52, 0x00);
    mem.write(0xFF53, 0x10);
    mem.write(0xFF54, 0x00);
    mem.write(0xFF55, 0x80);
    let mut ppu = Ppu::new();
    ppu.reset(true);
    ppu.tick(80, &mut mem, &ic);
    assert_eq!(mem.read(0x9000), 0x00);
    ppu.tick(172, &mut mem, &ic);
    assert_eq!(ppu.mode, PpuMode::HBlank);
    assert_eq!(mem.read(0x9000), 0x40);
    assert_eq!(mem.read(0x900F), 0x4F);
    assert_eq!(mem.read(0xFF55), 0xFF);
}

#[test]
fn debug_state_reports_mode_and_line() {
    let ppu = Ppu::new();
    let state = ppu.get_debug_state();
    assert_eq!(state.mode, 2);
    assert_eq!(state.mode_name, "OAM");
    assert_eq!(state.line, 0);
    assert_eq!(PpuMode::HBlank.name(), "HBLANK");
    assert_eq!(PpuMode::VBlank.name(), "VBLANK");
    assert_eq!(PpuMode::Drawing.name(), "DRAW");
}
