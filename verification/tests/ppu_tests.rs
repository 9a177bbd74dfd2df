use gb_core::gpu::{
    compose, draw, draw_background, draw_sprites, draw_window, stat_interrupt, to_palette, update_ppu,
    Ppu, PpuState, BLANK_PIXEL,
};
use gb_core::memory::Memory;

const PATTERN: [u8; 8] = [3, 3, 1, 1, 2, 2, 0, 0];

fn ppu_memory() -> Memory {
    let mut mem = Memory::with_padding(vec![0u8; 0x8000], true, Vec::new()).unwrap();
    mem.write(0xFF0F, 0x00);
    mem.write(0xFF47, 0xE4);
    mem.write(0xFF48, 0xE4);
    mem.write(0xFF49, 0x1B);
    // Tile 1: every row shows PATTERN. Tile 2: colour 3 in row 0, colour 1 below.
    for row in 0..8u16 {
        mem.write(0x8010 + 2 * row, 0b1111_0000);
        mem.write(0x8011 + 2 * row, 0b1100_1100);
        mem.write(0x8020 + 2 * row, 0xFF);
        mem.write(0x8021 + 2 * row, if row == 0 { 0xFF } else { 0x00 });
    }
    mem
}

fn put_sprite(mem: &mut Memory, index: u16, y: u8, x: u8, tile: u8, attributes: u8) {
    mem.write(0xFE00 + 4 * index, y);
    mem.write(0xFE01 + 4 * index, x);
    mem.write(0xFE02 + 4 * index, tile);
    mem.write(0xFE03 + 4 * index, attributes);
}

fn next_line(ppu: &mut Ppu, mem: &mut Memory) -> Vec<u8> {
    for _ in 0..100000 {
        if let Some(line) = update_ppu(ppu, mem, 4) {
            return line;
        }
    }
    panic!("no line was emitted");
}

#[test]
fn scanline_rendering() {
    let mut mem = ppu_memory();
    let mut ppu = Ppu::default();
    assert_eq!(mem.read(0xFF40), 0x91);
    let line = next_line(&mut ppu, &mut mem);
    assert_eq!(line, vec![0u8; 160]);
}

#[test]
fn palettes_resolve_colour_indices() {
    assert_eq!(to_palette(0, 0xE4), 0);
    assert_eq!(to_palette(1, 0xE4), 1);
    assert_eq!(to_palette(2, 0xE4), 2);
    assert_eq!(to_palette(3, 0xE4), 3);
    assert_eq!(to_palette(0, 0x1B), 3);
    assert_eq!(to_palette(1, 0x1B), 2);
    assert_eq!(to_palette(2, 0x1B), 1);
    assert_eq!(to_palette(3, 0x1B), 0);
    assert_eq!(to_palette(BLANK_PIXEL, 0x1B), BLANK_PIXEL);
    let mut mem = ppu_memory();
    mem.write(0xFF47, 0x1B);
    let mut ppu = Ppu::default();
    assert_eq!(next_line(&mut ppu, &mut mem), vec![3u8; 160]);
}

#[test]
fn background_shows_the_tile_map() {
    let mut mem = ppu_memory();
    mem.write(0x9800, 1);
    mem.write(0x9813, 1);
    let line = draw_background(&mem, 0x91, 0);
    assert_eq!(&line[0..8], &PATTERN);
    assert_eq!(&line[8..152], &[0u8; 144][..]);
    assert_eq!(&line[152..160], &PATTERN);
    assert_eq!(draw_background(&mem, 0x90, 0), vec![BLANK_PIXEL; 160]);
    // The second map, and the second way of naming tiles.
    mem.write(0x9C01, 2);
    let line = draw_background(&mem, 0x99, 0);
    assert_eq!(&line[0..16], &[0, 0, 0, 0, 0, 0, 0, 0, 3, 3, 3, 3, 3, 3, 3, 3]);
    mem.write(0x9010, 0xFF);
    let line = draw_background(&mem, 0x81, 0);
    assert_eq!(&line[0..8], &[1u8; 8]);
}

#[test]
fn background_scrolls_and_wraps() {
    let mut mem = ppu_memory();
    mem.write(0x9800, 1);
    mem.write(0xFF43, 3);
    let line = draw_background(&mem, 0x91, 0);
    assert_eq!(&line[0..8], &[1, 2, 2, 0, 0, 0, 0, 0]);
    mem.write(0xFF43, 250);
    let line = draw_background(&mem, 0x91, 0);
    assert_eq!(&line[0..16], &[0, 0, 0, 0, 0, 0, 3, 3, 1, 1, 2, 2, 0, 0, 0, 0]);
    mem.write(0xFF43, 0);
    mem.write(0xFF42, 8);
    assert_eq!(draw_background(&mem, 0x91, 0), vec![0u8; 160]);
    assert_eq!(&draw_background(&mem, 0x91, 248)[0..8], &PATTERN);
    mem.write(0x9820, 2);
    assert_eq!(&draw_background(&mem, 0x91, 0)[0..8], &[3u8; 8]);
    assert_eq!(&draw_background(&mem, 0x91, 1)[0..8], &[1u8; 8]);
}

#[test]
fn window_renders_from_wy_on() {
    let mut mem = ppu_memory();
    mem.write(0x9800, 1);
    mem.write(0x9C00, 2);
    mem.write(0xFF4B, 11);
    mem.write(0xFF4A, 0);
    let mut ppu = Ppu::default();
    let layer = draw_window(&mut ppu, &mem, 0xF1, 0);
    assert_eq!(&layer[0..4], &[BLANK_PIXEL; 4]);
    assert_eq!(&layer[4..12], &[3u8; 8]);
    assert_eq!(&layer[12..160], &[0u8; 148][..]);
    assert_eq!(ppu.window_line, 1);
    // One line above WY the window does not show.
    mem.write(0xFF4A, 1);
    let mut ppu = Ppu::default();
    assert_eq!(draw_window(&mut ppu, &mem, 0xF1, 0), vec![BLANK_PIXEL; 160]);
    assert_eq!(ppu.window_line, 0);
    let layer = draw_window(&mut ppu, &mem, 0xF1, 1);
    assert_eq!(&layer[4..12], &[3u8; 8]);
    assert_eq!(ppu.window_line, 1);
}

#[test]
fn window_needs_its_enable_bits_and_a_place_on_the_screen() {
    let mut mem = ppu_memory();
    mem.write(0x9C00, 2);
    mem.write(0xFF4B, 7);
    let mut ppu = Ppu::default();
    assert_eq!(draw_window(&mut ppu, &mem, 0xD1, 0), vec![BLANK_PIXEL; 160]);
    assert_eq!(draw_window(&mut ppu, &mem, 0xF0, 0), vec![BLANK_PIXEL; 160]);
    mem.write(0xFF4B, 167);
    assert_eq!(draw_window(&mut ppu, &mem, 0xF1, 0), vec![BLANK_PIXEL; 160]);
    assert_eq!(ppu.window_line, 0);
    mem.write(0xFF4B, 166);
    let layer = draw_window(&mut ppu, &mem, 0xF1, 0);
    assert_eq!(&layer[0..159], &[BLANK_PIXEL; 159][..]);
    assert_eq!(layer[159], 3);
    mem.write(0xFF4B, 0);
    let layer = draw_window(&mut ppu, &mem, 0xF1, 0);
    assert_eq!(layer[0], 1);
    assert_eq!(layer[1], 0);
    mem.write(0xFF4B, 7);
    let layer = draw_window(&mut ppu, &mem, 0xB1, 0);
    assert_eq!(layer, vec![0u8; 160]);
}

#[test]
fn window_counts_its_own_lines() {
    let mut mem = ppu_memory();
    mem.write(0x9C00, 2);
    mem.write(0xFF4B, 7);
    mem.write(0xFF4A, 0);
    mem.write(0xFF40, 0xF1);
    let mut ppu = Ppu::default();
    let line = next_line(&mut ppu, &mut mem);
    assert_eq!(&line[0..9], &[3, 3, 3, 3, 3, 3, 3, 3, 0]);
    mem.write(0xFF40, 0x91);
    let line = next_line(&mut ppu, &mut mem);
    assert_eq!(line, vec![0u8; 160]);
    mem.write(0xFF40, 0xF1);
    let line = next_line(&mut ppu, &mut mem);
    assert_eq!(mem.read(0xFF44), 2);
    assert_eq!(&line[0..9], &[1, 1, 1, 1, 1, 1, 1, 1, 0]);
    assert_eq!(ppu.window_line, 2);
}

#[test]
fn sprites_show_their_tile_row() {
    let mut mem = ppu_memory();
    put_sprite(&mut mem, 0, 16, 8, 1, 0x00);
    put_sprite(&mut mem, 1, 16, 24, 1, 0x20);
    put_sprite(&mut mem, 2, 16, 40, 2, 0x40);
    put_sprite(&mut mem, 3, 16, 56, 2, 0x90);
    let layer = draw_sprites(&mem, 0x93, 0);
    assert_eq!(&layer[0..8], &[3, 3, 1, 1, 2, 2, BLANK_PIXEL, BLANK_PIXEL]);
    assert_eq!(&layer[8..16], &[BLANK_PIXEL; 8]);
    assert_eq!(&layer[16..24], &[BLANK_PIXEL, BLANK_PIXEL, 2, 2, 1, 1, 3, 3]);
    assert_eq!(&layer[32..40], &[1u8; 8]);
    assert_eq!(&layer[48..56], &[0x93u8; 8]);
    assert_eq!(draw_sprites(&mem, 0x91, 0), vec![BLANK_PIXEL; 160]);
    assert_eq!(&draw_sprites(&mem, 0x93, 7)[32..40], &[3u8; 8]);
    assert_eq!(draw_sprites(&mem, 0x93, 8), vec![BLANK_PIXEL; 160]);
}

#[test]
fn tall_sprites_use_a_pair_of_tiles() {
    let mut mem = ppu_memory();
    put_sprite(&mut mem, 0, 16, 8, 1, 0x00);
    put_sprite(&mut mem, 1, 16, 24, 0, 0x40);
    // Tile 0 is empty and tile 1 shows PATTERN: the pair is tiles 0 and 1.
    assert_eq!(draw_sprites(&mem, 0x97, 0)[0], BLANK_PIXEL);
    assert_eq!(draw_sprites(&mem, 0x97, 7)[0], BLANK_PIXEL);
    assert_eq!(&draw_sprites(&mem, 0x97, 8)[0..6], &[3, 3, 1, 1, 2, 2]);
    assert_eq!(&draw_sprites(&mem, 0x97, 15)[0..6], &[3, 3, 1, 1, 2, 2]);
    assert_eq!(draw_sprites(&mem, 0x97, 16)[0], BLANK_PIXEL);
    // Flipped upside down the lower tile comes first.
    assert_eq!(&draw_sprites(&mem, 0x97, 0)[16..22], &[3, 3, 1, 1, 2, 2]);
    assert_eq!(draw_sprites(&mem, 0x97, 8)[16], BLANK_PIXEL);
}

#[test]
fn at_most_ten_sprites_per_line() {
    let mut mem = ppu_memory();
    for i in 0..11u16 {
        put_sprite(&mut mem, i, 16, 8 + 8 * i as u8, 2, 0x00);
    }
    let layer = draw_sprites(&mem, 0x93, 0);
    assert_eq!(&layer[0..80], &[3u8; 80][..]);
    assert_eq!(&layer[80..88], &[BLANK_PIXEL; 8]);
}

#[test]
fn hidden_sprites_take_a_place() {
    let mut mem = ppu_memory();
    for i in 0..9u16 {
        put_sprite(&mut mem, i, 16, 0, 2, 0x00);
    }
    put_sprite(&mut mem, 9, 16, 168, 2, 0x00);
    put_sprite(&mut mem, 10, 16, 8, 2, 0x00);
    assert_eq!(draw_sprites(&mem, 0x93, 0), vec![BLANK_PIXEL; 160]);
    // With one hidden sprite moved off the line the visible one is drawn.
    put_sprite(&mut mem, 9, 0, 168, 2, 0x00);
    assert_eq!(&draw_sprites(&mem, 0x93, 0)[0..8], &[3u8; 8]);
}

#[test]
fn sprites_partly_off_screen() {
    let mut mem = ppu_memory();
    put_sprite(&mut mem, 0, 16, 4, 1, 0x00);
    put_sprite(&mut mem, 1, 16, 164, 1, 0x00);
    put_sprite(&mut mem, 2, 16, 255, 2, 0x00);
    let layer = draw_sprites(&mem, 0x93, 0);
    assert_eq!(&layer[0..4], &[2, 2, BLANK_PIXEL, BLANK_PIXEL]);
    assert_eq!(&layer[156..160], &[3, 3, 1, 1]);
}

#[test]
fn lower_x_wins_and_ties_go_to_the_earlier_sprite() {
    let mut mem = ppu_memory();
    // Tile 3: colour 2 everywhere.
    for row in 0..8u16 {
        mem.write(0x8030 + 2 * row, 0x00);
        mem.write(0x8031 + 2 * row, 0xFF);
    }
    put_sprite(&mut mem, 0, 17, 12, 2, 0x00);
    put_sprite(&mut mem, 1, 17, 8, 3, 0x00);
    // On line 2 both sprites show their row 1: colour 1 and colour 2.
    let layer = draw_sprites(&mem, 0x93, 2);
    assert_eq!(&layer[0..12], &[2, 2, 2, 2, 2, 2, 2, 2, 1, 1, 1, 1]);
    put_sprite(&mut mem, 1, 17, 12, 3, 0x00);
    let layer = draw_sprites(&mem, 0x93, 2);
    assert_eq!(&layer[4..12], &[1u8; 8]);
    // A transparent pixel of the winner lets the next sprite through.
    put_sprite(&mut mem, 0, 17, 12, 1, 0x00);
    let layer = draw_sprites(&mem, 0x93, 2);
    assert_eq!(&layer[4..12], &[3, 3, 1, 1, 2, 2, 2, 2]);
}

#[test]
fn layers_compose_by_priority() {
    let b = BLANK_PIXEL;
    // Sprite in front.
    assert_eq!(compose(0x02, 1, 3, 0xE4, 0xE4, 0x1B), 2);
    assert_eq!(compose(0x12, 1, 3, 0xE4, 0xE4, 0x1B), 1);
    assert_eq!(compose(b, 1, 3, 0xE4, 0xE4, 0x1B), 1);
    assert_eq!(compose(b, 0, 3, 0xE4, 0xE4, 0x1B), 0);
    assert_eq!(compose(b, b, 3, 0xE4, 0xE4, 0x1B), 3);
    assert_eq!(compose(b, b, b, 0x1B, 0xE4, 0x1B), 0);
    // Sprite behind.
    assert_eq!(compose(0x82, 1, 3, 0xE4, 0xE4, 0x1B), 1);
    assert_eq!(compose(0x82, 0, 3, 0xE4, 0xE4, 0x1B), 0);
    assert_eq!(compose(0x82, b, 3, 0xE4, 0xE4, 0x1B), 3);
    assert_eq!(compose(0x82, b, 0, 0xE4, 0xE4, 0x1B), 2);
    assert_eq!(compose(0x92, b, 0, 0xE4, 0xE4, 0x1B), 1);
    assert_eq!(compose(0x83, b, b, 0xE4, 0xE4, 0x1B), 3);
}

#[test]
fn a_line_puts_the_three_layers_together() {
    let mut mem = ppu_memory();
    mem.write(0x9800, 1);
    mem.write(0x9801, 1);
    mem.write(0xFF47, 0x1B);
    put_sprite(&mut mem, 0, 16, 8, 1, 0x00);
    put_sprite(&mut mem, 1, 16, 16, 2, 0x80);
    mem.write(0xFF40, 0x93);
    let mut ppu = Ppu { ticks: 0, state: PpuState::Drawing, window_line: 0 };
    let line = draw(&mut ppu, &mem);
    // Sprite 0 in front over the background; sprite 1 behind it shows only over colour 0.
    assert_eq!(&line[0..8], &[3, 3, 1, 1, 2, 2, 3, 3]);
    assert_eq!(&line[8..16], &[0, 0, 2, 2, 1, 1, 3, 3]);
    assert_eq!(&line[16..24], &[3u8; 8]);
    // With the background switched off nothing but the sprites shows.
    mem.write(0xFF40, 0x92);
    let line = draw(&mut ppu, &mem);
    assert_eq!(&line[0..10], &[3, 3, 1, 1, 2, 2, 0, 0, 3, 3]);
    assert_eq!(&line[16..24], &[0u8; 8]);
}

#[test]
fn one_line_takes_456_dots() {
    let mut mem = ppu_memory();
    let mut ppu = Ppu::default();
    assert_eq!(update_ppu(&mut ppu, &mut mem, 79), None);
    assert_eq!(ppu.state, PpuState::Oam);
    assert_eq!(mem.unchecked_read(0xFF41), 0x85);
    assert_eq!(update_ppu(&mut ppu, &mut mem, 1), None);
    assert_eq!(ppu.state, PpuState::Drawing);
    assert_eq!(mem.unchecked_read(0xFF41), 0x87);
    assert_eq!(update_ppu(&mut ppu, &mut mem, 97), None);
    let line = update_ppu(&mut ppu, &mut mem, 1);
    assert_eq!(line, Some(vec![0u8; 160]));
    assert_eq!(ppu.state, PpuState::HBlank);
    assert_eq!(mem.read(0xFF41), 0x84);
    assert_eq!(update_ppu(&mut ppu, &mut mem, 200), None);
    assert_eq!(update_ppu(&mut ppu, &mut mem, 77), None);
    assert_eq!(mem.read(0xFF44), 0);
    assert_eq!(update_ppu(&mut ppu, &mut mem, 1), None);
    assert_eq!(mem.read(0xFF44), 1);
    assert_eq!(ppu, Ppu { ticks: 0, state: PpuState::Oam, window_line: 0 });
    assert_eq!(mem.unchecked_read(0xFF41), 0x86);
    assert_eq!(update_ppu(&mut ppu, &mut mem, 4), None);
    assert_eq!(mem.unchecked_read(0xFF41), 0x82);
    assert_eq!(mem.read(0xFF0F), 0x00);
}

#[test]
fn vertical_blank_follows_line_143() {
    let mut mem = ppu_memory();
    let mut ppu = Ppu::default();
    for expected in 0..144u8 {
        assert_eq!(next_line(&mut ppu, &mut mem).len(), 160);
        assert_eq!(mem.read(0xFF44), expected);
    }
    assert_eq!(mem.read(0xFF0F) & 0x01, 0x00);
    while ppu.state == PpuState::HBlank {
        assert_eq!(update_ppu(&mut ppu, &mut mem, 4), None);
    }
    assert_eq!(ppu.state, PpuState::VBlank);
    assert_eq!(mem.read(0xFF44), 144);
    assert_eq!(mem.read(0xFF0F) & 0x01, 0x01);
    assert_eq!(mem.read(0xFF41) & 0x03, 0x01);
    let mut dots = 0;
    while ppu.state == PpuState::VBlank {
        assert_eq!(mem.read(0xFF44), 144 + (dots / 456) as u8);
        assert_eq!(update_ppu(&mut ppu, &mut mem, 4), None);
        dots += 4;
    }
    assert_eq!(dots, 4560);
    assert_eq!(mem.read(0xFF44), 0);
    assert_eq!(ppu, Ppu::default());
    assert_eq!(mem.read(0xFF41) & 0x03, 0x02);
}

#[test]
fn status_interrupts_follow_their_enable_bits() {
    let mut mem = ppu_memory();
    mem.write(0xFF41, 0x08);
    let mut ppu = Ppu::default();
    next_line(&mut ppu, &mut mem);
    assert_eq!(mem.read(0xFF0F), 0x02);
    let mut mem = ppu_memory();
    mem.write(0xFF41, 0x20);
    let mut ppu = Ppu::default();
    next_line(&mut ppu, &mut mem);
    assert_eq!(mem.read(0xFF0F), 0x00);
    while ppu.state == PpuState::HBlank {
        update_ppu(&mut ppu, &mut mem, 4);
    }
    assert_eq!(mem.read(0xFF0F), 0x02);
    let mut mem = ppu_memory();
    mem.write(0xFF41, 0x40);
    mem.write(0xFF45, 1);
    let mut ppu = Ppu::default();
    next_line(&mut ppu, &mut mem);
    while ppu.state == PpuState::HBlank {
        update_ppu(&mut ppu, &mut mem, 4);
    }
    assert_eq!(mem.read(0xFF0F), 0x00);
    update_ppu(&mut ppu, &mut mem, 4);
    assert_eq!(mem.read(0xFF0F), 0x02);
    assert_eq!(mem.unchecked_read(0xFF41) & 0x04, 0x04);
}

#[test]
fn stat_interrupt_stores_the_mode() {
    let mut mem = ppu_memory();
    mem.write(0xFF41, 0xFC);
    stat_interrupt(&mut mem, 0, 3);
    assert_eq!(mem.unchecked_read(0xFF41), 0xFF);
    assert_eq!(mem.read(0xFF0F), 0x00);
    stat_interrupt(&mut mem, 4, 1);
    assert_eq!(mem.unchecked_read(0xFF41), 0xFD);
    assert_eq!(mem.read(0xFF0F), 0x03);
    mem.write(0xFF0F, 0x00);
    mem.write(0xFF41, 0x00);
    stat_interrupt(&mut mem, 5, 2);
    assert_eq!(mem.unchecked_read(0xFF41), 0x02);
    assert_eq!(mem.read(0xFF0F), 0x00);
}

#[test]
fn display_off_freezes_the_picture_processor() {
    let mut mem = ppu_memory();
    mem.write(0xFF40, 0x11);
    let mut ppu = Ppu::default();
    for _ in 0..1000 {
        assert_eq!(update_ppu(&mut ppu, &mut mem, 255), None);
    }
    assert_eq!(ppu, Ppu::default());
    assert_eq!(mem.read(0xFF44), 0);
    let mut line_ppu = Ppu::default();
    line_ppu.line_reset();
    assert_eq!(line_ppu, Ppu::default());
}
