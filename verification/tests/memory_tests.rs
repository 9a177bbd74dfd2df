use gb_core::error::CoreError;
use gb_core::joypad::{joypad, KeyState};
use gb_core::memory::{process_dma, Memory};
use gb_core::system::{joypad_interrupt, serial_output};
use gb_core::tile::{get_individual_pixels, pack_row};
use gb_core::util::{to_signed, to_unsigned, with_bit, test_bit, NINTENDO_LOGO};

fn plain_rom() -> Vec<u8> {
    let mut rom = vec![0u8; 0x8000];
    for i in 0..0x8000 {
        rom[i] = (i % 251) as u8;
    }
    rom[0x147] = 0x00;
    rom[0x148] = 0x00;
    rom
}

fn plain_memory() -> Memory {
    Memory::with_padding(plain_rom(), true, Vec::new()).unwrap()
}

#[test]
fn booted_registers_hold_their_documented_values() {
    let mem = plain_memory();
    assert_eq!(mem.unchecked_read(0xFF00), 0xFF);
    assert_eq!(mem.read(0xFF02), 0x7E);
    assert_eq!(mem.read(0xFF04), 0x18);
    assert_eq!(mem.read(0xFF07), 0xF8);
    assert_eq!(mem.read(0xFF0F), 0xE1);
    assert_eq!(mem.read(0xFF40), 0x91);
    assert_eq!(mem.read(0xFF41), 0x81);
    assert_eq!(mem.read(0xFF44), 0x00);
    assert_eq!(mem.read(0xFF46), 0xFF);
    assert_eq!(mem.read(0xFFFF), 0x00);
    assert_eq!(mem.div(), 0);
}

#[test]
fn padding_fills_the_ram_below_the_sprite_table() {
    let mut padding = vec![0u8; 0xFE00];
    padding[0xC123] = 0x77;
    padding[0x8000] = 0x11;
    padding[0xFDFF] = 0x99;
    let mem = Memory::with_padding(plain_rom(), true, padding).unwrap();
    assert_eq!(mem.read(0xC123), 0x77);
    assert_eq!(mem.read(0x8000), 0x11);
    assert_eq!(mem.read(0xFE00), 0x00);
    // The cartridge windows never show the padding.
    assert_eq!(mem.read(0x0005), 5);
}

#[test]
fn new_memory_has_random_ram() {
    let mem = Memory::new(plain_rom(), true).unwrap();
    let mut nonzero = 0;
    for a in 0xC000u16..0xDE00 {
        if mem.read(a) != 0 {
            nonzero += 1;
        }
    }
    assert!(nonzero > 0);
    assert_eq!(mem.read(0xFF40), 0x91);
    assert_eq!(mem.read(0xFF80), 0x00);
}

#[test]
fn unbooted_memory_shows_the_logo() {
    let mem = Memory::with_padding(plain_rom(), false, Vec::new()).unwrap();
    for i in 0..48u16 {
        assert_eq!(mem.read(0x104 + i), NINTENDO_LOGO[i as usize]);
    }
    assert_eq!(mem.read(0x103), (0x103 % 251) as u8);
    assert_eq!(mem.read(0x134), (0x134 % 251) as u8);
    assert_eq!(mem.read(0xFF40), 0x00);
    let booted = plain_memory();
    assert_eq!(booted.read(0x104), (0x104 % 251) as u8);
}

#[test]
fn unsupported_cartridges_are_refused() {
    let mut rom = plain_rom();
    rom[0x147] = 0x20;
    assert_eq!(Memory::with_padding(rom, true, Vec::new()).unwrap_err(), CoreError::UnsupportedCartridge);
    let mut rom = plain_rom();
    rom[0x148] = 0x09;
    assert_eq!(Memory::new(rom, true).unwrap_err(), CoreError::UnsupportedCartridge);
    let mut rom = plain_rom();
    rom[0x148] = 0x01;
    assert_eq!(Memory::new(rom, false).unwrap_err(), CoreError::UnsupportedCartridge);
    assert_eq!(Memory::new(vec![0u8; 0x100], true).unwrap_err(), CoreError::UnsupportedCartridge);
    assert_eq!(Memory::new(Vec::new(), false).unwrap_err(), CoreError::UnsupportedCartridge);
}

#[test]
fn work_ram_mirror_reads_alike() {
    let mut mem = plain_memory();
    mem.write(0xC000, 0x12);
    mem.write(0xDDFF, 0x34);
    mem.write(0xE123, 0x56);
    mem.write(0xFDFF, 0x78);
    assert_eq!(mem.read(0xE000), 0x12);
    assert_eq!(mem.read(0xC123), 0x56);
    assert_eq!(mem.read(0xDDFF), 0x78);
    for a in 0xC000u16..=0xDDFF {
        assert_eq!(mem.read(a), mem.read(a + 0x2000));
        assert_eq!(mem.unchecked_read(a), mem.unchecked_read(a + 0x2000));
    }
    // DE00..DFFF has no mirror: FE00 is sprite memory.
    mem.write(0xDE00, 0x9A);
    assert_eq!(mem.unchecked_read(0xFE00), 0x00);
}

#[test]
fn mirror_holds_for_random_ram() {
    let mem = Memory::new(plain_rom(), true).unwrap();
    for a in 0xC000u16..=0xDDFF {
        assert_eq!(mem.read(a), mem.read(a + 0x2000));
    }
}

#[test]
fn words_are_little_endian() {
    let mut mem = plain_memory();
    mem.write_word(0xC000, 0x1234);
    assert_eq!(mem.read(0xC000), 0x34);
    assert_eq!(mem.read(0xC001), 0x12);
    assert_eq!(mem.read_word(0xC000), 0x1234);
    mem.write(0xFFFF, 0xAB);
    assert_eq!(mem.read_word(0xFFFF), 0x00AB);
    mem.write_word(0xFFFF, 0x11CD);
    assert_eq!(mem.read(0xFFFF), 0xCD);
}

#[test]
fn any_write_to_the_divider_clears_it() {
    let mut mem = plain_memory();
    mem.set_div(0x55);
    mem.write(0xFF04, 0x99);
    assert_eq!(mem.read(0xFF04), 0);
    assert_eq!(mem.div(), 0);
    mem.unchecked_write(0xFF04, 0x99);
    assert_eq!(mem.read(0xFF04), 0x99);
}

#[test]
fn switching_the_display_off_clears_mode_and_line() {
    let mut mem = plain_memory();
    mem.write(0xFF41, 0x83);
    mem.write(0xFF44, 0x42);
    mem.write(0xFF40, 0x11);
    assert_eq!(mem.read(0xFF40), 0x11);
    assert_eq!(mem.read(0xFF41), 0x80);
    assert_eq!(mem.read(0xFF44), 0x00);
    mem.write(0xFF41, 0x83);
    mem.write(0xFF44, 0x42);
    mem.write(0xFF40, 0x91);
    assert_eq!(mem.read(0xFF40), 0x91);
    assert_eq!(mem.unchecked_read(0xFF41), 0x83);
    assert_eq!(mem.read(0xFF44), 0x42);
}

#[test]
fn joypad_register_follows_select_lines_and_keys() {
    let mut mem = plain_memory();
    let mut keys = KeyState::default();
    keys.a = true;
    keys.right = true;
    keys.down = true;
    mem.set_keys(keys);
    mem.write(0xFF00, 0x10);
    assert_eq!(mem.read(0xFF00), 0x1E);
    mem.write(0xFF00, 0x20);
    assert_eq!(mem.read(0xFF00), 0x26);
    mem.write(0xFF00, 0x30);
    assert_eq!(mem.read(0xFF00), 0x3F);
    mem.write(0xFF00, 0x00);
    assert_eq!(mem.read(0xFF00), 0x0F);
    mem.write(0xFF00, 0xDF);
    assert_eq!(mem.read(0xFF00), 0xDE);
    assert_eq!(mem.unchecked_read(0xFF00), 0xDF);
}

#[test]
fn joypad_nibbles() {
    let none = KeyState::default();
    assert_eq!(joypad(0x10, &none), 0x1F);
    assert_eq!(joypad(0x20, &none), 0x2F);
    let all = KeyState { a: true, b: true, select: true, start: true, right: true, left: true, up: true, down: true };
    assert_eq!(joypad(0x10, &all), 0x10);
    assert_eq!(joypad(0x20, &all), 0x20);
    assert_eq!(joypad(0x30, &all), 0x3F);
    assert_eq!(joypad(0x00, &all), 0x0F);
    let some = KeyState { b: true, start: true, left: true, up: true, ..none };
    assert_eq!(joypad(0x1F, &some), 0x15);
    assert_eq!(joypad(0xEF, &some), 0xE9);
}

#[test]
fn joypad_interrupt_sets_bit_4() {
    let mut mem = plain_memory();
    mem.write(0xFF0F, 0x01);
    joypad_interrupt(&mut mem, false);
    assert_eq!(mem.read(0xFF0F), 0x01);
    joypad_interrupt(&mut mem, true);
    assert_eq!(mem.read(0xFF0F), 0x11);
    joypad_interrupt(&mut mem, true);
    assert_eq!(mem.read(0xFF0F), 0x11);
}

#[test]
fn serial_output_takes_the_byte_and_clears_the_request() {
    let mut mem = plain_memory();
    mem.write(0xFF01, b'x');
    assert_eq!(serial_output(&mut mem), None);
    assert_eq!(mem.read(0xFF02), 0x7E);
    mem.write(0xFF02, 0x81);
    assert_eq!(serial_output(&mut mem), Some(b'x'));
    assert_eq!(mem.read(0xFF02), 0x00);
    assert_eq!(serial_output(&mut mem), None);
}

#[test]
fn picture_processor_modes_block_reads() {
    let mut mem = plain_memory();
    mem.write(0x8000, 0x11);
    mem.write(0xFE00, 0x22);
    mem.write(0xFE9F, 0x33);
    mem.write(0xFEA0, 0x44);
    for mode in 0..4u8 {
        mem.write(0xFF41, 0x80 | mode);
        let oam_blocked = mode == 2 || mode == 3;
        let vram_blocked = mode == 3;
        assert_eq!(mem.read(0xFE00), if oam_blocked { 0xFF } else { 0x22 });
        assert_eq!(mem.read(0xFE9F), if oam_blocked { 0xFF } else { 0x33 });
        assert_eq!(mem.read(0xFEA0), 0x44);
        assert_eq!(mem.read(0x8000), if vram_blocked { 0xFF } else { 0x11 });
        assert_eq!(mem.unchecked_read(0xFE00), 0x22);
        assert_eq!(mem.unchecked_read(0x8000), 0x11);
    }
}

#[test]
fn dma_copies_160_bytes_into_sprite_memory() {
    let mut mem = plain_memory();
    for i in 0..0x100u16 {
        mem.write(0xC100 + i, (i as u8) ^ 0x5A);
    }
    mem.write(0xFEA0, 0x77);
    mem.write(0xFF46, 0xC1);
    for i in 0..0xA0u16 {
        assert_eq!(mem.unchecked_read(0xFE00 + i), (i as u8) ^ 0x5A);
    }
    assert_eq!(mem.unchecked_read(0xFEA0), 0x77);
    // The register itself keeps its value.
    assert_eq!(mem.read(0xFF46), 0xFF);
}

#[test]
fn dma_reads_the_cartridge_and_the_mirror() {
    let mut mem = plain_memory();
    process_dma(&mut mem, 0x02);
    for i in 0..0xA0u16 {
        assert_eq!(mem.unchecked_read(0xFE00 + i), ((0x200 + i as usize) % 251) as u8);
    }
    mem.write(0xC000, 0xAB);
    mem.write(0xC09F, 0xCD);
    process_dma(&mut mem, 0xE0);
    assert_eq!(mem.unchecked_read(0xFE00), 0xAB);
    assert_eq!(mem.unchecked_read(0xFE9F), 0xCD);
    process_dma(&mut mem, 0xFE);
    assert_eq!(mem.unchecked_read(0xFE00), 0xAB);
    assert_eq!(mem.unchecked_read(0xFE9F), 0xCD);
}

#[test]
fn sprite_entries_are_four_bytes() {
    let mut mem = plain_memory();
    for i in 0..160u16 {
        mem.write(0xFE00 + i, i as u8);
    }
    assert_eq!(mem.oam_search(0), [0, 1, 2, 3]);
    assert_eq!(mem.oam_search(39), [156, 157, 158, 159]);
}

#[test]
fn tile_rows_decode_most_significant_bit_first() {
    let mut mem = plain_memory();
    mem.write(0x8010, 0b1010_0101);
    mem.write(0x8011, 0b1100_0011);
    mem.write(0x801E, 0xFF);
    mem.write(0x801F, 0x00);
    let rows = mem.read_tile(0x8010);
    assert_eq!(get_individual_pixels(rows[0]), vec![3, 2, 1, 0, 0, 1, 2, 3]);
    assert_eq!(get_individual_pixels(rows[1]), vec![0; 8]);
    assert_eq!(get_individual_pixels(rows[7]), vec![1; 8]);
    assert_eq!(rows[7], 0x5555);
    assert_eq!(pack_row(0x00, 0xFF), 0xAAAA);
    assert_eq!(pack_row(0x80, 0x01), 0x4002);
}

#[test]
fn tile_rows_survive_encoding_and_decoding() {
    let rows: [[u8; 8]; 4] = [
        [0, 1, 2, 3, 3, 2, 1, 0],
        [3, 3, 3, 3, 3, 3, 3, 3],
        [0, 0, 0, 0, 0, 0, 0, 0],
        [1, 0, 2, 0, 3, 0, 1, 2],
    ];
    for row in rows.iter() {
        let mut low = 0u8;
        let mut high = 0u8;
        for (k, p) in row.iter().enumerate() {
            low |= (p & 1) << (7 - k);
            high |= ((p >> 1) & 1) << (7 - k);
        }
        assert_eq!(get_individual_pixels(pack_row(low, high)), row.to_vec());
    }
}

#[test]
fn map_entries_name_tiles_in_two_ways() {
    let mut mem = plain_memory();
    mem.write(0x8010, 0xFF);
    mem.write(0x8800, 0x0F);
    mem.write(0x9010, 0xF0);
    mem.write(0x9800, 0x01);
    mem.write(0x9801, 0x80);
    assert_eq!(mem.read_bg_tile(0x9800, 0x8000)[0], pack_row(0xFF, 0));
    assert_eq!(mem.read_bg_tile(0x9800, 0x8800)[0], pack_row(0xF0, 0));
    assert_eq!(mem.read_bg_tile(0x9801, 0x8000)[0], pack_row(0x0F, 0));
    assert_eq!(mem.read_bg_tile(0x9801, 0x8800)[0], pack_row(0x0F, 0));
}

#[test]
fn bytes_as_signed_offsets() {
    assert_eq!(to_signed(0x00), 0);
    assert_eq!(to_signed(0x7F), 127);
    assert_eq!(to_signed(0x80), -128);
    assert_eq!(to_signed(0xFF), -1);
    for b in 0..=255u8 {
        assert_eq!(to_unsigned(to_signed(b)), b);
    }
}

#[test]
fn single_bits() {
    assert!(test_bit(0x80, 7));
    assert!(!test_bit(0x7F, 7));
    assert_eq!(with_bit(0x00, 3, true), 0x08);
    assert_eq!(with_bit(0xFF, 3, false), 0xF7);
    assert_eq!(with_bit(0x08, 3, true), 0x08);
    for v in 0..=255u8 {
        for n in 0..8u8 {
            assert_eq!(test_bit(v, n), v & (1 << n) != 0);
            assert_eq!(with_bit(v, n, true), v | (1 << n));
            assert_eq!(with_bit(v, n, false), v & !(1 << n));
        }
    }
}
