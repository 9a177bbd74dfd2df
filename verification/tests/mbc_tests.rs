use gb_core::error::CoreError;
use gb_core::mbc::{bank_count, create_mbc, MBC};
use gb_core::memory::Memory;

fn banked_rom(type_code: u8, size_code: u8, banks: usize) -> Vec<u8> {
    let mut rom = vec![0u8; banks * 0x4000];
    for bank in 0..banks {
        for i in 0..0x4000 {
            rom[bank * 0x4000 + i] = bank as u8;
        }
    }
    rom[0x147] = type_code;
    rom[0x148] = size_code;
    rom
}

#[test]
fn size_codes() {
    assert_eq!(bank_count(0), Some(2));
    assert_eq!(bank_count(1), Some(4));
    assert_eq!(bank_count(5), Some(64));
    assert_eq!(bank_count(8), Some(512));
    assert_eq!(bank_count(0x52), Some(72));
    assert_eq!(bank_count(0x53), Some(80));
    assert_eq!(bank_count(0x54), Some(96));
    assert_eq!(bank_count(9), None);
    assert_eq!(bank_count(0x51), None);
    assert_eq!(bank_count(0xFF), None);
}

#[test]
fn mbc1_bank_switch() {
    let mut mem = Memory::with_padding(banked_rom(0x01, 0x01, 4), true, Vec::new()).unwrap();
    assert_eq!(mem.read(0x4000), 1);
    mem.write(0x2000, 0x02);
    assert_eq!(mem.read(0x4000), 2);
    mem.write(0x2000, 0x00);
    assert_eq!(mem.read(0x4000), 1);
    mem.write(0x2000, 0x03);
    assert_eq!(mem.read(0x7FFF), 3);
    mem.write(0x2000, 0x21);
    assert_eq!(mem.read(0x4000), 1);
    assert_eq!(mem.read(0x0000), 0);
    assert_eq!(mem.read(0x3FFF), 0);
}

#[test]
fn mbc1_with_two_banks_always_shows_bank_one() {
    let mut cart = create_mbc(&banked_rom(0x00, 0x00, 2)).unwrap();
    for data in [0x00u8, 0x01, 0x02, 0x1F, 0xFF] {
        cart.write_rom(0x2000, data);
        assert_eq!(cart.read_rom(0x4000), 1);
    }
}

#[test]
fn mbc1_masks_the_bank_by_the_size_of_the_image() {
    let mut cart = create_mbc(&banked_rom(0x01, 0x02, 8)).unwrap();
    cart.write_rom(0x3FFF, 0x0F);
    assert_eq!(cart.read_rom(0x4000), 7);
    cart.write_rom(0x2000, 0x08);
    assert_eq!(cart.read_rom(0x4000), 0);
    let mut cart = create_mbc(&banked_rom(0x01, 0x04, 32)).unwrap();
    cart.write_rom(0x2000, 0xFF);
    assert_eq!(cart.read_rom(0x4000), 31);
    cart.write_rom(0x4000, 0x03);
    cart.write_rom(0x2000, 0x05);
    assert_eq!(cart.read_rom(0x4000), 5);
}

#[test]
fn mbc1_large_carts_extend_the_bank_by_the_secondary_register() {
    let mut cart = create_mbc(&banked_rom(0x01, 0x05, 64)).unwrap();
    cart.write_rom(0x4000, 0x03);
    cart.write_rom(0x2000, 0x02);
    assert_eq!(cart.read_rom(0x4000), 34);
    assert_eq!(cart.read_rom(0x0000), 0);
    cart.write_rom(0x6000, 0x01);
    assert_eq!(cart.read_rom(0x0000), 32);
    cart.write_rom(0x6000, 0x00);
    assert_eq!(cart.read_rom(0x0000), 0);
    let mut cart = create_mbc(&banked_rom(0x01, 0x06, 128)).unwrap();
    cart.write_rom(0x4000, 0x03);
    cart.write_rom(0x2000, 0x1F);
    assert_eq!(cart.read_rom(0x4000), 127);
    cart.write_rom(0x6000, 0x01);
    assert_eq!(cart.read_rom(0x0100), 96);
    // An explicit zero selects bank 1, whatever the secondary register holds.
    cart.write_rom(0x2000, 0x00);
    assert_eq!(cart.read_rom(0x4000), 1);
}

#[test]
fn mbc1_ram_is_gated_and_banked() {
    let mut cart = create_mbc(&banked_rom(0x03, 0x00, 2)).unwrap();
    cart.write_ram(0xA000, 0x11);
    assert_eq!(cart.read_ram(0xA000), 0x11);
    cart.write_rom(0x4000, 0x02);
    assert_eq!(cart.read_ram(0xA000), 0x00);
    cart.write_ram(0xBFFF, 0x22);
    assert_eq!(cart.read_ram(0xBFFF), 0x22);
    cart.write_rom(0x0000, 0x00);
    assert_eq!(cart.read_ram(0xBFFF), 0xFF);
    cart.write_ram(0xBFFF, 0x33);
    cart.write_rom(0x1FFF, 0x0A);
    assert_eq!(cart.read_ram(0xBFFF), 0x22);
    cart.write_rom(0x0000, 0x0F);
    assert_eq!(cart.read_ram(0xBFFF), 0xFF);
    cart.write_rom(0x0000, 0x3A);
    cart.write_rom(0x4000, 0x00);
    assert_eq!(cart.read_ram(0xA000), 0x11);
}

#[test]
fn mbc2_holds_nibbles_and_selects_banks_by_address_bit_8() {
    let mut cart = create_mbc(&banked_rom(0x05, 0x03, 16)).unwrap();
    cart.write_ram(0xA000, 0xAB);
    assert_eq!(cart.read_ram(0xA000), 0x0B);
    assert_eq!(cart.read_ram(0xA200), 0x0B);
    cart.write_ram(0xA1FF, 0x1C);
    assert_eq!(cart.read_ram(0xBFFF), 0x0C);
    assert_eq!(cart.read_rom(0x4000), 1);
    cart.write_rom(0x2100, 0x03);
    assert_eq!(cart.read_rom(0x4000), 3);
    cart.write_rom(0x0100, 0x1F);
    assert_eq!(cart.read_rom(0x4000), 15);
    cart.write_rom(0x3F00, 0x00);
    assert_eq!(cart.read_rom(0x4000), 1);
    cart.write_rom(0x2000, 0x00);
    assert_eq!(cart.read_ram(0xA000), 0xFF);
    cart.write_ram(0xA000, 0x05);
    cart.write_rom(0x0000, 0x0A);
    assert_eq!(cart.read_ram(0xA000), 0x0B);
    assert_eq!(cart.read_rom(0x4000), 1);
    assert_eq!(cart.read_rom(0x0000), 0);
}

#[test]
fn mbc3_selects_rom_and_ram_banks() {
    let mut cart = create_mbc(&banked_rom(0x13, 0x05, 64)).unwrap();
    assert_eq!(cart.read_rom(0x4000), 1);
    cart.write_rom(0x2000, 0x3F);
    assert_eq!(cart.read_rom(0x4000), 63);
    cart.write_rom(0x2000, 0x80);
    assert_eq!(cart.read_rom(0x4000), 1);
    cart.write_rom(0x2000, 0x45);
    assert_eq!(cart.read_rom(0x4000), 5);
    cart.write_ram(0xA000, 0x10);
    cart.write_rom(0x4000, 0x07);
    assert_eq!(cart.read_ram(0xA000), 0x00);
    cart.write_ram(0xA000, 0x17);
    cart.write_rom(0x4000, 0x08);
    assert_eq!(cart.read_ram(0xA000), 0x17);
    cart.write_rom(0x6000, 0x01);
    assert_eq!(cart.read_ram(0xA000), 0x17);
    cart.write_rom(0x4000, 0x00);
    assert_eq!(cart.read_ram(0xA000), 0x10);
    cart.write_rom(0x0000, 0x00);
    assert_eq!(cart.read_ram(0xA000), 0xFF);
}

#[test]
fn controllers_by_type_code() {
    for code in [0x00u8, 0x01, 0x02, 0x03, 0x05, 0x06, 0x0F, 0x10, 0x11, 0x12, 0x13] {
        assert!(create_mbc(&banked_rom(code, 0x00, 2)).is_ok());
    }
    for code in [0x04u8, 0x07, 0x08, 0x0E, 0x14, 0x19, 0xFF] {
        assert_eq!(create_mbc(&banked_rom(code, 0x00, 2)).unwrap_err(), CoreError::UnsupportedCartridge);
    }
}

#[test]
fn image_must_hold_the_banks_it_declares() {
    assert_eq!(create_mbc(&banked_rom(0x00, 0x01, 2)).unwrap_err(), CoreError::UnsupportedCartridge);
    assert_eq!(create_mbc(&vec![0u8; 0x14F]).unwrap_err(), CoreError::UnsupportedCartridge);
    // A longer file is cut to the banks that the header declares.
    let mut cart = create_mbc(&banked_rom(0x01, 0x00, 4)).unwrap();
    cart.write_rom(0x2000, 0x03);
    assert_eq!(cart.read_rom(0x4000), 1);
    assert!(create_mbc(&banked_rom(0x00, 0x52, 72)).is_ok());
}

#[test]
fn cartridge_ram_through_the_bus() {
    let mut mem = Memory::with_padding(banked_rom(0x03, 0x00, 2), true, Vec::new()).unwrap();
    mem.write(0xA123, 0x5A);
    assert_eq!(mem.read(0xA123), 0x5A);
    mem.write(0x0000, 0x00);
    assert_eq!(mem.read(0xA123), 0xFF);
    mem.write(0xA123, 0x77);
    mem.write(0x0000, 0x0A);
    assert_eq!(mem.read(0xA123), 0x5A);
    assert_eq!(mem.unchecked_read(0xA123), 0x5A);
}
