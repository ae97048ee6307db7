use rusty_boy::cartridge::cartridge_header::CartridgeHeader;
use rusty_boy::cartridge::{Cartridge, CartridgeError};
use rusty_boy::cpu::CPU;

/// A ROM image of `banks` 16 KiB banks with a valid header.
fn rom_image(cart_type: u8, rom_size: u8, ram_size: u8, banks: usize) -> Vec<u8> {
    let mut rom = vec![0u8; banks * 0x4000];
    for (i, b) in b"TESTROM".iter().enumerate() {
        rom[0x134 + i] = *b;
    }
    for i in 0..48 {
        rom[0x104 + i] = (i as u8).wrapping_mul(7).wrapping_add(3);
    }
    rom[0x147] = cart_type;
    rom[0x148] = rom_size;
    rom[0x149] = ram_size;
    rom[0x14d] = CartridgeHeader::compute_check_sum(&rom);
    for bank in 1..banks {
        rom[bank * 0x4000] = bank as u8;
        rom[bank * 0x4000 + 1] = 0xa5;
    }
    rom
}

#[test]
fn cartridge_errors_are_reported() {
    assert!(matches!(Cartridge::new(vec![0u8; 0x14f]), Err(CartridgeError::CartridgeTooShort)));
    let mut rom = rom_image(0x00, 0, 0, 2);
    rom[0x147] = 0x05;
    assert!(matches!(Cartridge::new(rom), Err(CartridgeError::UnsupportedCartridgeType(0x05))));
    let mut rom = rom_image(0x00, 0, 0, 2);
    rom[0x147] = 0x01;
    rom[0x148] = 0xff;
    let mut big = Cartridge::new(rom).unwrap();
    big.write(0x2000, 0x03);
    assert_eq!(big.read(0x4000), 0xff);
    let mut rom = rom_image(0x01, 0, 0, 2);
    rom[0x148] = 9;
    let mut cart = Cartridge::new(rom).unwrap();
    cart.write(0x2000, 0x1f);
    assert_eq!(cart.read(0x4000), 0xff);
    let mut rom = rom_image(0x00, 0, 0, 2);
    rom[0x149] = 6;
    assert!(matches!(Cartridge::new(rom), Err(CartridgeError::UnsupportedRamSize(6))));
    assert!(CPU::new(vec![1, 2, 3]).is_err());
}

#[test]
fn checksum_mismatch_is_only_a_warning() {
    let mut rom = rom_image(0x00, 0, 0, 2);
    rom[0x14d] = rom[0x14d].wrapping_add(1);
    assert!(Cartridge::new(rom.clone()).is_ok());
    match CartridgeHeader::from_bytes(&rom) {
        Err(rusty_boy::cartridge::cartridge_header::HeaderError::HeaderChecksumMismatch(h)) => {
            assert_eq!(h.cartridge_type, 0);
        }
        _ => panic!("expected a checksum mismatch"),
    }
}

#[test]
fn header_checksum_value() {
    let mut bytes = vec![0u8; 0x150];
    // 25 bytes of zero: each contributes 0xFF, so the sum is 25 * 255 mod 256 = 0xE7.
    assert_eq!(CartridgeHeader::compute_check_sum(&bytes), 0xe7);
    bytes[0x134] = 0xff;
    assert_eq!(CartridgeHeader::compute_check_sum(&bytes), 0xe8);
}

#[test]
fn header_round_trip_logo_and_title() {
    let rom = rom_image(0x01, 1, 2, 4);
    let h = CartridgeHeader::from_bytes(&rom).unwrap();
    assert_eq!(h.ram_size, 2);
    assert_eq!(h.rom_size, 1);
    let out = h.to_bytes();
    assert_eq!(out.len(), 0x150);
    assert_eq!(&out[0x104..0x144], &rom[0x104..0x144]);
    assert_eq!(out[0x147], 0x01);
    assert_eq!(out[0x14d], rom[0x14d]);
}

#[test]
fn mbc1_bank_select() {
    let rom = rom_image(0x01, 2, 0, 8);
    let mut cart = Cartridge::new(rom.clone()).unwrap();
    cart.write(0x2000, 0x00);
    assert_eq!(cart.read(0x4000), rom[0x4000]);
    assert_eq!(cart.read(0x4000), 1);
    cart.write(0x2000, 0x05);
    assert_eq!(cart.read(0x4000), rom[5 * 0x4000]);
    assert_eq!(cart.read(0x4000), 5);
    assert_eq!(cart.read(0x4001), 0xa5);
    assert_eq!(cart.read(0x0000), rom[0]);
}

#[test]
fn mbc1_never_maps_bank_0x20() {
    let rom = rom_image(0x01, 5, 0, 64);
    let mut cart = Cartridge::new(rom.clone()).unwrap();
    cart.write(0x2000, 0x20);
    cart.write(0x4000, 0x01);
    assert_eq!(cart.read(0x4000), 0x21);
    cart.write(0x4000, 0x00);
    assert_eq!(cart.read(0x4000), 0x01);
}

#[test]
fn mbc1_ram_needs_enable() {
    let rom = rom_image(0x03, 1, 2, 4);
    let mut cart = Cartridge::new(rom).unwrap();
    assert_eq!(cart.ram.len(), 0x2000);
    cart.write(0xa010, 0x42);
    assert_eq!(cart.read(0xa010), 0xff);
    cart.write(0x0000, 0x0a);
    cart.write(0xa010, 0x42);
    assert_eq!(cart.read(0xa010), 0x42);
    cart.write(0x0000, 0x00);
    assert_eq!(cart.read(0xa010), 0xff);
}

#[test]
fn mbc3_banks_and_clock_registers() {
    let rom = rom_image(0x13, 2, 3, 8);
    let mut cart = Cartridge::new(rom.clone()).unwrap();
    cart.write(0x2000, 0x00);
    assert_eq!(cart.read(0x4000), 1);
    cart.write(0x2000, 0x06);
    assert_eq!(cart.read(0x4000), 6);
    cart.write(0x0000, 0x0a);
    cart.write(0x4000, 0x02);
    cart.write(0xa000, 0x77);
    assert_eq!(cart.read(0xa000), 0x77);
    cart.write(0x4000, 0x00);
    assert_eq!(cart.read(0xa000), 0x00);
    cart.write(0x4000, 0x08);
    cart.write(0xa000, 0x2a);
    assert_eq!(cart.read(0xa000), 0x2a);
    cart.write(0x4000, 0x0d);
    assert_eq!(cart.read(0xa000), 0xff);
}

#[test]
fn mbc0_maps_rom_directly() {
    let rom = rom_image(0x00, 0, 0, 2);
    let mut cart = Cartridge::new(rom.clone()).unwrap();
    cart.write(0x4000, 0x09);
    assert_eq!(cart.read(0x4000), 1);
    assert_eq!(cart.read(0x0147), 0);
    assert_eq!(cart.read(0xa000), 0xff);
}
