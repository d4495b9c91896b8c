use gameboy::system::cartridge::{Cartridge, Mode, MBC};
use gameboy::system::error::EmulatorError;
use gameboy::system::rtc::RealTimeClock;

fn image(cart_type: u8, rom_code: u8, ram_code: u8, size: usize) -> Vec<u8> {
    let mut rom = vec![0u8; size];
    rom[0x147] = cart_type;
    rom[0x148] = rom_code;
    rom[0x149] = ram_code;
    let mut bank = 1;
    while bank * 0x4000 < size {
        rom[bank * 0x4000] = bank as u8;
        if bank * 0x4000 + 1 < size {
            rom[bank * 0x4000 + 1] = (bank >> 8) as u8;
        }
        bank += 1;
    }
    rom
}

fn cartridge(cart_type: u8, rom_code: u8, ram_code: u8, size: usize) -> Cartridge {
    let mut cart = match Cartridge::new(image(cart_type, rom_code, ram_code, size)) {
        Ok(cart) => cart,
        Err(_) => panic!("the image was refused"),
    };
    assert_eq!(cart.determine_mbc(None), Ok(()));
    cart
}

#[test]
fn header_size_codes() {
    let cart = cartridge(0x00, 0x00, 0x00, 0x8000);
    let get_rom_size = |code: u8| cart.get_rom_size(code);
    let get_ram_size = |code: u8| cart.get_ram_size(code);
    assert_eq!(get_rom_size(0x00), Some(0x8000));
    assert_eq!(get_rom_size(0x01), Some(0x1_0000));
    assert_eq!(get_rom_size(0x02), Some(0x2_0000));
    assert_eq!(get_rom_size(0x03), Some(0x4_0000));
    assert_eq!(get_rom_size(0x04), Some(0x8_0000));
    assert_eq!(get_rom_size(0x05), Some(0x10_0000));
    assert_eq!(get_rom_size(0x06), Some(0x20_0000));
    assert_eq!(get_rom_size(0x07), Some(0x40_0000));
    assert_eq!(get_rom_size(0x08), Some(0x80_0000));
    assert_eq!(get_rom_size(0x52), Some(0x12_0000));
    assert_eq!(get_rom_size(0x53), Some(0x14_0000));
    assert_eq!(get_rom_size(0x54), Some(0x18_0000));
    assert_eq!(get_rom_size(0x09), None);
    assert_eq!(get_rom_size(0xFF), None);
    assert_eq!(get_ram_size(0x00), Some(0));
    assert_eq!(get_ram_size(0x01), Some(0x800));
    assert_eq!(get_ram_size(0x02), Some(0x2000));
    assert_eq!(get_ram_size(0x03), Some(0x8000));
    assert_eq!(get_ram_size(0x04), Some(0x2_0000));
    assert_eq!(get_ram_size(0x05), Some(0x1_0000));
    assert_eq!(get_ram_size(0x06), None);
}

#[test]
fn short_or_unknown_images_are_refused() {
    assert!(matches!(Cartridge::new(vec![0u8; 0x14F]), Err(EmulatorError::InvalidHeader)));
    assert!(matches!(
        Cartridge::new(image(0x00, 0x09, 0x00, 0x8000)),
        Err(EmulatorError::InvalidHeader)
    ));
    let fresh = match Cartridge::new(image(0x13, 0x00, 0x02, 0x150)) {
        Ok(cart) => cart,
        Err(_) => panic!("the image was refused"),
    };
    assert_eq!(fresh.mbc, MBC::RomOnly);
    assert_eq!(fresh.ram_size, 0);
    assert_eq!(fresh.rom_bank, 1);
    assert_eq!(fresh.bank_mode, Mode::Rom);
    assert!(!fresh.ram_enabled);
}

#[test]
fn mapper_is_read_from_the_header() {
    let kinds = [
        (0x00u8, MBC::RomOnly),
        (0x01, MBC::MBC1),
        (0x02, MBC::MBC1),
        (0x03, MBC::MBC1),
        (0x05, MBC::MBC2),
        (0x06, MBC::MBC2),
        (0x0F, MBC::MBC3),
        (0x10, MBC::MBC3),
        (0x11, MBC::MBC3),
        (0x12, MBC::MBC3),
        (0x13, MBC::MBC3),
        (0x19, MBC::MBC5),
        (0x1A, MBC::MBC5),
        (0x1B, MBC::MBC5),
    ];
    for (code, mbc) in kinds {
        let cart = cartridge(code, 0x00, 0x02, 0x8000);
        assert_eq!(cart.mbc, mbc);
    }
    for code in [0x04u8, 0x07, 0x0E, 0x14, 0x18, 0x1C, 0x20, 0xFF] {
        let mut cart = Cartridge::new(image(code, 0x00, 0x00, 0x8000)).ok().unwrap();
        assert_eq!(cart.determine_mbc(None), Err(EmulatorError::InvalidHeader));
        assert_eq!(cart.mbc, MBC::RomOnly);
    }
}

#[test]
fn ram_size_follows_type_and_header() {
    assert_eq!(cartridge(0x00, 0x00, 0x03, 0x8000).ram_size, 0);
    assert_eq!(cartridge(0x01, 0x00, 0x03, 0x8000).ram_size, 0);
    assert_eq!(cartridge(0x02, 0x00, 0x03, 0x8000).ram_size, 0x8000);
    assert_eq!(cartridge(0x03, 0x00, 0x01, 0x8000).ram_size, 0x800);
    assert_eq!(cartridge(0x05, 0x00, 0x00, 0x8000).ram_size, 0x200);
    assert_eq!(cartridge(0x06, 0x00, 0x03, 0x8000).ram_size, 0x200);
    assert_eq!(cartridge(0x0F, 0x00, 0x03, 0x8000).ram_size, 0);
    assert_eq!(cartridge(0x10, 0x00, 0x02, 0x8000).ram_size, 0x2000);
    assert_eq!(cartridge(0x13, 0x00, 0x04, 0x8000).ram_size, 0x2_0000);
    assert_eq!(cartridge(0x1B, 0x00, 0x05, 0x8000).ram_size, 0x1_0000);
    let mut bad = Cartridge::new(image(0x02, 0x00, 0x06, 0x8000)).ok().unwrap();
    assert_eq!(bad.determine_mbc(None), Err(EmulatorError::InvalidHeader));
    let mut unused = Cartridge::new(image(0x01, 0x00, 0x06, 0x8000)).ok().unwrap();
    assert_eq!(unused.determine_mbc(None), Ok(()));
    let mut long = Cartridge::new(image(0x00, 0x00, 0x00, 0x8001)).ok().unwrap();
    assert_eq!(long.determine_mbc(None), Err(EmulatorError::InvalidHeader));
    let mut exact = Cartridge::new(image(0x00, 0x01, 0x00, 0x1_0000)).ok().unwrap();
    assert_eq!(exact.determine_mbc(None), Ok(()));
}

#[test]
fn saved_ram_is_loaded_where_there_is_a_battery() {
    let saved: Vec<u8> = vec![0x11, 0x22, 0x33];
    let mut battery = Cartridge::new(image(0x03, 0x00, 0x02, 0x8000)).ok().unwrap();
    assert_eq!(battery.determine_mbc(Some(saved.clone())), Ok(()));
    battery.write_byte(0x0000, 0x0A);
    assert_eq!(battery.read_byte(0xA000), 0x11);
    assert_eq!(battery.read_byte(0xA002), 0x33);
    assert_eq!(battery.read_byte(0xA003), 0x00);
    let mut plain = Cartridge::new(image(0x02, 0x00, 0x02, 0x8000)).ok().unwrap();
    assert_eq!(plain.determine_mbc(Some(saved.clone())), Ok(()));
    plain.write_byte(0x0000, 0x0A);
    assert_eq!(plain.read_byte(0xA000), 0x00);
    let mut small = Cartridge::new(image(0x06, 0x00, 0x00, 0x8000)).ok().unwrap();
    assert_eq!(small.determine_mbc(Some(vec![0x0F; 0x300])), Ok(()));
    small.write_byte(0x0000, 0x0A);
    assert_eq!(small.read_byte(0xA1FF), 0x0F);
    assert_eq!(small.ram_size, 0x200);
    assert_eq!(small.save().unwrap().ram.len(), 0x200);
}

#[test]
fn cartridge_without_mapper_reads_the_image_and_ignores_writes() {
    let mut cart = cartridge(0x00, 0x00, 0x00, 0x8000);
    assert_eq!(cart.read_byte(0x0147), 0x00);
    assert_eq!(cart.read_byte(0x4000), 0x01);
    assert_eq!(cart.read_byte(0x7FFF), 0x00);
    assert_eq!(cart.read_byte(0xA000), 0x00);
    cart.write_byte(0x2000, 0x05);
    cart.write_byte(0xA000, 0x55);
    assert_eq!(cart.read_byte(0x4000), 0x01);
    assert_eq!(cart.read_byte(0xA000), 0x00);
    assert!(cart.save().is_none());
}

#[test]
fn mbc1_switches_rom_banks() {
    let mut cart = cartridge(0x01, 0x02, 0x00, 0x2_0000);
    assert_eq!(cart.read_byte(0x4000), 0x01);
    cart.write_byte(0x2000, 0x03);
    assert_eq!(cart.read_byte(0x4000), 0x03);
    assert_eq!(cart.read_byte(0x0000), 0x00);
    cart.write_byte(0x3FFF, 0x00);
    assert_eq!(cart.read_byte(0x4000), 0x01);
    cart.write_byte(0x2000, 0xE7);
    assert_eq!(cart.read_byte(0x4000), 0x07);
    cart.write_byte(0x2000, 0x20);
    assert_eq!(cart.read_byte(0x4000), 0x01);
    cart.write_byte(0x4000, 0x01);
    assert_eq!(cart.bank, 0x21);
    assert_eq!(cart.read_byte(0x4000), 0x00);
    cart.write_byte(0x6000, 0x01);
    assert_eq!(cart.bank_mode, Mode::Ram);
    assert_eq!(cart.read_byte(0x4000), 0x01);
    cart.write_byte(0x6000, 0x02);
    assert_eq!(cart.bank_mode, Mode::Ram);
    cart.write_byte(0x6000, 0x00);
    assert_eq!(cart.bank_mode, Mode::Rom);
    assert_eq!(cart.read_byte(0x8000), 0xFF);
}

#[test]
fn mbc1_ram_banks_and_enable() {
    let mut cart = cartridge(0x03, 0x00, 0x03, 0x8000);
    assert_eq!(cart.read_byte(0xA000), 0x00);
    cart.write_byte(0xA000, 0x55);
    assert_eq!(cart.read_byte(0xA000), 0x00);
    cart.write_byte(0x0000, 0x0A);
    assert_eq!(cart.read_byte(0xA000), 0x00);
    cart.write_byte(0xA000, 0x55);
    cart.write_byte(0xBFFF, 0x77);
    assert_eq!(cart.read_byte(0xA000), 0x55);
    assert_eq!(cart.read_byte(0xBFFF), 0x77);
    cart.write_byte(0x6000, 0x01);
    cart.write_byte(0x4000, 0x02);
    assert_eq!(cart.read_byte(0xA000), 0x00);
    cart.write_byte(0xA000, 0x66);
    assert_eq!(cart.read_byte(0xA000), 0x66);
    cart.write_byte(0x4000, 0x00);
    assert_eq!(cart.read_byte(0xA000), 0x55);
    cart.write_byte(0x6000, 0x00);
    cart.write_byte(0x4000, 0x02);
    assert_eq!(cart.read_byte(0xA000), 0x55);
    cart.write_byte(0x1FFF, 0x1A);
    assert_eq!(cart.read_byte(0xA000), 0x55);
    cart.write_byte(0x0000, 0x0B);
    assert_eq!(cart.read_byte(0xA000), 0x00);
    let saved = cart.save().unwrap();
    assert_eq!(saved.ram.len(), 0x8000);
    assert_eq!(saved.ram[0], 0x55);
    assert_eq!(saved.ram[0x1FFF], 0x77);
    assert_eq!(saved.ram[0x4000], 0x66);
    assert!(saved.zero.is_none());
}

#[test]
fn ram_outside_what_the_cartridge_has_reads_zero() {
    let mut cart = cartridge(0x02, 0x00, 0x01, 0x8000);
    cart.write_byte(0x0000, 0x0A);
    cart.write_byte(0xA7FF, 0x12);
    cart.write_byte(0xA800, 0x34);
    assert_eq!(cart.read_byte(0xA7FF), 0x12);
    assert_eq!(cart.read_byte(0xA800), 0x00);
    let mut none = cartridge(0x01, 0x00, 0x00, 0x8000);
    none.write_byte(0x0000, 0x0A);
    none.write_byte(0xA000, 0x12);
    assert_eq!(none.read_byte(0xA000), 0x00);
}

#[test]
fn mbc2_keeps_nibbles_and_decodes_address_bit_eight() {
    let mut cart = cartridge(0x05, 0x01, 0x00, 0x1_0000);
    cart.write_byte(0x0100, 0x0A);
    assert!(!cart.ram_enabled);
    cart.write_byte(0x0000, 0xFA);
    assert!(cart.ram_enabled);
    cart.write_byte(0xA000, 0xFF);
    assert_eq!(cart.read_byte(0xA000), 0x0F);
    cart.write_byte(0xA1FF, 0x37);
    assert_eq!(cart.read_byte(0xA1FF), 0x07);
    cart.write_byte(0xA200, 0x05);
    assert_eq!(cart.read_byte(0xA200), 0xFF);
    cart.write_byte(0x2000, 0x03);
    assert_eq!(cart.read_byte(0x4000), 0x01);
    cart.write_byte(0x2100, 0xF3);
    assert_eq!(cart.read_byte(0x4000), 0x03);
    cart.write_byte(0x2100, 0x00);
    assert_eq!(cart.read_byte(0x4000), 0x00);
    cart.write_byte(0x0000, 0x00);
    assert_eq!(cart.read_byte(0xA000), 0x00);
}

#[test]
fn mbc3_banks_and_clock() {
    let mut cart = cartridge(0x10, 0x02, 0x03, 0x2_0000);
    cart.write_byte(0x2000, 0x00);
    assert_eq!(cart.read_byte(0x4000), 0x01);
    cart.write_byte(0x2000, 0x85);
    assert_eq!(cart.read_byte(0x4000), 0x05);
    cart.write_byte(0x0000, 0x0A);
    cart.write_byte(0x4000, 0x03);
    cart.write_byte(0xA010, 0x99);
    assert_eq!(cart.read_byte(0xA010), 0x99);
    cart.write_byte(0x4000, 0x00);
    assert_eq!(cart.read_byte(0xA010), 0x00);

    cart.rtc = RealTimeClock::new(Some(1000), 1000 + 2 * 86400 + 3600 + 60 + 1);
    cart.write_byte(0x6000, 0x01);
    cart.write_byte(0x4000, 0x08);
    assert_eq!(cart.read_byte(0xA000), 1);
    cart.write_byte(0x4000, 0x09);
    assert_eq!(cart.read_byte(0xB000), 1);
    cart.write_byte(0x4000, 0x0A);
    assert_eq!(cart.read_byte(0xA000), 1);
    cart.write_byte(0x4000, 0x0B);
    assert_eq!(cart.read_byte(0xA000), 2);
    cart.write_byte(0x4000, 0x0C);
    assert_eq!(cart.read_byte(0xA000), 0);

    cart.rtc.set_time(1000 + 59);
    cart.write_byte(0x6000, 0x01);
    cart.write_byte(0x4000, 0x08);
    assert_eq!(cart.read_byte(0xA000), 1);
    cart.write_byte(0x6000, 0x00);
    assert_eq!(cart.read_byte(0xA000), 1);
    cart.write_byte(0x6000, 0x01);
    assert_eq!(cart.read_byte(0xA000), 59);
    cart.write_byte(0xA000, 30);
    assert_eq!(cart.read_byte(0xA000), 30);
    assert_eq!(cart.rtc.s, 30);

    cart.write_byte(0x4000, 0x05);
    cart.write_byte(0xA000, 0x44);
    assert_eq!(cart.read_byte(0xA000), 0x00);
    cart.write_byte(0x4000, 0x0F);
    assert_eq!(cart.read_byte(0xA000), 0x00);
    cart.write_byte(0x0000, 0x00);
    cart.write_byte(0x4000, 0x08);
    assert_eq!(cart.read_byte(0xA000), 0x00);

    let saved = cart.save().unwrap();
    assert_eq!(saved.ram.len(), 0x8000);
    assert_eq!(saved.ram[0x6010], 0x99);
    assert_eq!(saved.zero, Some(vec![0, 0, 0, 0, 0, 0, 0x03, 0xE8]));
}

#[test]
fn mbc5_has_nine_bits_of_rom_bank() {
    let mut cart = cartridge(0x1B, 0x03, 0x03, 0x4_0000);
    cart.write_byte(0x2000, 0x05);
    assert_eq!(cart.read_byte(0x4000), 0x05);
    cart.write_byte(0x2FFF, 0x00);
    assert_eq!(cart.rom_bank, 0);
    assert_eq!(cart.read_byte(0x4000), cart.read_byte(0x0000));
    cart.write_byte(0x3000, 0xFF);
    assert_eq!(cart.rom_bank, 0x100);
    assert_eq!(cart.read_byte(0x4000), 0x00);
    cart.write_byte(0x2000, 0x0F);
    assert_eq!(cart.rom_bank, 0x10F);
    cart.write_byte(0x3000, 0x00);
    assert_eq!(cart.rom_bank, 0x00F);
    assert_eq!(cart.read_byte(0x4000), 0x0F);
    cart.write_byte(0x0000, 0x0A);
    cart.write_byte(0x4000, 0xF3);
    assert_eq!(cart.ram_bank, 3);
    cart.write_byte(0xA123, 0x5A);
    assert_eq!(cart.read_byte(0xA123), 0x5A);
    cart.write_byte(0x4000, 0x04);
    assert_eq!(cart.read_byte(0xA123), 0x00);
    cart.write_byte(0x6000, 0x01);
    assert_eq!(cart.bank_mode, Mode::Rom);
    assert_eq!(cart.read_byte(0xC000), 0x00);
}

#[test]
fn ram_reads_back_for_every_mapper_while_enabled() {
    for (code, ram_code) in [(0x03u8, 0x03u8), (0x13, 0x03), (0x1B, 0x03)] {
        let mut cart = cartridge(code, 0x00, ram_code, 0x8000);
        cart.write_byte(0x0000, 0x0A);
        let mut address = 0xA000;
        while address <= 0xBFFF {
            let value = (address as u32 * 7 + 3) as u8;
            cart.write_byte(address, value);
            assert_eq!(cart.read_byte(address), value);
            address += 0x1F;
        }
        let again = cart.save().unwrap().ram;
        assert_eq!(again, cart.save().unwrap().ram);
    }
}
