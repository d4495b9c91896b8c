use gameboy::system::audio::{APU, SOUND_BEGIN, SOUND_END};
use gameboy::system::bus::{MemoryBus, Speed};
use gameboy::system::gpu::Hardware;
use gameboy::system::hdma::{HDMAMode, HDMA};
use gameboy::system::joypad::Keys;
use gameboy::system::memory::MMU;

fn bus() -> MemoryBus {
    let mut rom = vec![0u8; 0x8000];
    let mut i = 0;
    while i < 0x8000 {
        rom[i] = (i % 251) as u8;
        i += 1;
    }
    rom[0x147] = 0;
    rom[0x148] = 0;
    match MemoryBus::new(rom) {
        Ok(bus) => bus,
        Err(_) => panic!("the image was refused"),
    }
}

#[test]
fn rom_is_read_and_not_written() {
    let mut bus = bus();
    assert_eq!(bus.read_byte(0x0000), 0);
    assert_eq!(bus.read_byte(0x0100), (0x100 % 251) as u8);
    assert_eq!(bus.read_byte(0x7FFF), (0x7FFF % 251) as u8);
    bus.write_byte(0x0100, 0xEE);
    assert_eq!(bus.read_byte(0x0100), (0x100 % 251) as u8);
    assert_eq!(bus.read_word(0x0200), ((0x201 % 251) << 8 | (0x200 % 251)) as u16);
}

#[test]
fn work_ram_and_its_echo() {
    let mut bus = bus();
    bus.write_byte(0xC000, 0x11);
    bus.write_byte(0xCFFF, 0x22);
    bus.write_byte(0xD000, 0x33);
    bus.write_byte(0xDDFF, 0x44);
    assert_eq!(bus.read_byte(0xC000), 0x11);
    assert_eq!(bus.read_byte(0xE000), 0x11);
    assert_eq!(bus.read_byte(0xEFFF), 0x22);
    assert_eq!(bus.read_byte(0xF000), 0x33);
    assert_eq!(bus.read_byte(0xFDFF), 0x44);
    bus.write_byte(0xE123, 0x55);
    assert_eq!(bus.read_byte(0xC123), 0x55);
    bus.write_byte(0xF456, 0x66);
    assert_eq!(bus.read_byte(0xD456), 0x66);
    bus.write_byte(0xDFFF, 0x77);
    assert_eq!(bus.read_byte(0xDFFF), 0x77);
}

#[test]
fn work_ram_banks() {
    let mut bus = bus();
    assert_eq!(bus.read_byte(0xFF70), 1);
    bus.write_byte(0xD000, 0x01);
    bus.write_byte(0xFF70, 0x02);
    assert_eq!(bus.read_byte(0xFF70), 2);
    assert_eq!(bus.read_byte(0xD000), 0x00);
    bus.write_byte(0xD000, 0x02);
    bus.write_byte(0xFF70, 0x07);
    bus.write_byte(0xDFFF, 0x07);
    assert_eq!(bus.memory.wram[0x7FFF], 0x07);
    bus.write_byte(0xFF70, 0x00);
    assert_eq!(bus.read_byte(0xFF70), 1);
    assert_eq!(bus.read_byte(0xD000), 0x01);
    bus.write_byte(0xFF70, 0xFA);
    assert_eq!(bus.read_byte(0xD000), 0x02);
    assert_eq!(bus.read_byte(0xF000), 0x02);
    bus.write_byte(0xC000, 0x99);
    bus.write_byte(0xFF70, 0x03);
    assert_eq!(bus.read_byte(0xC000), 0x99);
}

#[test]
fn high_ram_and_interrupt_registers() {
    let mut bus = bus();
    bus.write_byte(0xFF80, 0xA1);
    bus.write_byte(0xFFFE, 0xA2);
    bus.write_byte(0xFFFF, 0x1F);
    bus.write_byte(0xFF0F, 0x05);
    assert_eq!(bus.read_byte(0xFF80), 0xA1);
    assert_eq!(bus.read_byte(0xFFFE), 0xA2);
    assert_eq!(bus.read_byte(0xFFFF), 0x1F);
    assert_eq!(bus.read_byte(0xFF0F), 0x05);
    assert_eq!(bus.interrupt.interrupt_enable, 0x1F);
    assert_eq!(bus.interrupt.interrupt_flag, 0x05);
    bus.write_word(0xFF90, 0xBEEF);
    assert_eq!(bus.read_byte(0xFF90), 0xEF);
    assert_eq!(bus.read_byte(0xFF91), 0xBE);
    assert_eq!(bus.read_word(0xFF90), 0xBEEF);
    bus.write_word(0xFFFF, 0x1234);
    assert_eq!(bus.read_byte(0xFFFF), 0x34);
    assert_eq!(bus.read_word(0xFFFF), 0x0034);
}

#[test]
fn unusable_and_unmapped_addresses_read_zero() {
    let mut bus = bus();
    for address in [0xFEA0u16, 0xFEC3, 0xFEFF, 0xFF03, 0xFF08, 0xFF4C, 0xFF4E, 0xFF50, 0xFF56, 0xFF6C, 0xFF7F] {
        bus.write_byte(address, 0xFF);
        assert_eq!(bus.read_byte(address), 0x00);
    }
}

#[test]
fn timer_registers_on_the_bus() {
    let mut bus = bus();
    bus.timer.divider_register = 0x5A;
    assert_eq!(bus.read_byte(0xFF04), 0x5A);
    bus.write_byte(0xFF04, 0x99);
    assert_eq!(bus.read_byte(0xFF04), 0x00);
    bus.timer.divider_register = 0x01;
    bus.write_byte(0xFF04, 0x00);
    assert_eq!(bus.timer.divider_register, 0x00);
    bus.write_byte(0xFF05, 0x12);
    bus.write_byte(0xFF06, 0x34);
    bus.write_byte(0xFF07, 0xFD);
    assert_eq!(bus.read_byte(0xFF05), 0x12);
    assert_eq!(bus.read_byte(0xFF06), 0x34);
    assert_eq!(bus.read_byte(0xFF07), 0x05);
    assert_eq!(bus.timer.input_clock_speed, 16);
    assert!(bus.timer.clock_enabled);
}

#[test]
fn sound_and_serial_registers_are_kept() {
    let mut bus = bus();
    bus.write_byte(0xFF10, 0x80);
    bus.write_byte(0xFF3F, 0x7F);
    bus.write_byte(0xFF01, 0x41);
    bus.write_byte(0xFF02, 0x81);
    assert_eq!(bus.read_byte(0xFF10), 0x80);
    assert_eq!(bus.read_byte(0xFF3F), 0x7F);
    assert_eq!(bus.read_byte(0xFF11), 0x00);
    assert_eq!(bus.read_byte(0xFF01), 0x41);
    assert_eq!(bus.read_byte(0xFF02), 0x81);
    assert_eq!(bus.interrupt.interrupt_flag, 0x00);
    let mut apu = APU::new();
    apu.write_byte(SOUND_BEGIN, 1);
    apu.write_byte(SOUND_END, 2);
    apu.write_byte(SOUND_END + 1, 3);
    apu.write_byte(SOUND_BEGIN - 1, 4);
    assert_eq!(apu.read_byte(SOUND_BEGIN), 1);
    assert_eq!(apu.read_byte(SOUND_END), 2);
    assert_eq!(apu.read_byte(SOUND_END + 1), 0);
    assert_eq!(apu.read_byte(SOUND_BEGIN - 1), 0);
}

#[test]
fn video_memory_and_registers_on_the_bus() {
    let mut bus = bus();
    bus.write_byte(0x8000, 0x3C);
    bus.write_byte(0x9FFF, 0x7E);
    bus.write_byte(0xFE00, 0x10);
    bus.write_byte(0xFE9F, 0x20);
    bus.write_byte(0xFF42, 0x05);
    bus.write_byte(0xFF40, 0x91);
    assert_eq!(bus.read_byte(0x8000), 0x3C);
    assert_eq!(bus.read_byte(0x9FFF), 0x7E);
    assert_eq!(bus.read_byte(0xFE00), 0x10);
    assert_eq!(bus.read_byte(0xFE9F), 0x20);
    assert_eq!(bus.read_byte(0xFF42), 0x05);
    assert_eq!(bus.read_byte(0xFF40), 0x91);
    assert_eq!(bus.gpu.oam[0x9F], 0x20);
    bus.write_byte(0xFF4F, 0x01);
    assert_eq!(bus.read_byte(0xFF4F), 0xFF);
    assert_eq!(bus.read_byte(0x8000), 0x00);
    bus.write_byte(0xFF68, 0x80);
    bus.write_byte(0xFF69, 0x1F);
    assert_eq!(bus.read_byte(0xFF68), 0x81);
    assert_eq!(bus.gpu.bgpd[0][0][0], 0x1F);
}

#[test]
fn sprite_table_transfer_copies_160_bytes() {
    let mut bus = bus();
    let mut i: u16 = 0;
    while i < 0x100 {
        bus.write_byte(0xC100 + i, (i as u8) ^ 0x5A);
        i += 1;
    }
    bus.write_byte(0xFF46, 0xC1);
    let mut i: usize = 0;
    while i < 0xA0 {
        assert_eq!(bus.gpu.oam[i], (i as u8) ^ 0x5A);
        assert_eq!(bus.read_byte(0xFE00 + i as u16), (i as u8) ^ 0x5A);
        i += 1;
    }
    bus.write_byte(0xFF46, 0x01);
    assert_eq!(bus.gpu.oam[0], (0x100 % 251) as u8);
    assert_eq!(bus.gpu.oam[0x9F], (0x19F % 251) as u8);
    bus.write_byte(0xFE05, 0x77);
    bus.write_byte(0xFF46, 0xFE);
    assert_eq!(bus.gpu.oam[5], 0x77);
    assert_eq!(bus.gpu.oam[0x9F], (0x19F % 251) as u8);
    assert_eq!(bus.read_byte(0xFF46), 0x00);
}

#[test]
fn boot_rom_covers_the_start_of_the_cartridge() {
    let mut bus = bus();
    bus.bootrom = vec![0xAB; 0x900];
    assert_eq!(bus.read_byte(0x0000), 0);
    bus.run_bootrom = true;
    assert_eq!(bus.read_byte(0x0000), 0xAB);
    assert_eq!(bus.read_byte(0x00FF), 0xAB);
    assert_eq!(bus.read_byte(0x0100), (0x100 % 251) as u8);
    bus.gpu.hardware = Hardware::CGB;
    assert_eq!(bus.read_byte(0x0100), 0xAB);
    assert_eq!(bus.read_byte(0x08FF), 0xAB);
    assert_eq!(bus.read_byte(0x0900), (0x900 % 251) as u8);
    bus.bootrom = vec![0xCD; 0x10];
    assert_eq!(bus.read_byte(0x000F), 0xCD);
    assert_eq!(bus.read_byte(0x0010), 0x00);
    bus.run_bootrom = false;
    assert_eq!(bus.read_byte(0x0010), 0x10);
}

#[test]
fn speed_register_and_switch() {
    let mut bus = bus();
    assert_eq!(bus.read_byte(0xFF4D), 0x00);
    assert_eq!(Speed::Regular.factor(), 1);
    assert_eq!(Speed::Double.factor(), 2);
    bus.change_speed();
    assert_eq!(bus.speed, Speed::Regular);
    bus.write_byte(0xFF4D, 0xFF);
    assert_eq!(bus.read_byte(0xFF4D), 0x01);
    bus.change_speed();
    assert_eq!(bus.speed, Speed::Double);
    assert_eq!(bus.read_byte(0xFF4D), 0x80);
    bus.write_byte(0xFF4D, 0xFE);
    bus.change_speed();
    assert_eq!(bus.speed, Speed::Double);
    bus.write_byte(0xFF4D, 0x01);
    assert_eq!(bus.read_byte(0xFF4D), 0x81);
    bus.change_speed();
    assert_eq!(bus.speed, Speed::Regular);
}

#[test]
fn keys_on_the_bus() {
    let mut bus = bus();
    bus.write_byte(0xFF00, 0x10);
    bus.key_down(Keys::A);
    bus.key_down(Keys::Up);
    assert_eq!(bus.read_byte(0xFF00), 0x1E);
    assert_eq!(bus.interrupt.interrupt_flag, 0x10);
    bus.write_byte(0xFF00, 0x20);
    assert_eq!(bus.read_byte(0xFF00), 0x2B);
    bus.key_up(Keys::Up);
    assert_eq!(bus.read_byte(0xFF00), 0x2F);
    assert_eq!(bus.interrupt.interrupt_flag, 0x10);
}

#[test]
fn memory_is_made_round_a_cartridge() {
    let memory = match MMU::new(vec![0u8; 0x8000]) {
        Ok(m) => m,
        Err(_) => panic!("the image was refused"),
    };
    assert_eq!(memory.wram_bank, 1);
    assert_eq!(memory.read_work(0xC000), 0);
    assert_eq!(memory.read_high(0xFF80), 0);
    assert!(MMU::new(vec![0u8; 0x100]).is_err());
    assert!(MemoryBus::new(vec![0u8; 0x100]).is_err());
}

#[test]
fn transfer_registers() {
    let mut unit = HDMA::new();
    assert_eq!(unit.read_hdma(0xFF55), 0x80);
    assert_eq!(unit.read_hdma(0xFF53), 0x80);
    unit.write_hdma(0xFF51, 0xC1);
    unit.write_hdma(0xFF52, 0x2F);
    unit.write_hdma(0xFF53, 0xF3);
    unit.write_hdma(0xFF54, 0x4F);
    assert_eq!(unit.source, 0xC120);
    assert_eq!(unit.destination, 0x9340);
    assert_eq!(unit.read_hdma(0xFF51), 0xC1);
    assert_eq!(unit.read_hdma(0xFF52), 0x20);
    assert_eq!(unit.read_hdma(0xFF53), 0x93);
    assert_eq!(unit.read_hdma(0xFF54), 0x40);
    assert_eq!(unit.read_hdma(0xFF50), 0x00);
    unit.write_hdma(0xFF55, 0x85);
    assert!(unit.active);
    assert_eq!(unit.mode, HDMAMode::HDMA);
    assert_eq!(unit.remain, 0x05);
    assert_eq!(unit.read_hdma(0xFF55), 0x05);
    unit.write_hdma(0xFF55, 0xFF);
    assert_eq!(unit.remain, 0x05);
    assert!(unit.active);
    unit.write_hdma(0xFF55, 0x7F);
    assert!(!unit.active);
    assert_eq!(unit.remain, 0x05);
    assert_eq!(unit.read_hdma(0xFF55), 0x85);
    unit.write_hdma(0xFF55, 0x03);
    assert!(unit.active);
    assert_eq!(unit.mode, HDMAMode::GDMA);
    unit.write_hdma(0xFF55, 0x04);
    assert_eq!(unit.remain, 0x04);
    unit.advance();
    assert_eq!(unit.source, 0xC130);
    assert_eq!(unit.destination, 0x9350);
    assert_eq!(unit.remain, 0x03);
    unit.destination = 0x9FF0;
    unit.source = 0xFFF0;
    unit.remain = 0;
    unit.advance();
    assert_eq!(unit.destination, 0x8000);
    assert_eq!(unit.source, 0x0000);
    assert_eq!(unit.remain, 0x7F);
}

#[test]
fn general_transfer_copies_all_blocks_at_once() {
    let mut bus = bus();
    let mut i: u16 = 0;
    while i < 0x40 {
        bus.write_byte(0xC000 + i, 0x80 + i as u8);
        i += 1;
    }
    assert_eq!(bus.run_hdma(), 0);
    bus.write_byte(0xFF51, 0xC0);
    bus.write_byte(0xFF52, 0x00);
    bus.write_byte(0xFF53, 0x00);
    bus.write_byte(0xFF54, 0x10);
    bus.write_byte(0xFF55, 0x01);
    assert_eq!(bus.read_byte(0xFF55), 0x01);
    assert_eq!(bus.run_hdma(), 64);
    let mut i: u16 = 0;
    while i < 0x20 {
        assert_eq!(bus.read_byte(0x8010 + i), 0x80 + i as u8);
        i += 1;
    }
    assert_eq!(bus.read_byte(0x8030), 0x00);
    assert_eq!(bus.read_byte(0x800F), 0x00);
    assert!(!bus.hdma.active);
    assert_eq!(bus.read_byte(0xFF55), 0xFF);
    assert_eq!(bus.hdma.source, 0xC020);
    assert_eq!(bus.hdma.destination, 0x8030);
    assert_eq!(bus.run_hdma(), 0);
}

#[test]
fn blank_transfer_copies_one_block_in_each_horizontal_blank() {
    let mut bus = bus();
    let mut i: u16 = 0;
    while i < 0x40 {
        bus.write_byte(0xD000 + i, 0x40 + i as u8);
        i += 1;
    }
    bus.write_byte(0xFF4F, 0x01);
    bus.write_byte(0xFF51, 0xD0);
    bus.write_byte(0xFF52, 0x0F);
    bus.write_byte(0xFF53, 0x18);
    bus.write_byte(0xFF54, 0x00);
    bus.write_byte(0xFF55, 0x81);
    assert_eq!(bus.run_hdma(), 0);
    assert_eq!(bus.read_byte(0x9800), 0x00);
    bus.gpu.hblank = true;
    assert_eq!(bus.run_hdma(), 32);
    assert_eq!(bus.read_byte(0x9800), 0x40);
    assert_eq!(bus.read_byte(0x980F), 0x4F);
    assert_eq!(bus.read_byte(0x9810), 0x00);
    assert_eq!(bus.gpu.vram[0x2000 + 0x1800], 0x40);
    assert_eq!(bus.read_byte(0xFF55), 0x00);
    assert!(bus.hdma.active);
    assert_eq!(bus.run_hdma(), 32);
    assert_eq!(bus.read_byte(0x981F), 0x5F);
    assert!(!bus.hdma.active);
    assert_eq!(bus.read_byte(0xFF55), 0xFF);
    assert_eq!(bus.run_hdma(), 0);
    assert_eq!(bus.read_byte(0x9820), 0x00);
}
