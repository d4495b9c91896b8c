use gameboy::system::gpu::{color_index, mix, rgb, shade, Attributes, Gpi, Hardware, Lcdc, GPU};
use gameboy::system::interrupts::Interrupt;

fn white() -> [u8; 3] {
    [0xFF, 0xFF, 0xFF]
}

fn grey(v: u8) -> [u8; 3] {
    [v, v, v]
}

/// A pipeline with the display on and tile 0 holding a row of the colour
/// indices 0 2 3 3 3 3 2 0 on every line.
fn drawing(lcdc: u8) -> GPU {
    let mut gpu = GPU::new();
    gpu.write_registers(0xFF40, lcdc);
    gpu.write_registers(0xFF47, 0xE4);
    gpu.write_registers(0xFF48, 0xE4);
    gpu.write_registers(0xFF49, 0x1B);
    let mut row = 0;
    while row < 8 {
        gpu.write_vram(0x8000 + 2 * row, 0x3C);
        gpu.write_vram(0x8000 + 2 * row + 1, 0x7E);
        row += 1;
    }
    gpu
}

#[test]
fn pipeline_starts_dark_and_blank() {
    let gpu = GPU::new();
    assert_eq!(gpu.read_registers(0xFF40), 0x00);
    assert_eq!(gpu.read_registers(0xFF44), 0);
    assert_eq!(gpu.read_registers(0xFF41), 0x04);
    assert_eq!(gpu.scanline_counter, 0);
    assert!(!gpu.vblank);
    assert_eq!(gpu.hardware, Hardware::DMG);
    assert_eq!(gpu.screen_data[0][0], white());
    assert_eq!(gpu.screen_data[143][159], white());
    assert_eq!(gpu.priority[0], (true, 0));
    assert_eq!(gpu.read_vram(0x8000), 0);
}

#[test]
fn a_frame_of_dots_raises_vblank_once_and_returns_to_line_zero() {
    let mut gpu = GPU::new();
    let mut irq = Interrupt::new();
    gpu.write_registers(0xFF40, 0x80);
    assert!(!gpu.vblank);
    let mut latched = 0;
    let mut requested = 0;
    let mut lines = 0;
    let mut last = gpu.current_line;
    let mut spent = 0;
    while spent < 70224 {
        gpu.update_graphics(4, &mut irq);
        spent += 4;
        if gpu.vblank {
            latched += 1;
            gpu.vblank = false;
        }
        if irq.interrupt_flag & 0x01 != 0 {
            requested += 1;
            irq.interrupt_flag = 0;
        }
        if gpu.current_line != last {
            lines += 1;
            last = gpu.current_line;
        }
        assert!(gpu.current_line <= 153);
        assert!(gpu.stat.mode <= 3);
    }
    assert_eq!(latched, 1);
    assert_eq!(requested, 1);
    assert_eq!(lines, 154);
    assert_eq!(gpu.current_line, 0);
    assert_eq!(gpu.scanline_counter, 0);
}

#[test]
fn vblank_is_raised_once_in_every_frame_whatever_the_steps() {
    let mut gpu = GPU::new();
    let mut irq = Interrupt::new();
    gpu.write_registers(0xFF40, 0x80);
    gpu.update_graphics(12345, &mut irq);
    irq.interrupt_flag = 0;
    let line = gpu.current_line;
    let dot = gpu.scanline_counter;
    let steps = [8u32, 24, 12, 20, 16, 4, 300, 1];
    let mut spent = 0;
    let mut requested = 0;
    let mut i = 0;
    while spent < 70224 * 3 {
        let mut step = steps[i % steps.len()];
        if spent + step > 70224 * 3 {
            step = 70224 * 3 - spent;
        }
        gpu.update_graphics(step, &mut irq);
        spent += step;
        i += 1;
        if irq.interrupt_flag & 0x01 != 0 {
            requested += 1;
            irq.interrupt_flag = 0;
        }
    }
    assert_eq!(requested, 3);
    assert_eq!(gpu.current_line, line);
    assert_eq!(gpu.scanline_counter, dot);
}

#[test]
fn modes_follow_the_dots() {
    let mut gpu = GPU::new();
    let mut irq = Interrupt::new();
    gpu.write_registers(0xFF40, 0x80);
    gpu.update_graphics(0, &mut irq);
    assert_eq!(gpu.stat.mode, 0);
    gpu.update_graphics(4, &mut irq);
    assert_eq!(gpu.stat.mode, 2);
    gpu.update_graphics(75, &mut irq);
    assert_eq!(gpu.stat.mode, 2);
    gpu.update_graphics(1, &mut irq);
    assert_eq!(gpu.stat.mode, 3);
    assert_eq!(gpu.read_registers(0xFF41) & 0x03, 3);
    gpu.update_graphics(171, &mut irq);
    assert_eq!(gpu.stat.mode, 3);
    assert!(!gpu.hblank);
    gpu.update_graphics(1, &mut irq);
    assert_eq!(gpu.stat.mode, 0);
    assert!(gpu.hblank);
    gpu.update_graphics(203, &mut irq);
    assert_eq!(gpu.stat.mode, 0);
    assert!(!gpu.hblank);
    assert_eq!(gpu.current_line, 0);
    gpu.update_graphics(1, &mut irq);
    assert_eq!(gpu.current_line, 1);
    assert_eq!(gpu.stat.mode, 2);
    assert_eq!(gpu.scanline_counter, 0);
    gpu.update_graphics(456 * 143, &mut irq);
    assert_eq!(gpu.current_line, 144);
    assert_eq!(gpu.stat.mode, 1);
    assert!(gpu.vblank);
    assert_eq!(irq.interrupt_flag, 0x01);
    gpu.update_graphics(456 * 9 + 455, &mut irq);
    assert_eq!(gpu.current_line, 153);
    assert_eq!(gpu.stat.mode, 1);
    gpu.update_graphics(1, &mut irq);
    assert_eq!(gpu.current_line, 0);
    assert_eq!(gpu.stat.mode, 2);
}

#[test]
fn stat_interrupts_follow_the_enables() {
    for (enable, dots, expected) in [
        (0x00u8, 70224u32, 0x01u8),
        (0x08, 252, 0x02),
        (0x08, 251, 0x00),
        (0x20, 4, 0x02),
        (0x10, 456 * 144, 0x03),
        (0x10, 456 * 144 - 1, 0x00),
        (0x40, 456 * 5, 0x02),
        (0x40, 456 * 5 - 1, 0x00),
    ] {
        let mut gpu = GPU::new();
        let mut irq = Interrupt::new();
        gpu.write_registers(0xFF40, 0x80);
        gpu.write_registers(0xFF41, enable);
        gpu.write_registers(0xFF45, 5);
        gpu.update_graphics(dots, &mut irq);
        assert_eq!(irq.interrupt_flag, expected);
    }
}

#[test]
fn stat_reads_enables_comparison_and_mode() {
    let mut gpu = GPU::new();
    let mut irq = Interrupt::new();
    gpu.write_registers(0xFF40, 0x80);
    gpu.write_registers(0xFF41, 0xFF);
    assert_eq!(gpu.read_registers(0xFF41), 0x7C);
    gpu.write_registers(0xFF45, 1);
    assert_eq!(gpu.read_registers(0xFF41), 0x78);
    gpu.update_graphics(456 + 100, &mut irq);
    assert_eq!(gpu.read_registers(0xFF41), 0x7F);
    gpu.write_registers(0xFF41, 0x28);
    assert_eq!(gpu.read_registers(0xFF41), 0x2F);
    assert!(gpu.stat.enable_m2_interrupt && gpu.stat.enable_m0_interrupt);
    assert!(!gpu.stat.enable_ly_interrupt && !gpu.stat.enable_m1_interrupt);
}

#[test]
fn turning_the_display_off_resets_and_blanks() {
    let mut gpu = drawing(0x91);
    let mut irq = Interrupt::new();
    gpu.update_graphics(456 * 20 + 300, &mut irq);
    assert_eq!(gpu.current_line, 20);
    assert_ne!(gpu.screen_data[0][2], white());
    gpu.vblank = false;
    gpu.write_registers(0xFF40, 0x11);
    assert_eq!(gpu.current_line, 0);
    assert_eq!(gpu.stat.mode, 0);
    assert_eq!(gpu.scanline_counter, 0);
    assert!(gpu.vblank);
    let mut line = 0;
    while line < 144 {
        let mut x = 0;
        while x < 160 {
            assert_eq!(gpu.screen_data[line][x], white());
            x += 1;
        }
        line += 1;
    }
    irq.interrupt_flag = 0;
    gpu.update_graphics(70224, &mut irq);
    assert_eq!(gpu.current_line, 0);
    assert_eq!(gpu.stat.mode, 0);
    assert_eq!(irq.interrupt_flag, 0);
    assert_eq!(gpu.read_registers(0xFF40), 0x11);
}

#[test]
fn registers_read_back() {
    let mut gpu = GPU::new();
    let mut irq = Interrupt::new();
    for (address, value) in [
        (0xFF42usize, 0x12u8),
        (0xFF43, 0x34),
        (0xFF45, 0x56),
        (0xFF47, 0x78),
        (0xFF48, 0x9A),
        (0xFF49, 0xBC),
        (0xFF4A, 0xDE),
        (0xFF4B, 0xF0),
        (0xFF40, 0xFF),
    ] {
        gpu.write_registers(address, value);
        assert_eq!(gpu.read_registers(address), value);
    }
    assert_eq!(gpu.scroll_y, 0x12);
    assert_eq!(gpu.scroll_x, 0x34);
    assert_eq!(gpu.lyc, 0x56);
    gpu.update_graphics(456 * 3, &mut irq);
    assert_eq!(gpu.read_registers(0xFF44), 3);
    gpu.write_registers(0xFF44, 0x77);
    assert_eq!(gpu.read_registers(0xFF44), 0);
    gpu.write_registers(0xFF46, 0x12);
    assert_eq!(gpu.read_registers(0xFF46), 0x00);
    gpu.write_registers(0xFF50, 0x12);
    assert_eq!(gpu.read_registers(0xFF50), 0x00);
    assert_eq!(gpu.read_registers(0xFF4F), 0xFE);
    gpu.write_registers(0xFF4F, 0xFF);
    assert_eq!(gpu.read_registers(0xFF4F), 0xFF);
    assert_eq!(gpu.vram_bank, 1);
}

#[test]
fn lcdc_bits() {
    let mut k = 0;
    while k < 8 {
        let lcdc = Lcdc { data: 1 << k };
        let bits = [
            lcdc.bit0(),
            lcdc.bit1(),
            lcdc.bit2(),
            lcdc.bit3(),
            lcdc.bit4(),
            lcdc.bit5(),
            lcdc.bit6(),
            lcdc.bit7(),
        ];
        let mut j = 0;
        while j < 8 {
            assert_eq!(bits[j], j == k);
            j += 1;
        }
        k += 1;
    }
}

#[test]
fn video_ram_has_two_banks() {
    let mut gpu = GPU::new();
    gpu.write_vram(0x8000, 0xAA);
    gpu.write_vram(0x9FFF, 0xBB);
    gpu.write_registers(0xFF4F, 0x01);
    assert_eq!(gpu.read_vram(0x8000), 0x00);
    gpu.write_vram(0x8000, 0xCC);
    assert_eq!(gpu.read_vram(0x8000), 0xCC);
    gpu.write_registers(0xFF4F, 0x00);
    assert_eq!(gpu.read_vram(0x8000), 0xAA);
    assert_eq!(gpu.read_vram(0x9FFF), 0xBB);
    assert_eq!(gpu.vram[0x2000], 0xCC);
    gpu.write_vram(0x7FFF, 0x11);
    gpu.write_vram(0xA000, 0x11);
    assert_eq!(gpu.read_vram(0x7FFF), 0x00);
    assert_eq!(gpu.read_vram(0xA000), 0x00);
}

#[test]
fn pixel_helpers() {
    assert_eq!(color_index(0x3C, 0x7E, 0), 0);
    assert_eq!(color_index(0x3C, 0x7E, 1), 2);
    assert_eq!(color_index(0x3C, 0x7E, 2), 3);
    assert_eq!(color_index(0x3C, 0x7E, 6), 2);
    assert_eq!(color_index(0x3C, 0x7E, 7), 0);
    assert_eq!(color_index(0x01, 0x00, 7), 1);
    assert_eq!(shade(0xE4, 0), 255);
    assert_eq!(shade(0xE4, 1), 192);
    assert_eq!(shade(0xE4, 2), 96);
    assert_eq!(shade(0xE4, 3), 0);
    assert_eq!(shade(0x1B, 0), 0);
    assert_eq!(shade(0x1B, 3), 255);
    assert_eq!(rgb(1, 2, 3), [1, 2, 3]);
    assert_eq!(mix(31, 31, 31), [248, 248, 248]);
    assert_eq!(mix(0, 0, 0), [0, 0, 0]);
    assert_eq!(mix(31, 0, 0), [201, 0, 46]);
    assert_eq!(mix(0, 31, 0), [31, 186, 31]);
    assert_eq!(mix(0, 0, 31), [15, 62, 170]);
    let attr = Attributes::from(0xA9);
    assert!(attr.priority && !attr.yflip && attr.xflip && !attr.palette_number_dmg);
    assert!(attr.vram_bank);
    assert_eq!(attr.palette_number_cgb, 1);
    let attr = Attributes::from(0x57);
    assert!(!attr.priority && attr.yflip && !attr.xflip && attr.palette_number_dmg);
    assert!(!attr.vram_bank);
    assert_eq!(attr.palette_number_cgb, 7);
}

#[test]
fn background_is_drawn_from_tile_and_palette() {
    let mut gpu = drawing(0x91);
    gpu.draw_scanline();
    let expected = [255u8, 96, 0, 0, 0, 0, 96, 255];
    let indices = [0u8, 2, 3, 3, 3, 3, 2, 0];
    let mut x = 0;
    while x < 160 {
        assert_eq!(gpu.screen_data[0][x], grey(expected[x % 8]));
        assert_eq!(gpu.priority[x], (false, indices[x % 8]));
        x += 1;
    }
    assert_eq!(gpu.screen_data[1][0], white());
    gpu.write_registers(0xFF47, 0x1B);
    gpu.write_registers(0xFF43, 3);
    gpu.draw_scanline();
    assert_eq!(gpu.screen_data[0][0], grey(255));
    assert_eq!(gpu.screen_data[0][3], grey(192));
    assert_eq!(gpu.screen_data[0][4], grey(0));
    assert_eq!(gpu.screen_data[0][5], grey(0));
    assert_eq!(gpu.screen_data[0][6], grey(192));
    assert_eq!(gpu.priority[4], (false, 0));
}

#[test]
fn background_scrolls_and_wraps_vertically() {
    let mut gpu = drawing(0x91);
    gpu.write_vram(0x9800 + 32 * 31, 1);
    gpu.write_vram(0x8010 + 14, 0xFF);
    gpu.write_vram(0x8010 + 15, 0x00);
    gpu.write_registers(0xFF42, 0xFF);
    gpu.draw_scanline();
    let mut x = 0;
    while x < 8 {
        assert_eq!(gpu.screen_data[0][x], grey(192));
        x += 1;
    }
    assert_eq!(gpu.screen_data[0][8], grey(255));
    assert_eq!(gpu.screen_data[0][9], grey(96));
}

#[test]
fn tile_data_can_be_addressed_signed() {
    let mut gpu = drawing(0x81);
    gpu.write_vram(0x9000, 0xFF);
    gpu.write_vram(0x9001, 0xFF);
    gpu.write_vram(0x8800, 0xFF);
    gpu.write_vram(0x8801, 0x00);
    gpu.write_vram(0x9801, 0x80);
    gpu.write_vram(0x9802, 0x7F);
    gpu.write_vram(0x97F0, 0x00);
    gpu.write_vram(0x97F1, 0xFF);
    gpu.draw_scanline();
    assert_eq!(gpu.screen_data[0][0], grey(0));
    assert_eq!(gpu.screen_data[0][7], grey(0));
    assert_eq!(gpu.screen_data[0][8], grey(192));
    assert_eq!(gpu.screen_data[0][15], grey(192));
    assert_eq!(gpu.screen_data[0][16], grey(96));
    assert_eq!(gpu.screen_data[0][24], grey(0));
}

#[test]
fn window_covers_the_background_from_its_corner() {
    let mut gpu = drawing(0xF1);
    gpu.write_vram(0x8010, 0xFF);
    gpu.write_vram(0x8011, 0x00);
    let mut i = 0;
    while i < 32 {
        gpu.write_vram(0x9C00 + i, 1);
        i += 1;
    }
    gpu.write_registers(0xFF4B, 87);
    gpu.write_registers(0xFF4A, 0);
    gpu.draw_scanline();
    assert_eq!(gpu.screen_data[0][79], grey(255));
    assert_eq!(gpu.screen_data[0][78], grey(96));
    let mut x = 80;
    while x < 160 {
        assert_eq!(gpu.screen_data[0][x], grey(192));
        assert_eq!(gpu.priority[x], (false, 1));
        x += 1;
    }
    gpu.write_registers(0xFF4A, 1);
    gpu.draw_scanline();
    assert_eq!(gpu.screen_data[0][80], grey(255));
    gpu.write_registers(0xFF4A, 0);
    gpu.write_registers(0xFF4B, 3);
    gpu.draw_scanline();
    assert_eq!(gpu.screen_data[0][0], grey(192));
    assert_eq!(gpu.screen_data[0][159], grey(192));
    gpu.write_registers(0xFF40, 0xD1);
    gpu.write_registers(0xFF4B, 7);
    gpu.draw_scanline();
    assert_eq!(gpu.screen_data[0][0], grey(255));
    assert_eq!(gpu.screen_data[0][1], grey(96));
}

#[test]
fn sprites_are_drawn_over_the_background() {
    let mut gpu = drawing(0x93);
    gpu.write_vram(0x8010, 0xFF);
    gpu.write_vram(0x8011, 0x00);
    gpu.write_oam(0, 16);
    gpu.write_oam(1, 8);
    gpu.write_oam(2, 1);
    gpu.write_oam(3, 0x00);
    gpu.draw_scanline();
    let mut x = 0;
    while x < 8 {
        assert_eq!(gpu.screen_data[0][x], grey(192));
        x += 1;
    }
    assert_eq!(gpu.screen_data[0][8], grey(255));
    assert_eq!(gpu.screen_data[0][9], grey(96));

    gpu.write_oam(3, 0x80);
    gpu.draw_scanline();
    let expected = [192u8, 96, 0, 0, 0, 0, 96, 192];
    let mut x = 0;
    while x < 8 {
        assert_eq!(gpu.screen_data[0][x], grey(expected[x]));
        x += 1;
    }

    gpu.write_oam(3, 0x10);
    gpu.draw_scanline();
    assert_eq!(gpu.screen_data[0][0], grey(96));
    assert_eq!(gpu.screen_data[0][7], grey(96));

    gpu.write_registers(0xFF40, 0x91);
    gpu.draw_scanline();
    assert_eq!(gpu.screen_data[0][0], grey(255));
}

#[test]
fn sprites_are_clipped_and_flipped() {
    let mut gpu = drawing(0x93);
    gpu.write_registers(0xFF47, 0x00);
    gpu.write_vram(0x8010, 0xC0);
    gpu.write_vram(0x8011, 0x00);
    gpu.write_vram(0x8010 + 14, 0x00);
    gpu.write_vram(0x8010 + 15, 0x03);
    gpu.write_oam(0, 16);
    gpu.write_oam(1, 3);
    gpu.write_oam(2, 1);
    gpu.write_oam(3, 0x20);
    gpu.draw_scanline();
    assert_eq!(gpu.screen_data[0][0], grey(255));
    assert_eq!(gpu.screen_data[0][1], grey(192));
    assert_eq!(gpu.screen_data[0][2], grey(192));
    assert_eq!(gpu.screen_data[0][3], grey(255));
    gpu.write_oam(1, 8 + 159);
    gpu.write_oam(3, 0x00);
    gpu.draw_scanline();
    assert_eq!(gpu.screen_data[0][159], grey(192));
    assert_eq!(gpu.screen_data[0][0], grey(255));
    gpu.write_oam(1, 8);
    gpu.write_oam(3, 0x40);
    gpu.draw_scanline();
    assert_eq!(gpu.screen_data[0][5], grey(255));
    assert_eq!(gpu.screen_data[0][6], grey(96));
    assert_eq!(gpu.screen_data[0][7], grey(96));
    gpu.write_oam(0, 10);
    gpu.draw_scanline();
    assert_eq!(gpu.screen_data[0][6], grey(255));
    gpu.write_oam(0, 9);
    gpu.write_oam(3, 0x00);
    gpu.draw_scanline();
    assert_eq!(gpu.screen_data[0][6], grey(96));
    assert_eq!(gpu.screen_data[0][7], grey(96));
    assert_eq!(gpu.screen_data[0][0], grey(255));
}

#[test]
fn tall_sprites_use_two_tiles() {
    let mut gpu = drawing(0x97);
    gpu.write_registers(0xFF47, 0x00);
    gpu.write_vram(0x8020, 0xFF);
    gpu.write_vram(0x8021, 0x00);
    gpu.write_vram(0x8030, 0x00);
    gpu.write_vram(0x8031, 0xFF);
    gpu.write_oam(0, 16);
    gpu.write_oam(1, 8);
    gpu.write_oam(2, 3);
    gpu.write_oam(3, 0x00);
    gpu.draw_scanline();
    assert_eq!(gpu.screen_data[0][0], grey(192));
    gpu.write_oam(0, 8);
    gpu.draw_scanline();
    assert_eq!(gpu.screen_data[0][0], grey(96));
    gpu.write_oam(3, 0x40);
    gpu.write_oam(0, 1);
    gpu.draw_scanline();
    assert_eq!(gpu.screen_data[0][0], grey(192));
    gpu.write_oam(0, 0);
    gpu.write_registers(0xFF47, 0x00);
    gpu.draw_scanline();
    assert_eq!(gpu.screen_data[0][0], grey(255));
}

#[test]
fn earlier_sprites_win_and_ten_fit_on_a_line() {
    let mut gpu = drawing(0x93);
    gpu.write_registers(0xFF47, 0x00);
    gpu.write_vram(0x8010, 0xFF);
    gpu.write_vram(0x8011, 0x00);
    gpu.write_vram(0x8020, 0x00);
    gpu.write_vram(0x8021, 0xFF);
    gpu.write_oam(0, 16);
    gpu.write_oam(1, 8);
    gpu.write_oam(2, 1);
    gpu.write_oam(4, 16);
    gpu.write_oam(5, 12);
    gpu.write_oam(6, 2);
    gpu.draw_scanline();
    assert_eq!(gpu.screen_data[0][3], grey(192));
    assert_eq!(gpu.screen_data[0][4], grey(192));
    assert_eq!(gpu.screen_data[0][7], grey(192));
    assert_eq!(gpu.screen_data[0][8], grey(96));
    assert_eq!(gpu.screen_data[0][11], grey(96));
    assert_eq!(gpu.screen_data[0][12], grey(255));
    assert_eq!(gpu.select_sprites().len(), 2);

    let mut n = 0;
    while n < 12 {
        gpu.write_oam(4 * n, 16);
        gpu.write_oam(4 * n + 1, (8 + 8 * n) as u8);
        gpu.write_oam(4 * n + 2, 1);
        gpu.write_oam(4 * n + 3, 0);
        n += 1;
    }
    gpu.draw_scanline();
    let chosen = gpu.select_sprites();
    assert_eq!(chosen.len(), 10);
    assert_eq!(chosen[0].sprite_num, 0);
    assert_eq!(chosen[9].sprite_num, 9);
    assert_eq!((chosen[3].x, chosen[3].y), (24, 0));
    assert_eq!(gpu.screen_data[0][79], grey(192));
    assert_eq!(gpu.screen_data[0][80], grey(255));
    assert_eq!(gpu.screen_data[0][95], grey(255));
}

#[test]
fn colour_palettes_are_written_through_the_index() {
    let mut gpu = GPU::new();
    let mut index = Gpi::new();
    index.write(0xBF);
    assert_eq!(index.read(), 0xBF);
    assert_eq!(index.index, 0x3F);
    assert!(index.auto_increment);
    index.step();
    assert_eq!(index.index, 0x00);
    index.write(0x7F);
    assert_eq!(index.read(), 0x3F);
    index.step();
    assert_eq!(index.index, 0x3F);

    gpu.write_registers(0xFF68, 0x80);
    gpu.write_registers(0xFF69, 0xFF);
    gpu.write_registers(0xFF69, 0x7F);
    assert_eq!(gpu.bgpd[0][0], [31, 31, 31]);
    assert_eq!(gpu.read_registers(0xFF68), 0x82);
    gpu.write_registers(0xFF69, 0x1F);
    gpu.write_registers(0xFF69, 0x00);
    assert_eq!(gpu.bgpd[0][1], [31, 0, 0]);
    gpu.write_registers(0xFF68, 0x00);
    assert_eq!(gpu.read_registers(0xFF69), 0xFF);
    gpu.write_registers(0xFF68, 0x01);
    assert_eq!(gpu.read_registers(0xFF69), 0x7F);
    gpu.write_registers(0xFF69, 0x02);
    assert_eq!(gpu.read_registers(0xFF68), 0x01);
    assert_eq!(gpu.bgpd[0][0], [31, 23, 0]);

    gpu.write_registers(0xFF6A, 0xBE);
    gpu.write_registers(0xFF6B, 0xE0);
    gpu.write_registers(0xFF6B, 0x03);
    assert_eq!(gpu.obpd[7][3], [0, 31, 0]);
    assert_eq!(gpu.read_registers(0xFF6A), 0x80);
    gpu.write_registers(0xFF6A, 0x3E);
    assert_eq!(gpu.read_registers(0xFF6B), 0xE0);
    gpu.write_registers(0xFF6A, 0x3F);
    assert_eq!(gpu.read_registers(0xFF6B), 0x03);
}

#[test]
fn colour_machine_draws_with_attributes() {
    let mut gpu = drawing(0x93);
    gpu.hardware = Hardware::CGB;
    gpu.write_registers(0xFF68, 0x80);
    for byte in [0x00u8, 0x00, 0x1F, 0x00, 0xE0, 0x03, 0x00, 0x7C] {
        gpu.write_registers(0xFF69, byte);
    }
    gpu.write_registers(0xFF68, 0x88);
    for byte in [0xFFu8, 0x7F, 0xFF, 0x7F, 0xFF, 0x7F, 0xFF, 0x7F] {
        gpu.write_registers(0xFF69, byte);
    }
    gpu.write_registers(0xFF4F, 1);
    gpu.write_vram(0x9801, 0x01);
    gpu.write_vram(0x9802, 0x20);
    gpu.write_vram(0x9803, 0x80);
    gpu.write_vram(0x9804, 0x08);
    gpu.write_vram(0x8000, 0xFF);
    gpu.write_vram(0x8001, 0x00);
    gpu.write_registers(0xFF4F, 0);
    gpu.draw_scanline();
    assert_eq!(gpu.screen_data[0][0], mix(0, 0, 0));
    assert_eq!(gpu.screen_data[0][1], mix(0, 31, 0));
    assert_eq!(gpu.screen_data[0][2], mix(0, 0, 31));
    assert_eq!(gpu.screen_data[0][8], [248, 248, 248]);
    assert_eq!(gpu.screen_data[0][9], [248, 248, 248]);
    assert_eq!(gpu.screen_data[0][16], mix(0, 0, 0));
    assert_eq!(gpu.screen_data[0][17], mix(0, 31, 0));
    assert_eq!(gpu.priority[17], (false, 2));
    assert_eq!(gpu.priority[25], (true, 2));
    assert_eq!(gpu.priority[24], (true, 0));
    assert_eq!(gpu.screen_data[0][32], mix(31, 0, 0));
    assert_eq!(gpu.priority[33], (false, 1));

    gpu.write_registers(0xFF6A, 0x80 | 0x0A);
    gpu.write_registers(0xFF6B, 0x1F);
    gpu.write_registers(0xFF6B, 0x00);
    gpu.write_vram(0x8010, 0xFF);
    gpu.write_vram(0x8011, 0x00);
    gpu.write_oam(0, 16);
    gpu.write_oam(1, 8 + 24);
    gpu.write_oam(2, 1);
    gpu.write_oam(3, 0x01);
    gpu.draw_scanline();
    assert_eq!(gpu.screen_data[0][24], mix(31, 0, 0));
    assert_eq!(gpu.screen_data[0][25], mix(0, 31, 0));
    assert_eq!(gpu.screen_data[0][31], mix(31, 0, 0));
}
