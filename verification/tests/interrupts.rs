use gameboy::system::interrupts::{Interrupt, Interrupts, INTERRUPT_ENABLE, INTERRUPT_FLAG};
use gameboy::system::joypad::{Joypad, Keys, JOYPAD_INPUT};
use gameboy::system::serial::Serial;

#[test]
fn controller_starts_enabled_and_empty() {
    let irq = Interrupt::new();
    assert_eq!(irq.interrupt_enable, 0);
    assert_eq!(irq.interrupt_flag, 0);
    assert!(irq.interrupt_master_enable);
    assert!(!irq.interrupt_delay);
    assert_eq!(irq.pending(), 0);
    assert_eq!(irq.lowest_pending(), None);
    assert_eq!(INTERRUPT_FLAG, 0xFF0F);
    assert_eq!(INTERRUPT_ENABLE, 0xFFFF);
}

#[test]
fn requests_set_their_bits() {
    let mut irq = Interrupt::new();
    irq.set_interrupt(Interrupts::VBlank);
    assert_eq!(irq.interrupt_flag, 0x01);
    irq.set_interrupt(Interrupts::LCDStat);
    assert_eq!(irq.interrupt_flag, 0x03);
    irq.set_interrupt(Interrupts::Timer);
    assert_eq!(irq.interrupt_flag, 0x07);
    irq.set_interrupt(Interrupts::Joypad);
    assert_eq!(irq.interrupt_flag, 0x17);
    irq.set_interrupt(Interrupts::Timer);
    assert_eq!(irq.interrupt_flag, 0x17);
    assert_eq!(Interrupts::VBlank.mask(), 0x01);
    assert_eq!(Interrupts::LCDStat.mask(), 0x02);
    assert_eq!(Interrupts::Timer.mask(), 0x04);
    assert_eq!(Interrupts::Joypad.mask(), 0x10);
}

#[test]
fn pending_is_enabled_and_requested_in_five_bits() {
    let mut irq = Interrupt::new();
    irq.interrupt_enable = 0xFF;
    irq.interrupt_flag = 0xF4;
    assert_eq!(irq.pending(), 0x14);
    assert_eq!(irq.lowest_pending(), Some(2));
    irq.interrupt_enable = 0x10;
    assert_eq!(irq.pending(), 0x10);
    assert_eq!(irq.lowest_pending(), Some(4));
    irq.interrupt_enable = 0x0B;
    assert_eq!(irq.pending(), 0x00);
    assert_eq!(irq.lowest_pending(), None);
    irq.interrupt_flag = 0xE0;
    irq.interrupt_enable = 0xE0;
    assert_eq!(irq.pending(), 0x00);
    assert_eq!(irq.lowest_pending(), None);
}

#[test]
fn pending_agrees_with_the_lowest_source() {
    let mut e: u16 = 0;
    while e < 256 {
        let mut f: u16 = 0;
        while f < 256 {
            let mut irq = Interrupt::new();
            irq.interrupt_enable = e as u8;
            irq.interrupt_flag = f as u8;
            let mask = irq.pending();
            assert_eq!(mask, (e & f & 0x1F) as u8);
            match irq.lowest_pending() {
                Some(k) => assert_eq!(k as u32, mask.trailing_zeros()),
                None => assert_eq!(mask, 0),
            }
            f += 5;
        }
        e += 3;
    }
}

#[test]
fn acknowledge_clears_request_and_master_enable() {
    let mut irq = Interrupt::new();
    irq.interrupt_enable = 0x1F;
    irq.interrupt_flag = 0x1F;
    irq.acknowledge(2);
    assert_eq!(irq.interrupt_flag, 0x1B);
    assert!(!irq.interrupt_master_enable);
    assert_eq!(irq.interrupt_enable, 0x1F);
    irq.acknowledge(2);
    assert_eq!(irq.interrupt_flag, 0x1B);
}

#[test]
fn joypad_matrix_and_select() {
    let mut pad = Joypad::new();
    let mut irq = Interrupt::new();
    assert_eq!(JOYPAD_INPUT, 0xFF00);
    assert_eq!(pad.matrix, 0xFF);
    assert_eq!(pad.get_joypad_state(), 0x0F);
    pad.set_joypad_state(0x30);
    assert_eq!(pad.get_joypad_state(), 0x30);
    pad.set_joypad_state(0x20);
    assert_eq!(pad.get_joypad_state(), 0x2F);
    pad.key_down(Keys::Right, &mut irq);
    assert_eq!(irq.interrupt_flag, 0x10);
    assert_eq!(pad.get_joypad_state(), 0x2E);
    pad.key_down(Keys::Down, &mut irq);
    assert_eq!(pad.get_joypad_state(), 0x26);
    pad.key_down(Keys::A, &mut irq);
    assert_eq!(pad.get_joypad_state(), 0x26);
    pad.set_joypad_state(0x10);
    assert_eq!(pad.get_joypad_state(), 0x1E);
    pad.key_down(Keys::Start, &mut irq);
    pad.key_down(Keys::Select, &mut irq);
    pad.key_down(Keys::B, &mut irq);
    assert_eq!(pad.get_joypad_state(), 0x10);
    pad.key_up(Keys::A);
    assert_eq!(pad.get_joypad_state(), 0x11);
    pad.key_up(Keys::Right);
    pad.key_up(Keys::Down);
    pad.set_joypad_state(0x20);
    assert_eq!(pad.get_joypad_state(), 0x2F);
    assert_eq!(pad.matrix, 0x1F);
}

#[test]
fn key_masks() {
    assert_eq!(Keys::Right.mask(), 0x01);
    assert_eq!(Keys::Left.mask(), 0x02);
    assert_eq!(Keys::Up.mask(), 0x04);
    assert_eq!(Keys::Down.mask(), 0x08);
    assert_eq!(Keys::A.mask(), 0x10);
    assert_eq!(Keys::B.mask(), 0x20);
    assert_eq!(Keys::Select.mask(), 0x40);
    assert_eq!(Keys::Start.mask(), 0x80);
}

#[test]
fn serial_registers_keep_what_is_written() {
    let mut serial = Serial::new();
    assert_eq!(serial.read_serial(0xFF01), 0);
    serial.write_serial(0xFF01, 0x41);
    serial.write_serial(0xFF02, 0x81);
    assert_eq!(serial.read_serial(0xFF01), 0x41);
    assert_eq!(serial.read_serial(0xFF02), 0x81);
    serial.write_serial(0xFF03, 0x99);
    assert_eq!(serial.read_serial(0xFF03), 0x00);
    assert_eq!(serial.data, 0x41);
    assert_eq!(serial.control, 0x81);
}
