use gameboy::system::interrupts::{Interrupt, Interrupts};
use gameboy::system::timer::{Timer, MAX_CYCLES};

#[test]
fn timer_starts_stopped() {
    let timer = Timer::new();
    assert_eq!(timer.tima, 0);
    assert_eq!(timer.tma, 0);
    assert_eq!(timer.divider_register, 0);
    assert_eq!(timer.divider_counter, 0);
    assert_eq!(timer.clock_counter, 1024);
    assert_eq!(timer.input_clock_speed, 1024);
    assert!(!timer.clock_enabled);
    assert_eq!(timer.control(), 0);
    assert_eq!(MAX_CYCLES, 69905);
}

#[test]
fn div_counts_every_256_cycles() {
    let mut timer = Timer::new();
    let mut irq = Interrupt::new();
    timer.update_timers(255, &mut irq);
    assert_eq!(timer.divider_register, 0);
    timer.update_timers(1, &mut irq);
    assert_eq!(timer.divider_register, 1);
    assert_eq!(timer.divider_counter, 0);
    timer.update_timers(600, &mut irq);
    assert_eq!(timer.divider_register, 3);
    assert_eq!(timer.divider_counter, 88);
    timer.divider_register = 0xFF;
    timer.update_timers(200, &mut irq);
    assert_eq!(timer.divider_register, 0x00);
    assert_eq!(timer.divider_counter, 32);
    assert_eq!(timer.tima, 0);
    assert_eq!(irq.interrupt_flag, 0);
}

#[test]
fn tac_selects_the_period() {
    let mut timer = Timer::new();
    for (value, period, enabled) in [
        (0x00u8, 1024u32, false),
        (0x01, 16, false),
        (0x02, 64, false),
        (0x03, 256, false),
        (0x04, 1024, true),
        (0x05, 16, true),
        (0x06, 64, true),
        (0x07, 256, true),
        (0xFD, 16, true),
    ] {
        timer.set_control(value);
        assert_eq!(timer.input_clock_speed, period);
        assert_eq!(timer.clock_enabled, enabled);
        assert_eq!(timer.control(), value & 0x07);
    }
}

#[test]
fn tima_counts_periods() {
    let mut timer = Timer::new();
    let mut irq = Interrupt::new();
    timer.set_control(0x05);
    timer.clock_counter = 0;
    timer.update_timers(15, &mut irq);
    assert_eq!(timer.tima, 0);
    timer.update_timers(1, &mut irq);
    assert_eq!(timer.tima, 1);
    timer.update_timers(16 * 5 + 3, &mut irq);
    assert_eq!(timer.tima, 6);
    assert_eq!(timer.clock_counter, 3);
    timer.set_control(0x01);
    timer.update_timers(1000, &mut irq);
    assert_eq!(timer.tima, 6);
    assert_eq!(timer.clock_counter, 3);
    assert_eq!(irq.interrupt_flag, 0);
}

#[test]
fn cycles_gathered_at_power_on_count_at_the_first_update() {
    let mut timer = Timer::new();
    let mut irq = Interrupt::new();
    timer.set_control(0x04);
    timer.update_timers(4, &mut irq);
    assert_eq!(timer.tima, 1);
    assert_eq!(timer.clock_counter, 4);
}

#[test]
fn tima_overflow_reloads_and_interrupts() {
    let mut timer = Timer::new();
    let mut irq = Interrupt::new();
    timer.set_control(0x05);
    timer.clock_counter = 0;
    timer.tima = 0xFF;
    timer.tma = 0x42;
    timer.update_timers(15, &mut irq);
    assert_eq!(timer.tima, 0xFF);
    assert_eq!(irq.interrupt_flag, 0x00);
    timer.update_timers(1, &mut irq);
    assert_eq!(timer.tima, 0x42);
    assert_eq!(irq.interrupt_flag, Interrupts::Timer.mask());
    assert_eq!(irq.interrupt_flag, 0x04);
}

#[test]
fn tima_can_overflow_more_than_once_in_an_update() {
    let mut timer = Timer::new();
    let mut irq = Interrupt::new();
    irq.interrupt_flag = 0x01;
    timer.set_control(0x05);
    timer.clock_counter = 0;
    timer.tima = 0xFE;
    timer.tma = 0xFE;
    timer.update_timers(64, &mut irq);
    assert_eq!(timer.tima, 0xFE);
    assert_eq!(irq.interrupt_flag, 0x05);
    timer.tima = 0x00;
    timer.tma = 0x00;
    timer.update_timers(16 * 255, &mut irq);
    assert_eq!(timer.tima, 0xFF);
    timer.update_timers(16 * 257, &mut irq);
    assert_eq!(timer.tima, 0x00);
}
