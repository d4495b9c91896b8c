use gameboy::system::rtc::{zero_from_bytes, RealTimeClock};

#[test]
fn clock_starts_at_zero() {
    let fresh = RealTimeClock::new(None, 1_700_000_000);
    assert_eq!(fresh.zero, 1_700_000_000);
    assert_eq!(fresh.now, 1_700_000_000);
    assert_eq!((fresh.s, fresh.m, fresh.h, fresh.dl, fresh.dh), (0, 0, 0, 0, 0));
    let loaded = RealTimeClock::new(Some(5), 1_700_000_000);
    assert_eq!(loaded.zero, 5);
}

#[test]
fn latch_splits_the_elapsed_time() {
    let mut clock = RealTimeClock::new(Some(100), 100);
    clock.set_time(100 + 86400 * 300 + 23 * 3600 + 59 * 60 + 58);
    clock.tick();
    assert_eq!(clock.s, 58);
    assert_eq!(clock.m, 59);
    assert_eq!(clock.h, 23);
    assert_eq!(clock.dl, 44);
    assert_eq!(clock.dh, 0x01);
    clock.set_time(100 + 86400 * 512);
    clock.tick();
    assert_eq!((clock.s, clock.m, clock.h, clock.dl), (0, 0, 0, 0));
    assert_eq!(clock.dh, 0x81);
    clock.set_time(100 + 86400 * 3 + 5);
    clock.tick();
    assert_eq!((clock.s, clock.dl), (5, 3));
    assert_eq!(clock.dh, 0x81);
    clock.set_time(99);
    clock.tick();
    assert_eq!((clock.s, clock.m, clock.h, clock.dl), (0, 0, 0, 0));
    assert_eq!(clock.zero, 100);
}

#[test]
fn clock_registers_by_number() {
    let mut clock = RealTimeClock::new(None, 0);
    clock.write_rtc(0x08, 1);
    clock.write_rtc(0x09, 2);
    clock.write_rtc(0x0A, 3);
    clock.write_rtc(0x0B, 4);
    clock.write_rtc(0x0C, 5);
    clock.write_rtc(0x0D, 6);
    clock.write_rtc(0x07, 7);
    assert_eq!(clock.read_rtc(0x08), 1);
    assert_eq!(clock.read_rtc(0x09), 2);
    assert_eq!(clock.read_rtc(0x0A), 3);
    assert_eq!(clock.read_rtc(0x0B), 4);
    assert_eq!(clock.read_rtc(0x0C), 5);
    assert_eq!(clock.read_rtc(0x0D), 0);
    assert_eq!(clock.read_rtc(0x00), 0);
    assert_eq!((clock.s, clock.m, clock.h, clock.dl, clock.dh), (1, 2, 3, 4, 5));
}

#[test]
fn zero_point_is_kept_as_eight_bytes_most_significant_first() {
    let clock = RealTimeClock::new(Some(0x0102_0304_0506_0708), 0);
    assert_eq!(clock.rtc_save(), vec![1, 2, 3, 4, 5, 6, 7, 8]);
    assert_eq!(zero_from_bytes(&clock.rtc_save()), Some(0x0102_0304_0506_0708));
    assert_eq!(zero_from_bytes(&vec![0xFF; 8]), Some(u64::MAX));
    assert_eq!(zero_from_bytes(&vec![0; 8]), Some(0));
    assert_eq!(zero_from_bytes(&vec![0; 7]), None);
    assert_eq!(zero_from_bytes(&vec![0; 9]), None);
    assert_eq!(zero_from_bytes(&Vec::new()), None);
    for zero in [0u64, 1, 255, 256, 1_700_000_000, u64::MAX - 1] {
        let kept = RealTimeClock::new(Some(zero), 0).rtc_save();
        assert_eq!(kept, zero.to_be_bytes().to_vec());
        assert_eq!(zero_from_bytes(&kept), Some(zero));
    }
}
