//! The cartridge clock of the third mapper.
//!
//! The clock counts from a zero point, in seconds since the Unix epoch. The
//! host tells it the time; a latch turns the time elapsed since the zero
//! point into the five clock registers.

use vstd::prelude::*;

verus! {

#[derive(Clone, Copy, Debug, PartialEq, Eq)]
pub struct RealTimeClock {
    pub s: u8,
    pub m: u8,
    pub h: u8,
    pub dl: u8,
    pub dh: u8,
    /// The second at which the clock stood at zero.
    pub zero: u64,
    /// The host's time, as last reported.
    pub now: u64,
}

impl RealTimeClock {
    /// Seconds between the zero point and the host's time; nothing if the
    /// host's time lies before the zero point.
    pub open spec fn spec_elapsed(self) -> u64 {
        if self.now >= self.zero {
            (self.now - self.zero) as u64
        } else {
            0
        }
    }

    /// Whole days in the elapsed time, as the sixteen bits that the clock
    /// counts them in.
    pub open spec fn spec_days(self) -> u16 {
        (self.spec_elapsed() / 86400 % 0x10000) as u16
    }

    /// The clock after a latch: seconds, minutes, hours and the low byte of
    /// the day count are taken from the elapsed time; bit 0 of the high byte
    /// is set once the day count has passed 255, bit 7 as well once it has
    /// passed 511, and neither is cleared.
    pub open spec fn spec_tick(self) -> RealTimeClock {
        let d = self.spec_elapsed();
        let days = self.spec_days();
        RealTimeClock {
            s: (d % 60) as u8,
            m: (d / 60 % 60) as u8,
            h: (d / 3600 % 24) as u8,
            dl: (days % 256) as u8,
            dh: if days < 0x100 {
                self.dh
            } else if days < 0x200 {
                self.dh | 0x01
            } else {
                self.dh | 0x01 | 0x80
            },
            ..self
        }
    }

    /// The clock register that `address` selects, zero where it selects none.
    pub open spec fn spec_read(self, address: u16) -> u8 {
        if address == 0x08 {
            self.s
        } else if address == 0x09 {
            self.m
        } else if address == 0x0A {
            self.h
        } else if address == 0x0B {
            self.dl
        } else if address == 0x0C {
            self.dh
        } else {
            0
        }
    }

    /// The clock after a write to the register that `address` selects.
    pub open spec fn spec_write(self, address: u16, value: u8) -> RealTimeClock {
        if address == 0x08 {
            RealTimeClock { s: value, ..self }
        } else if address == 0x09 {
            RealTimeClock { m: value, ..self }
        } else if address == 0x0A {
            RealTimeClock { h: value, ..self }
        } else if address == 0x0B {
            RealTimeClock { dl: value, ..self }
        } else if address == 0x0C {
            RealTimeClock { dh: value, ..self }
        } else {
            self
        }
    }

    /// The zero point as it is kept on disk: eight bytes, the most
    /// significant first.
    pub open spec fn spec_zero_bytes(self) -> Seq<u8> {
        Seq::new(8, |i: int| spec_be_byte(self.zero, i))
    }

    /// A clock whose zero point and present are both `now`, or whose zero
    /// point is the one that was saved.
    pub fn new(saved_zero: Option<u64>, now: u64) -> (r: RealTimeClock)
        ensures
            r == (RealTimeClock {
                s: 0,
                m: 0,
                h: 0,
                dl: 0,
                dh: 0,
                zero: match saved_zero {
                    Some(z) => z,
                    None => now,
                },
                now: now,
            }),
    {
        let zero: u64 = match saved_zero {
            Some(z) => z,
            None => now,
        };
        RealTimeClock { zero, s: 0, m: 0, h: 0, dl: 0, dh: 0, now }
    }

    /// Tells the clock the host's time, in seconds since the Unix epoch.
    pub fn set_time(&mut self, now: u64)
        ensures
            *final(self) == (RealTimeClock { now: now, ..*old(self) }),
    {
        self.now = now;
    }

    /// Latches the elapsed time into the clock registers.
    pub fn tick(&mut self)
        ensures
            *final(self) == old(self).spec_tick(),
    {
        let d: u64 = if self.now >= self.zero {
            self.now - self.zero
        } else {
            0
        };
        self.s = (d % 60) as u8;
        self.m = (d / 60 % 60) as u8;
        self.h = (d / 3600 % 24) as u8;
        let days: u16 = (d / 86400 % 0x10000) as u16;
        self.dl = (days % 256) as u8;
        if days >= 0x200 {
            self.dh = self.dh | 0x01 | 0x80;
        } else if days >= 0x100 {
            self.dh = self.dh | 0x01;
        }
    }

    pub fn read_rtc(&self, address: u16) -> (r: u8)
        ensures
            r == self.spec_read(address),
    {
        if address == 0x08 {
            self.s
        } else if address == 0x09 {
            self.m
        } else if address == 0x0A {
            self.h
        } else if address == 0x0B {
            self.dl
        } else if address == 0x0C {
            self.dh
        } else {
            0x00
        }
    }

    pub fn write_rtc(&mut self, address: u16, value: u8)
        ensures
            *final(self) == old(self).spec_write(address, value),
    {
        if address == 0x08 {
            self.s = value;
        } else if address == 0x09 {
            self.m = value;
        } else if address == 0x0A {
            self.h = value;
        } else if address == 0x0B {
            self.dl = value;
        } else if address == 0x0C {
            self.dh = value;
        }
    }

    /// The bytes to keep on disk for the zero point.
    pub fn rtc_save(&self) -> (r: Vec<u8>)
        ensures
            r@ == self.spec_zero_bytes(),
    {
        let mut out: Vec<u8> = Vec::new();
        let mut i: usize = 0;
        let mut divisor: u64 = 0x0100_0000_0000_0000;
        while i < 8
            invariant
                i <= 8,
                out.len() == i,
                divisor == spec_place(i as int),
                forall|k: int| 0 <= k < i ==> out[k] == spec_be_byte(self.zero, k),
            decreases 8 - i,
        {
            out.push((self.zero / divisor % 256) as u8);
            divisor = divisor / 256;
            i = i + 1;
        }
        assert(out@ =~= self.spec_zero_bytes());
        out
    }
}

/// The weight of byte `i` of eight, the most significant first.
pub open spec fn spec_place(i: int) -> u64 {
    if i == 0 {
        0x0100_0000_0000_0000
    } else if i == 1 {
        0x0001_0000_0000_0000
    } else if i == 2 {
        0x0000_0100_0000_0000
    } else if i == 3 {
        0x0000_0001_0000_0000
    } else if i == 4 {
        0x0000_0000_0100_0000
    } else if i == 5 {
        0x0000_0000_0001_0000
    } else if i == 6 {
        0x0000_0000_0000_0100
    } else if i == 7 {
        0x0000_0000_0000_0001
    } else {
        0
    }
}

/// Byte `i` of a value written as eight bytes, the most significant first.
pub open spec fn spec_be_byte(value: u64, i: int) -> u8 {
    (value / spec_place(i) % 256) as u8
}

/// The value that eight bytes stand for, the most significant first.
pub open spec fn spec_from_be(bytes: Seq<u8>) -> int
    recommends
        bytes.len() == 8,
{
    bytes[0] * 0x0100_0000_0000_0000 + bytes[1] * 0x0001_0000_0000_0000 + bytes[2]
        * 0x0000_0100_0000_0000 + bytes[3] * 0x0000_0001_0000_0000 + bytes[4] * 0x0100_0000
        + bytes[5] * 0x0001_0000 + bytes[6] * 0x0100 + bytes[7]
}

/// Reads a zero point back from the eight bytes kept on disk; anything that
/// is not eight bytes long holds none.
pub fn zero_from_bytes(bytes: &Vec<u8>) -> (r: Option<u64>)
    ensures
        bytes.len() != 8 ==> r is None,
        bytes.len() == 8 ==> r == Some(spec_from_be(bytes@) as u64),
        bytes.len() == 8 ==> spec_from_be(bytes@) <= u64::MAX,
{
    if bytes.len() != 8 {
        return None;
    }
    let high: u64 = bytes[0] as u64 * 0x0100_0000 + bytes[1] as u64 * 0x0001_0000 + bytes[2] as u64
        * 0x0100 + bytes[3] as u64;
    let low: u64 = bytes[4] as u64 * 0x0100_0000 + bytes[5] as u64 * 0x0001_0000 + bytes[6] as u64
        * 0x0100 + bytes[7] as u64;
    Some(high * 0x0001_0000_0000 + low)
}

/// The registers after a latch are a time of day, and the seconds that they
/// and the day count stand for are the elapsed time, as far as sixteen bits
/// of days can tell.
pub proof fn lemma_tick_is_time_of_day(clock: RealTimeClock)
    ensures
        clock.spec_tick().s < 60,
        clock.spec_tick().m < 60,
        clock.spec_tick().h < 24,
        clock.spec_tick().zero == clock.zero,
        clock.spec_elapsed() < 86400 * 0x10000 ==> clock.spec_elapsed() == clock.spec_tick().s
            + 60 * clock.spec_tick().m + 3600 * clock.spec_tick().h + 86400 * clock.spec_days(),
{
    let d = clock.spec_elapsed() as int;
    let minutes = d / 60;
    let hours = minutes / 60;
    let days = hours / 24;
    vstd::arithmetic::div_mod::lemma_div_denominator(d, 60, 60);
    vstd::arithmetic::div_mod::lemma_div_denominator(d, 3600, 24);
    assert(d / 3600 == hours);
    assert(d / 86400 == days);
    assert(d == 60 * minutes + d % 60);
    assert(minutes == 60 * hours + minutes % 60);
    assert(hours == 24 * days + hours % 24);
}

/// The eight bytes kept on disk stand for the zero point that they were
/// made from.
pub proof fn lemma_zero_bytes_round_trip(clock: RealTimeClock)
    ensures
        clock.spec_zero_bytes().len() == 8,
        spec_from_be(clock.spec_zero_bytes()) == clock.zero,
{
    let z = clock.zero as int;
    let b = clock.spec_zero_bytes();
    let q1 = z / 0x100;
    let q2 = q1 / 0x100;
    let q3 = q2 / 0x100;
    let q4 = q3 / 0x100;
    let q5 = q4 / 0x100;
    let q6 = q5 / 0x100;
    let q7 = q6 / 0x100;
    vstd::arithmetic::div_mod::lemma_div_denominator(z, 0x100, 0x100);
    vstd::arithmetic::div_mod::lemma_div_denominator(z, 0x1_0000, 0x100);
    vstd::arithmetic::div_mod::lemma_div_denominator(z, 0x100_0000, 0x100);
    vstd::arithmetic::div_mod::lemma_div_denominator(z, 0x1_0000_0000, 0x100);
    vstd::arithmetic::div_mod::lemma_div_denominator(z, 0x100_0000_0000, 0x100);
    vstd::arithmetic::div_mod::lemma_div_denominator(z, 0x1_0000_0000_0000, 0x100);
    assert(q2 == z / 0x1_0000);
    assert(q3 == z / 0x100_0000);
    assert(q4 == z / 0x1_0000_0000);
    assert(q5 == z / 0x100_0000_0000);
    assert(q6 == z / 0x1_0000_0000_0000);
    assert(q7 == z / 0x100_0000_0000_0000);
    assert(q7 < 0x100);
    assert(b[7] == z % 0x100);
    assert(b[6] == q1 % 0x100);
    assert(b[5] == q2 % 0x100);
    assert(b[4] == q3 % 0x100);
    assert(b[3] == q4 % 0x100);
    assert(b[2] == q5 % 0x100);
    assert(b[1] == q6 % 0x100);
    assert(b[0] == q7);
    assert(z == q1 * 0x100 + b[7]);
    assert(q1 == q2 * 0x100 + b[6]);
    assert(q2 == q3 * 0x100 + b[5]);
    assert(q3 == q4 * 0x100 + b[4]);
    assert(q4 == q5 * 0x100 + b[3]);
    assert(q5 == q6 * 0x100 + b[2]);
    assert(q6 == q7 * 0x100 + b[1]);
}

} // verus!
