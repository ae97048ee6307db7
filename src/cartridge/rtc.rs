//! The MBC3 real-time clock: five registers latched from the time elapsed
//! since the clock was created.
use vstd::prelude::*;
use std::time::Instant;

verus! {

#[verifier::external_type_specification]
#[verifier::external_body]
pub struct ExInstant(std::time::Instant);

/// Relies on std::time::Instant::now: a reading of the monotonic clock.
#[verifier::external_body]
fn instant_now() -> (r: Instant) {
    Instant::now()
}

/// Relies on std::time::Instant::elapsed (with Duration::as_secs): whole
/// seconds since `t`. Depends on the time, so nothing is promised of it.
#[verifier::external_body]
fn elapsed_secs(t: &Instant) -> (r: u64) {
    t.elapsed().as_secs()
}

/// The clock registers for `secs` seconds of running time:
/// (seconds, minutes, hours, day low byte, day bit 8).
pub open spec fn clock_of(secs: u64) -> (u8, u8, u8, u8, u8) {
    let days = secs / 86400;
    (
        (secs % 60) as u8,
        ((secs / 60) % 60) as u8,
        ((secs / 3600) % 24) as u8,
        (days % 256) as u8,
        ((days / 256) % 2) as u8,
    )
}

pub struct RTC {
    latched: bool,
    zero_time: Instant,
    seconds: u8,
    minutes: u8,
    hours: u8,
    day_low: u8,
    day_high: u8,
}

impl RTC {
    /// The five registers: seconds, minutes, hours, day low, day high.
    pub closed spec fn regs(&self) -> (u8, u8, u8, u8, u8) {
        (self.seconds, self.minutes, self.hours, self.day_low, self.day_high)
    }

    /// Whether a 0x00 write has armed the latch.
    pub closed spec fn armed(&self) -> bool {
        self.latched
    }

    /// The register that selector `bank` (0x08..=0x0C) reads; 0xFF otherwise.
    pub open spec fn read_spec(&self, bank: u8) -> u8 {
        let r = self.regs();
        if bank == 0x08 {
            r.0
        } else if bank == 0x09 {
            r.1
        } else if bank == 0x0a {
            r.2
        } else if bank == 0x0b {
            r.3
        } else if bank == 0x0c {
            r.4
        } else {
            0xff
        }
    }

    pub fn new() -> (r: Self)
        ensures
            r.regs() == (0u8, 0u8, 0u8, 0u8, 0u8),
            !r.armed(),
    {
        Self { latched: false, zero_time: instant_now(), seconds: 0, minutes: 0, hours: 0, day_low: 0, day_high: 0 }
    }

    pub fn read(&self, bank: u8) -> (r: u8)
        ensures
            r == self.read_spec(bank),
    {
        if bank == 0x08 {
            self.seconds
        } else if bank == 0x09 {
            self.minutes
        } else if bank == 0x0a {
            self.hours
        } else if bank == 0x0b {
            self.day_low
        } else if bank == 0x0c {
            self.day_high
        } else {
            0xff
        }
    }

    pub fn write(&mut self, bank: u8, value: u8)
        ensures
            final(self).armed() == old(self).armed(),
            forall|b: u8| b != bank ==> #[trigger] final(self).read_spec(b) == old(self).read_spec(b),
            0x08 <= bank <= 0x0c ==> final(self).read_spec(bank) == value,
            !(0x08 <= bank <= 0x0c) ==> final(self).regs() == old(self).regs(),
    {
        if bank == 0x08 {
            self.seconds = value;
        } else if bank == 0x09 {
            self.minutes = value;
        } else if bank == 0x0a {
            self.hours = value;
        } else if bank == 0x0b {
            self.day_low = value;
        } else if bank == 0x0c {
            self.day_high = value;
        }
    }

    /// A write to 0x6000..=0x7FFF: 0x00 then 0x01 latches the running time
    /// into the registers; any other sequence disarms the latch.
    pub fn write_latch_clock(&mut self, value: u8)
        ensures
            final(self).armed() == (value == 0),
            !(value == 1 && old(self).armed()) ==> final(self).regs() == old(self).regs(),
            value == 1 && old(self).armed() ==> exists|secs: u64| final(self).regs() == clock_of(secs),
    {
        if value == 0 {
            self.latched = true;
        } else if value == 1 && self.latched {
            self.latched = false;
            self.latch_clock();
        } else {
            self.latched = false;
        }
    }

    fn latch_clock(&mut self)
        ensures
            final(self).latched == old(self).latched,
            exists|secs: u64| final(self).regs() == clock_of(secs),
    {
        let secs = elapsed_secs(&self.zero_time);
        self.latch_at(secs);
    }

    /// Loads the registers with the clock reading for `secs` seconds of
    /// running time.
    pub fn latch_at(&mut self, secs: u64)
        ensures
            final(self).regs() == clock_of(secs),
            final(self).armed() == old(self).armed(),
    {
        let days = secs / 86400;
        self.seconds = (secs % 60) as u8;
        self.minutes = ((secs / 60) % 60) as u8;
        self.hours = ((secs / 3600) % 24) as u8;
        self.day_low = (days % 256) as u8;
        self.day_high = ((days / 256) % 2) as u8;
    }
}

} // verus!
