//! The divider and the programmable timer (DIV, TIMA, TMA, TAC).
use vstd::prelude::*;

verus! {

/// Dots per TIMA increment for the clock select in TAC bits 1..0.
pub open spec fn freq_spec(tac: u8) -> int {
    let sel = tac % 4;
    if sel == 0 {
        1024
    } else if sel == 1 {
        16
    } else if sel == 2 {
        64
    } else {
        256
    }
}

/// TIMA after `k` increments from `tima`, reloading from `tma` on each overflow,
/// and whether any of them overflowed.
pub open spec fn tima_after(tima: u8, tma: u8, k: nat) -> (u8, bool)
    decreases k,
{
    if k == 0 {
        (tima, false)
    } else {
        let prev = tima_after(tima, tma, (k - 1) as nat);
        if prev.0 == 255 {
            (tma, true)
        } else {
            ((prev.0 + 1) as u8, prev.1)
        }
    }
}

pub struct Timer {
    div: u16,
    tac: u8,
    tma: u8,
    tima: u8,
    counter: i32,
}

impl Timer {
    pub closed spec fn div_spec(&self) -> u16 {
        self.div
    }

    pub closed spec fn tac_spec(&self) -> u8 {
        self.tac
    }

    pub closed spec fn tma_spec(&self) -> u8 {
        self.tma
    }

    pub closed spec fn tima_spec(&self) -> u8 {
        self.tima
    }

    /// Dots left before the next TIMA increment.
    pub closed spec fn counter_spec(&self) -> int {
        self.counter as int
    }

    pub closed spec fn wf(&self) -> bool {
        &&& self.tac < 8
        &&& 0 < self.counter <= freq_spec(self.tac)
    }

    /// `after` is `before` advanced by `cycles` dots, `fired` telling whether
    /// TIMA overflowed.
    pub open spec fn ticked(before: Timer, after: Timer, cycles: u8, fired: bool) -> bool {
        &&& after.wf()
        &&& after.div_spec() == (before.div_spec() + cycles) % 65536
        &&& after.tac_spec() == before.tac_spec()
        &&& after.tma_spec() == before.tma_spec()
        &&& before.tac_spec() < 4 ==> after.tima_spec() == before.tima_spec() && after.counter_spec()
            == before.counter_spec() && !fired
        &&& before.tac_spec() >= 4 ==> exists|k: nat|
            after.counter_spec() == before.counter_spec() - cycles + k * freq_spec(before.tac_spec()) && (
            after.tima_spec(), fired) == #[trigger] tima_after(before.tima_spec(), before.tma_spec(), k)
    }

    /// `after` is `before` after a CPU write of `value` to `address`.
    pub open spec fn set_spec(before: Timer, after: Timer, address: u16, value: u8) -> bool {
        &&& after.wf()
        &&& address == 0xff04 ==> after.div_spec() == 0 && after.counter_spec() == freq_spec(before.tac_spec())
            && after.tima_spec() == before.tima_spec() && after.tma_spec() == before.tma_spec() && after.tac_spec()
            == before.tac_spec()
        &&& address == 0xff05 ==> after.tima_spec() == value && after.div_spec() == before.div_spec()
            && after.tma_spec() == before.tma_spec() && after.tac_spec() == before.tac_spec() && after.counter_spec()
            == before.counter_spec()
        &&& address == 0xff06 ==> after.tma_spec() == value && after.div_spec() == before.div_spec()
            && after.tima_spec() == before.tima_spec() && after.tac_spec() == before.tac_spec() && after.counter_spec()
            == before.counter_spec()
        &&& address == 0xff07 ==> after.tac_spec() == value % 8 && after.div_spec() == before.div_spec()
            && after.tima_spec() == before.tima_spec() && after.tma_spec() == before.tma_spec() && after.counter_spec()
            == (if value % 8 != before.tac_spec() {
            freq_spec(value % 8)
        } else {
            before.counter_spec()
        })
    }

    /// The value that a read of `address` (0xFF04..=0xFF07) returns.
    pub open spec fn read_spec(&self, address: u16) -> u8 {
        if address == 0xff04 {
            (self.div_spec() / 256) as u8
        } else if address == 0xff05 {
            self.tima_spec()
        } else if address == 0xff06 {
            self.tma_spec()
        } else {
            self.tac_spec()
        }
    }

    pub fn new() -> (r: Self)
        ensures
            r.wf(),
            r.div_spec() == 0xad00,
            r.tac_spec() == 0 && r.tma_spec() == 0 && r.tima_spec() == 0,
            r.counter_spec() == 1024,
    {
        Self { div: 0xad00, tac: 0, tma: 0, tima: 0, counter: 1024 }
    }

    pub fn get(&self, address: u16) -> (r: u8)
        requires
            0xff04 <= address <= 0xff07,
        ensures
            r == self.read_spec(address),
    {
        if address == 0xff04 {
            (self.div / 256) as u8
        } else if address == 0xff05 {
            self.tima
        } else if address == 0xff06 {
            self.tma
        } else {
            self.tac
        }
    }

    pub fn set(&mut self, address: u16, value: u8)
        requires
            old(self).wf(),
            0xff04 <= address <= 0xff07,
        ensures
            Timer::set_spec(*old(self), *final(self), address, value),
            final(self).wf(),
            address == 0xff04 ==> final(self).div_spec() == 0 && final(self).counter_spec()
                == freq_spec(old(self).tac_spec()) && final(self).tima_spec() == old(self).tima_spec()
                && final(self).tma_spec() == old(self).tma_spec() && final(self).tac_spec()
                == old(self).tac_spec(),
            address == 0xff05 ==> final(self).tima_spec() == value && final(self).div_spec()
                == old(self).div_spec() && final(self).tma_spec() == old(self).tma_spec()
                && final(self).tac_spec() == old(self).tac_spec() && final(self).counter_spec()
                == old(self).counter_spec(),
            address == 0xff06 ==> final(self).tma_spec() == value && final(self).div_spec()
                == old(self).div_spec() && final(self).tima_spec() == old(self).tima_spec()
                && final(self).tac_spec() == old(self).tac_spec() && final(self).counter_spec()
                == old(self).counter_spec(),
            address == 0xff07 ==> final(self).tac_spec() == value % 8 && final(self).div_spec()
                == old(self).div_spec() && final(self).tima_spec() == old(self).tima_spec()
                && final(self).tma_spec() == old(self).tma_spec() && final(self).counter_spec() == (
                if value % 8 != old(self).tac_spec() {
                    freq_spec(value % 8)
                } else {
                    old(self).counter_spec()
                }),
    {
        if address == 0xff04 {
            self.reset();
        } else if address == 0xff05 {
            self.tima = value;
        } else if address == 0xff06 {
            self.tma = value;
        } else {
            let before = self.tac;
            self.tac = value % 8;
            if before != self.tac {
                self.reset_counter();
            }
        }
    }

    /// Advances the timer by `cycles` dots; returns whether TIMA overflowed
    /// (the caller raises the timer interrupt).
    pub fn tick(&mut self, cycles: u8) -> (r: bool)
        requires
            old(self).wf(),
        ensures
            Timer::ticked(*old(self), *final(self), cycles, r),
            final(self).wf(),
            final(self).div_spec() == (old(self).div_spec() + cycles) % 65536,
            final(self).tac_spec() == old(self).tac_spec(),
            final(self).tma_spec() == old(self).tma_spec(),
            old(self).tac_spec() < 4 ==> final(self).tima_spec() == old(self).tima_spec()
                && final(self).counter_spec() == old(self).counter_spec() && !r,
            old(self).tac_spec() >= 4 ==> exists|k: nat|
                final(self).counter_spec() == old(self).counter_spec() - cycles + k * freq_spec(
                    old(self).tac_spec(),
                ) && (final(self).tima_spec(), r) == tima_after(
                    old(self).tima_spec(),
                    old(self).tma_spec(),
                    k,
                ),
    {
        self.div = ((self.div as u32 + cycles as u32) % 65536) as u16;
        if self.tac < 4 {
            return false;
        }
        let ghost tima0 = self.tima;
        let ghost div1 = self.div;
        let ghost counter0 = self.counter as int;
        let freq = self.get_freq();
        let mut fired = false;
        let ghost mut k: nat = 0;
        self.counter = self.counter - cycles as i32;
        while self.counter <= 0
            invariant
                self.tac >= 4 && self.tac < 8,
                freq as int == freq_spec(self.tac),
                freq >= 16,
                self.div == div1,
                self.tma == old(self).tma,
                self.tac == old(self).tac,
                self.counter as int == counter0 - cycles + k * freq,
                -256 < self.counter <= freq_spec(self.tac),
                (self.tima, fired) == tima_after(tima0, self.tma, k),
            decreases 1024 - self.counter,
        {
            self.counter = self.counter + freq;
            if self.tima == 255 {
                self.tima = self.tma;
                fired = true;
            } else {
                self.tima = self.tima + 1;
            }
            proof {
                k = k + 1;
            }
        }
        assert(self.counter_spec() == old(self).counter_spec() - cycles + k * freq_spec(
            old(self).tac_spec(),
        ) && (self.tima_spec(), fired) == tima_after(old(self).tima_spec(), old(self).tma_spec(), k));
        fired
    }

    fn get_freq(&self) -> (r: i32)
        ensures
            r == freq_spec(self.tac),
    {
        let sel = self.tac % 4;
        if sel == 0 {
            1024
        } else if sel == 1 {
            16
        } else if sel == 2 {
            64
        } else {
            256
        }
    }

    fn reset_counter(&mut self)
        ensures
            final(self).counter == freq_spec(old(self).tac),
            final(self).div == old(self).div && final(self).tac == old(self).tac,
            final(self).tma == old(self).tma && final(self).tima == old(self).tima,
    {
        self.counter = self.get_freq();
    }

    fn reset(&mut self)
        ensures
            final(self).counter == freq_spec(old(self).tac),
            final(self).div == 0 && final(self).tac == old(self).tac,
            final(self).tma == old(self).tma && final(self).tima == old(self).tima,
    {
        self.div = 0;
        self.reset_counter();
    }
}

/// A well-formed timer's countdown lies within one period.
pub proof fn lemma_counter_in_period(t: Timer)
    requires
        t.wf(),
    ensures
        0 < t.counter_spec() <= freq_spec(t.tac_spec()),
        t.tac_spec() < 8,
{
}

/// When TIMA overflows on an increment it is reloaded from TMA and the overflow
/// is reported.
pub proof fn lemma_tima_reload(tma: u8)
    ensures
        tima_after(0xff, tma, 1) == (tma, true),
{
    assert(tima_after(0xff, tma, 0) == (0xffu8, false));
}

} // verus!
