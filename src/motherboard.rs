//! The shared board state: interrupt registers, the dot counters of the
//! cycle-debt synchronizer, and the subsystems that run on dots.
use vstd::prelude::*;
use crate::alu::{bit_set, with_bit, write_bit};
use crate::joypad::Joypad;
use crate::screen::Screen;
use crate::sound::Sound;
use crate::timer::{freq_spec, lemma_counter_in_period, lemma_tima_reload, tima_after, Timer};

verus! {

/// Interrupt bits, in priority order.
pub const INT_VBLANK: u8 = 0;

pub const INT_STAT: u8 = 1;

pub const INT_TIMER: u8 = 2;

pub const INT_SERIAL: u8 = 3;

pub const INT_JOYPAD: u8 = 4;

pub struct Motherboard {
    /// IF.
    pub i_flag: u8,
    /// IME.
    pub i_master: bool,
    /// IE.
    pub i_enable: u8,
    /// Dots of the current instruction not yet reported to the subsystems.
    pub cycles: u8,
    /// Dots of the current instruction already reported.
    pub sync_cycles: u8,
    pub timer: Timer,
    pub screen: Screen,
    pub joypad: Joypad,
    pub sound: Sound,
}

impl Motherboard {
    pub open spec fn wf(&self) -> bool {
        self.timer.wf() && self.screen.wf() && self.sound.wf()
    }

    /// `after` is `before` once the pending dots have been reported: timer,
    /// PPU and APU advanced by them, their interrupt requests ORed into IF.
    pub open spec fn synced(before: Motherboard, after: Motherboard) -> bool {
        let c = before.cycles;
        &&& after.wf()
        &&& after.cycles == 0
        &&& after.sync_cycles == if before.sync_cycles + c > 255 { 255 } else { before.sync_cycles + c }
        &&& exists|fired: bool, r: u8|
            #[trigger] Timer::ticked(before.timer, after.timer, c, fired) && #[trigger] Screen::updated(
                before.screen,
                after.screen,
                c,
                r,
            ) && after.i_flag == before.i_flag | request_bits(fired, r)
        &&& Sound::ticked(before.sound, after.sound, c)
        &&& after.i_master == before.i_master && after.i_enable == before.i_enable
        &&& after.joypad == before.joypad
    }

    pub fn new() -> (r: Self)
        ensures
            r.wf(),
            r.i_flag == 0 && r.i_enable == 0 && !r.i_master,
            r.cycles == 0 && r.sync_cycles == 0,
            r.screen.ly == 0,
            !r.screen.lcdc.lcd_enable,
    {
        Self {
            i_flag: 0,
            i_enable: 0,
            cycles: 0,
            sync_cycles: 0,
            i_master: false,
            timer: Timer::new(),
            screen: Screen::new(),
            joypad: Joypad::new(),
            sound: Sound::new(),
        }
    }

    /// Requests interrupt `bit` in IF.
    pub fn set_interrupt(&mut self, bit: u8)
        requires
            bit < 8,
        ensures
            final(self).i_flag == with_bit(old(self).i_flag, bit, true),
            *final(self) == (Motherboard { i_flag: final(self).i_flag, ..*old(self) }),
    {
        self.i_flag = write_bit(self.i_flag, bit, true);
    }

    /// Reports the pending dots to the timer, PPU and APU.
    pub fn sync(&mut self)
        requires
            old(self).wf(),
        ensures
            Motherboard::synced(*old(self), *final(self)),
    {
        let c = self.cycles;
        let fired = self.timer.tick(c);
        let irq = self.screen.update(c);
        self.sound.tick(c);
        let bits = request_bits_exec(fired, irq);
        self.i_flag = self.i_flag | bits;
        self.sync_cycles = if self.sync_cycles as u16 + c as u16 > 255 { 255 } else { self.sync_cycles + c };
        self.cycles = 0;
        proof {
            assert(Timer::ticked(old(self).timer, self.timer, c, fired));
            assert(Screen::updated(old(self).screen, self.screen, c, irq));
        }
    }
}

/// The IF bits that a timer overflow and the PPU's interrupt bits `ppu`
/// (bit 0 VBlank, bit 1 STAT) request.
pub open spec fn request_bits(fired: bool, ppu: u8) -> u8 {
    ((if fired { 4int } else { 0 }) + ppu % 4) as u8
}

fn request_bits_exec(fired: bool, ppu: u8) -> (r: u8)
    ensures
        r == request_bits(fired, ppu),
{
    (if fired { 4 } else { 0 }) + ppu % 4
}

/// TIMA reload: when a sync carries TIMA (at 0xFF, timer enabled) through
/// exactly one increment, TIMA afterwards equals TMA and IF bit 2 is set.
pub proof fn lemma_tima_reload_raises_interrupt(before: Motherboard, after: Motherboard)
    requires
        before.wf(),
        Motherboard::synced(before, after),
        before.timer.tac_spec() >= 4,
        before.timer.tima_spec() == 0xff,
        before.timer.counter_spec() <= before.cycles < before.timer.counter_spec() + freq_spec(
            before.timer.tac_spec(),
        ),
    ensures
        after.timer.tima_spec() == before.timer.tma_spec(),
        bit_set(after.i_flag, 2),
{
    let c = before.cycles;
    let fr = freq_spec(before.timer.tac_spec());
    let (fired, r) = choose|fired: bool, r: u8|
        #[trigger] Timer::ticked(before.timer, after.timer, c, fired) && #[trigger] Screen::updated(
            before.screen,
            after.screen,
            c,
            r,
        ) && after.i_flag == before.i_flag | request_bits(fired, r);
    let k = choose|k: nat|
        after.timer.counter_spec() == before.timer.counter_spec() - c + k * fr && (after.timer.tima_spec(), fired)
            == #[trigger] tima_after(before.timer.tima_spec(), before.timer.tma_spec(), k);
    lemma_counter_in_period(after.timer);
    assert(k == 1) by (nonlinear_arith)
        requires
            after.timer.counter_spec() == before.timer.counter_spec() - c + k * fr,
            0 < after.timer.counter_spec() <= fr,
            before.timer.counter_spec() <= c < before.timer.counter_spec() + fr,
            fr > 0,
    ;
    lemma_tima_reload(before.timer.tma_spec());
    lemma_timer_request(before.i_flag, r);
}

/// A timer overflow reported by a sync leaves IF bit 2 set.
pub proof fn lemma_timer_request(i_flag: u8, ppu: u8)
    ensures
        bit_set(i_flag | request_bits(true, ppu), 2),
{
    let x = i_flag | request_bits(true, ppu);
    let q = request_bits(true, ppu);
    assert(4 <= q < 8);
    assert((q >> 2u8) & 1 == 1 ==> (x >> 2u8) & 1 == 1) by (bit_vector)
        requires
            x == i_flag | q,
    ;
    assert(4 <= q < 8 ==> (q >> 2u8) & 1 == 1) by (bit_vector);
    assert(((x >> 2u8) & 1 == 1) == ((x / 4) % 2 == 1)) by (bit_vector);
}

} // verus!
