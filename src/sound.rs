//! The audio processing unit: four channels (pulse with sweep, pulse, wave,
//! noise), the 512 Hz frame sequencer and the stereo mixer. Samples are
//! produced as integers in 420ths of full scale; turning them into the
//! host's floating-point stream is the host's concern.
use vstd::prelude::*;
use crate::alu::{bit_set, test_bit};

verus! {

/// Stereo samples (interleaved) per buffer handed to the host.
pub const BUFFER_SIZE: usize = 1024;

pub const CPU_CLOCK: u32 = 4194304;

pub const SAMPLE_RATE: u32 = 48000;

/// Dots between two samples.
pub const SAMPLE_PERIOD: u32 = 87;

/// A mixed sample of value `s` stands for `s / FULL_SCALE` of full output.
pub const FULL_SCALE: i16 = 420;

/// The duty patterns (12.5%, 25%, 50%, 75%), step `pos` of pattern `duty`.
pub open spec fn wave_duty_spec(duty: u8, pos: u8) -> u8 {
    if duty == 0 {
        if pos == 7 { 1 } else { 0 }
    } else if duty == 1 {
        if pos == 0 || pos == 7 { 1 } else { 0 }
    } else if duty == 2 {
        if pos == 0 || pos >= 5 { 1 } else { 0 }
    } else {
        if pos == 0 || pos == 7 { 0 } else { 1 }
    }
}

pub fn get_wave_duty(duty: u8, duty_pos: u8) -> (r: u8)
    requires
        duty < 4,
        duty_pos < 8,
    ensures
        r == wave_duty_spec(duty, duty_pos),
{
    if duty == 0 {
        if duty_pos == 7 { 1 } else { 0 }
    } else if duty == 1 {
        if duty_pos == 0 || duty_pos == 7 { 1 } else { 0 }
    } else if duty == 2 {
        if duty_pos == 0 || duty_pos >= 5 { 1 } else { 0 }
    } else {
        if duty_pos == 0 || duty_pos == 7 { 0 } else { 1 }
    }
}

/// The envelope timer and volume after one envelope clock (see `run_env`).
pub open spec fn env_step(timer: u8, vol: u8, nx2: u8) -> (u8, u8) {
    if nx2 % 8 == 0 {
        (timer, vol)
    } else if timer > 1 {
        ((timer - 1) as u8, vol)
    } else {
        (
            nx2 % 8,
            if bit_set(nx2, 3) {
                if vol < 15 { (vol + 1) as u8 } else { 15u8 }
            } else {
                if vol > 0 { (vol - 1) as u8 } else { 0u8 }
            },
        )
    }
}

/// One envelope clock for a channel whose NRx2 is `nx2`: with a non-zero
/// period the timer counts down and, on reaching zero, reloads and moves the
/// volume one step up or down within 0..=15.
pub fn run_env(timer: &mut u8, cur_vol: &mut u8, nx2: u8)
    requires
        *old(cur_vol) <= 15,
    ensures
        *final(cur_vol) <= 15,
        (*final(timer), *final(cur_vol)) == env_step(*old(timer), *old(cur_vol), nx2),
        nx2 % 8 == 0 ==> *final(timer) == *old(timer) && *final(cur_vol) == *old(cur_vol),
        nx2 % 8 != 0 && *old(timer) > 1 ==> *final(timer) == *old(timer) - 1 && *final(cur_vol) == *old(cur_vol),
        nx2 % 8 != 0 && *old(timer) <= 1 ==> *final(timer) == nx2 % 8 && *final(cur_vol) == (if bit_set(nx2, 3) {
            if *old(cur_vol) < 15 { *old(cur_vol) + 1 } else { 15int }
        } else {
            if *old(cur_vol) > 0 { *old(cur_vol) - 1 } else { 0int }
        }),
{
    let env_dir = test_bit(nx2, 3);
    let env_period = nx2 % 8;
    if env_period != 0 {
        if *timer > 0 {
            *timer = *timer - 1;
        }
        if *timer == 0 {
            *timer = env_period;
            if env_dir && *cur_vol < 15 {
                *cur_vol = *cur_vol + 1;
            } else if !env_dir && *cur_vol > 0 {
                *cur_vol = *cur_vol - 1;
            }
        }
    }
}

/// The 11-bit frequency held in NRx3 (low byte) and NRx4 bits 2..0.
pub open spec fn freq_of(nx3: u8, nx4: u8) -> int {
    (nx4 % 8) * 256 + nx3
}

fn freq_exec(nx3: u8, nx4: u8) -> (r: u16)
    ensures
        r == freq_of(nx3, nx4),
        r < 2048,
{
    (nx4 % 8) as u16 * 256 + nx3 as u16
}

/// One length clock: with length enabled (NRx4 bit 6) the counter counts
/// down, and reaching zero silences the channel.
pub open spec fn len_step(enabled_bit: bool, len: int, on: bool) -> (int, bool) {
    if enabled_bit && len > 0 {
        (len - 1, if len - 1 == 0 { false } else { on })
    } else {
        (len, on)
    }
}

/// A mixed channel output in fifteenths: 2 * input - 15 for an enabled
/// channel whose DAC input is `input` (0..=15), 0 for a silent one.
pub open spec fn amp_spec(enabled: bool, input: int) -> int {
    if enabled {
        2 * input - 15
    } else {
        0
    }
}

/// Pulse channel 1: length, envelope and frequency sweep.
pub struct CH1 {
    pub nr10: u8,
    pub nr11: u8,
    pub nr12: u8,
    pub nr13: u8,
    pub nr14: u8,
    pub enable: bool,
    pub len_timer: u8,
    pub freq_timer: u16,
    pub env_timer: u8,
    pub wave_duty_pos: u8,
    pub cur_vol: u8,
    pub sweep_enable: bool,
    pub sweep_timer: u8,
    pub shadow_freq: u16,
}

impl CH1 {
    pub open spec fn wf(&self) -> bool {
        &&& self.freq_timer <= 8192
        &&& self.wave_duty_pos < 8
        &&& self.cur_vol <= 15
        &&& self.len_timer <= 64
        &&& self.shadow_freq < 2048
    }

    pub open spec fn period(&self) -> int {
        (2048 - freq_of(self.nr13, self.nr14)) * 4
    }

    /// The sweep's next frequency: the shadow plus or minus (NR10 bit 3) the
    /// shadow shifted right by `shift`.
    pub open spec fn sweep_target(&self, shift: u8) -> int {
        let d = self.shadow_freq as int / pow2(shift as nat);
        if bit_set(self.nr10, 3) {
            self.shadow_freq - d
        } else {
            self.shadow_freq + d
        }
    }

    pub fn new() -> (r: Self)
        ensures
            r.wf(),
            !r.enable,
    {
        Self {
            nr10: 0,
            nr11: 0,
            nr12: 0,
            nr13: 0,
            nr14: 0,
            enable: false,
            len_timer: 0,
            freq_timer: 0,
            env_timer: 0,
            wave_duty_pos: 0,
            cur_vol: 0,
            sweep_enable: false,
            sweep_timer: 0,
            shadow_freq: 0,
        }
    }

    /// Runs the frequency timer for `cycles` dots; each expiry reloads it
    /// from the period and steps the duty position.
    pub fn tick(&mut self, cycles: u8)
        requires
            old(self).wf(),
        ensures
            final(self).wf(),
            final(self).freq_timer > 0,
            exists|k: nat|
                final(self).freq_timer == #[trigger] reload_after(old(self).freq_timer - cycles, k, old(self).period())
                    && final(self).wave_duty_pos == (old(self).wave_duty_pos + k) % 8,
            final(self).enable == old(self).enable && final(self).nr13 == old(self).nr13 && final(self).nr14
                == old(self).nr14,
    {
        let period = (2048 - freq_exec(self.nr13, self.nr14) as i32) * 4;
        let mut t: i32 = self.freq_timer as i32 - cycles as i32;
        let ghost mut k: nat = 0;
        while t <= 0
            invariant
                4 <= period <= 8192,
                period == old(self).period(),
                t == old(self).freq_timer - cycles + k * period,
                -256 < t <= 8192,
                self.wave_duty_pos == (old(self).wave_duty_pos + k) % 8,
                self.wave_duty_pos < 8,
                *self == (CH1 { wave_duty_pos: self.wave_duty_pos, ..*old(self) }),
            decreases 8192 - t,
        {
            t = t + period;
            self.wave_duty_pos = (self.wave_duty_pos + 1) % 8;
            proof {
                assert((k + 1) * period == k * period + period) by (nonlinear_arith);
                k = k + 1;
            }
        }
        self.freq_timer = t as u16;
        assert(self.freq_timer == reload_after(old(self).freq_timer - cycles, k, old(self).period()));
    }

    pub fn tick_len(&mut self)
        requires
            old(self).wf(),
        ensures
            final(self).wf(),
            (final(self).len_timer as int, final(self).enable) == len_step(
                bit_set(old(self).nr14, 6),
                old(self).len_timer as int,
                old(self).enable,
            ),
    {
        if test_bit(self.nr14, 6) && self.len_timer > 0 {
            self.len_timer = self.len_timer - 1;
            if self.len_timer == 0 {
                self.enable = false;
            }
        }
    }

    pub fn tick_env(&mut self)
        requires
            old(self).wf(),
        ensures
            final(self).wf(),
            (final(self).env_timer, final(self).cur_vol) == env_step(old(self).env_timer, old(self).cur_vol, old(self).nr12),
            *final(self) == (CH1 { env_timer: final(self).env_timer, cur_vol: final(self).cur_vol, ..*old(self) }),
    {
        run_env(&mut self.env_timer, &mut self.cur_vol, self.nr12);
    }

    /// The channel after one sweep clock: the sweep timer counts down; on
    /// reaching zero it reloads (period 0 counts as 8) and, with the sweep
    /// on and a non-zero period, the next frequency is computed (silencing
    /// the channel above 2047); below 2048 with a non-zero shift it is
    /// written to NR13/NR14 and the shadow, and checked once more.
    pub open spec fn sweep_result(self) -> CH1 {
        let period = (self.nr10 / 16) % 8;
        let shift = self.nr10 % 8;
        let t = if self.sweep_timer > 0 { (self.sweep_timer - 1) as u8 } else { 0u8 };
        if t != 0 {
            CH1 { sweep_timer: t, ..self }
        } else {
            let reloaded = CH1 { sweep_timer: if period > 0 { period } else { 8u8 }, ..self };
            if !(self.sweep_enable && period > 0) {
                reloaded
            } else {
                let nf = self.sweep_target(shift);
                let checked = CH1 { enable: self.enable && nf <= 2047, ..reloaded };
                if nf < 2048 && shift > 0 {
                    let moved = CH1 {
                        nr14: ((self.nr14 / 8) * 8 + nf / 256) as u8,
                        nr13: (nf % 256) as u8,
                        shadow_freq: nf as u16,
                        ..checked
                    };
                    CH1 { enable: moved.enable && moved.sweep_target(shift) <= 2047, ..moved }
                } else {
                    checked
                }
            }
        }
    }

    /// One sweep clock (frame sequencer steps 2 and 6).
    pub fn tick_sweep(&mut self)
        requires
            old(self).wf(),
        ensures
            final(self).wf(),
            *final(self) == old(self).sweep_result(),
            final(self).sweep_timer > 0,
            final(self).enable ==> old(self).enable,
    {
        let sweep_period = (self.nr10 / 16) % 8;
        let sweep_shift = self.nr10 % 8;
        if self.sweep_timer > 0 {
            self.sweep_timer = self.sweep_timer - 1;
        }
        if self.sweep_timer == 0 {
            self.sweep_timer = if sweep_period > 0 { sweep_period } else { 8 };
            if self.sweep_enable && sweep_period > 0 {
                let new_freq = self.calc_freq(sweep_shift);
                if new_freq < 2048 && sweep_shift > 0 {
                    self.nr14 = self.nr14 / 8 * 8 + (new_freq / 256) as u8;
                    self.nr13 = (new_freq % 256) as u8;
                    self.shadow_freq = new_freq;
                    self.calc_freq(sweep_shift);
                }
            }
        }
    }

    /// The sweep's next frequency for `sweep_shift`; a result above 2047
    /// silences the channel.
    pub fn calc_freq(&mut self, sweep_shift: u8) -> (r: u16)
        requires
            old(self).wf(),
            sweep_shift < 8,
        ensures
            final(self).wf(),
            r == old(self).sweep_target(sweep_shift),
            final(self).enable == (old(self).enable && r <= 2047),
            *final(self) == (CH1 { enable: final(self).enable, ..*old(self) }),
    {
        let d = self.shadow_freq >> sweep_shift;
        proof {
            lemma_shr_div(self.shadow_freq, sweep_shift);
        }
        let new_freq = if test_bit(self.nr10, 3) { self.shadow_freq - d } else { self.shadow_freq + d };
        if new_freq > 2047 {
            self.enable = false;
        }
        new_freq
    }

    /// The output in fifteenths of full scale.
    pub fn get_amp(&self) -> (r: i16)
        requires
            self.wf(),
        ensures
            r == amp_spec(self.enable, wave_duty_spec((self.nr11 / 64) % 4, self.wave_duty_pos) * self.cur_vol),
            -15 <= r <= 15,
    {
        if self.enable {
            let duty = get_wave_duty((self.nr11 / 64) % 4, self.wave_duty_pos);
            let input: u8 = if duty == 0 { 0 } else { self.cur_vol };
            assert(input == duty * self.cur_vol);
            2 * input as i16 - 15
        } else {
            0
        }
    }
}

/// Pulse channel 2: length and envelope.
pub struct CH2 {
    pub nr21: u8,
    pub nr22: u8,
    pub nr23: u8,
    pub nr24: u8,
    pub enable: bool,
    pub len_timer: u8,
    pub freq_timer: u16,
    pub env_timer: u8,
    pub wave_duty_pos: u8,
    pub cur_vol: u8,
}

impl CH2 {
    pub open spec fn wf(&self) -> bool {
        &&& self.freq_timer <= 8192
        &&& self.wave_duty_pos < 8
        &&& self.cur_vol <= 15
        &&& self.len_timer <= 64
    }

    pub open spec fn period(&self) -> int {
        (2048 - freq_of(self.nr23, self.nr24)) * 4
    }

    pub fn new() -> (r: Self)
        ensures
            r.wf(),
            !r.enable,
    {
        Self {
            nr21: 0,
            nr22: 0,
            nr23: 0,
            nr24: 0,
            enable: false,
            len_timer: 0,
            freq_timer: 0,
            env_timer: 0,
            wave_duty_pos: 0,
            cur_vol: 0,
        }
    }

    pub fn tick_len(&mut self)
        requires
            old(self).wf(),
        ensures
            final(self).wf(),
            (final(self).len_timer as int, final(self).enable) == len_step(
                bit_set(old(self).nr24, 6),
                old(self).len_timer as int,
                old(self).enable,
            ),
    {
        if test_bit(self.nr24, 6) && self.len_timer > 0 {
            self.len_timer = self.len_timer - 1;
            if self.len_timer == 0 {
                self.enable = false;
            }
        }
    }

    pub fn tick_env(&mut self)
        requires
            old(self).wf(),
        ensures
            final(self).wf(),
            (final(self).env_timer, final(self).cur_vol) == env_step(old(self).env_timer, old(self).cur_vol, old(self).nr22),
            *final(self) == (CH2 { env_timer: final(self).env_timer, cur_vol: final(self).cur_vol, ..*old(self) }),
    {
        run_env(&mut self.env_timer, &mut self.cur_vol, self.nr22);
    }

    pub fn tick(&mut self, cycles: u8)
        requires
            old(self).wf(),
        ensures
            final(self).wf(),
            final(self).freq_timer > 0,
            exists|k: nat|
                final(self).freq_timer == #[trigger] reload_after(old(self).freq_timer - cycles, k, old(self).period())
                    && final(self).wave_duty_pos == (old(self).wave_duty_pos + k) % 8,
            final(self).enable == old(self).enable,
    {
        let period = (2048 - freq_exec(self.nr23, self.nr24) as i32) * 4;
        let mut t: i32 = self.freq_timer as i32 - cycles as i32;
        let ghost mut k: nat = 0;
        while t <= 0
            invariant
                4 <= period <= 8192,
                period == old(self).period(),
                t == old(self).freq_timer - cycles + k * period,
                -256 < t <= 8192,
                self.wave_duty_pos == (old(self).wave_duty_pos + k) % 8,
                self.wave_duty_pos < 8,
                *self == (CH2 { wave_duty_pos: self.wave_duty_pos, ..*old(self) }),
            decreases 8192 - t,
        {
            t = t + period;
            self.wave_duty_pos = (self.wave_duty_pos + 1) % 8;
            proof {
                assert((k + 1) * period == k * period + period) by (nonlinear_arith);
                k = k + 1;
            }
        }
        self.freq_timer = t as u16;
        assert(self.freq_timer == reload_after(old(self).freq_timer - cycles, k, old(self).period()));
    }

    pub fn get_amp(&self) -> (r: i16)
        requires
            self.wf(),
        ensures
            r == amp_spec(self.enable, wave_duty_spec((self.nr21 / 64) % 4, self.wave_duty_pos) * self.cur_vol),
            -15 <= r <= 15,
    {
        if self.enable {
            let duty = get_wave_duty((self.nr21 / 64) % 4, self.wave_duty_pos);
            let input: u8 = if duty == 0 { 0 } else { self.cur_vol };
            assert(input == duty * self.cur_vol);
            2 * input as i16 - 15
        } else {
            0
        }
    }
}

/// The volume shift that NR32 bits 6..5 select: mute, full, half, quarter.
pub open spec fn ch3_shift(nr32: u8) -> u8 {
    let code = (nr32 / 32) % 4;
    if code == 0 {
        4
    } else if code == 1 {
        0
    } else if code == 2 {
        1
    } else {
        2
    }
}

/// The 4-bit wave sample at position `pos` (0..32): byte `pos / 2` of wave
/// RAM, low nibble at even positions.
pub open spec fn wave_sample(ram: Seq<u8>, pos: u8) -> int {
    let b = ram[pos as int / 2];
    if pos % 2 == 0 {
        b as int % 16
    } else {
        b as int / 16
    }
}

/// Wave channel 3: length and a 32-step sample table.
pub struct CH3 {
    pub wave_ram: Vec<u8>,
    pub nr30: u8,
    pub nr31: u8,
    pub nr32: u8,
    pub nr33: u8,
    pub nr34: u8,
    pub enable: bool,
    pub len_timer: u16,
    pub freq_timer: u16,
    pub wave_duty_pos: u8,
}

impl CH3 {
    pub open spec fn wf(&self) -> bool {
        &&& self.wave_ram@.len() == 16
        &&& self.freq_timer <= 4096
        &&& self.wave_duty_pos < 32
        &&& self.len_timer <= 256
    }

    pub open spec fn period(&self) -> int {
        (2048 - freq_of(self.nr33, self.nr34)) * 2
    }

    pub fn new() -> (r: Self)
        ensures
            r.wf(),
            !r.enable,
    {
        Self {
            wave_ram: vec![0xffu8; 16],
            nr30: 0,
            nr31: 0,
            nr32: 0,
            nr33: 0,
            nr34: 0,
            enable: false,
            len_timer: 0,
            freq_timer: 0,
            wave_duty_pos: 0,
        }
    }

    pub fn tick_len(&mut self)
        requires
            old(self).wf(),
        ensures
            final(self).wf(),
            (final(self).len_timer as int, final(self).enable) == len_step(
                bit_set(old(self).nr34, 6),
                old(self).len_timer as int,
                old(self).enable,
            ),
            final(self).wave_ram@ == old(self).wave_ram@,
    {
        if test_bit(self.nr34, 6) && self.len_timer > 0 {
            self.len_timer = self.len_timer - 1;
            if self.len_timer == 0 {
                self.enable = false;
            }
        }
    }

    pub fn tick(&mut self, cycles: u8)
        requires
            old(self).wf(),
        ensures
            final(self).wf(),
            final(self).freq_timer > 0,
            exists|k: nat|
                final(self).freq_timer == #[trigger] reload_after(old(self).freq_timer - cycles, k, old(self).period())
                    && final(self).wave_duty_pos == (old(self).wave_duty_pos + k) % 32,
            final(self).enable == old(self).enable,
            final(self).wave_ram@ == old(self).wave_ram@,
    {
        let period = (2048 - freq_exec(self.nr33, self.nr34) as i32) * 2;
        let mut t: i32 = self.freq_timer as i32 - cycles as i32;
        let ghost mut k: nat = 0;
        while t <= 0
            invariant
                2 <= period <= 4096,
                period == old(self).period(),
                t == old(self).freq_timer - cycles + k * period,
                -256 < t <= 4096,
                self.wave_duty_pos == (old(self).wave_duty_pos + k) % 32,
                self.wave_duty_pos < 32,
                self.enable == old(self).enable,
                self.wave_ram@ == old(self).wave_ram@,
                self.len_timer == old(self).len_timer,
            decreases 4096 - t,
        {
            t = t + period;
            self.wave_duty_pos = (self.wave_duty_pos + 1) % 32;
            proof {
                assert((k + 1) * period == k * period + period) by (nonlinear_arith);
                k = k + 1;
            }
        }
        self.freq_timer = t as u16;
        assert(self.freq_timer == reload_after(old(self).freq_timer - cycles, k, old(self).period()));
    }

    pub fn get_amp(&self) -> (r: i16)
        requires
            self.wf(),
        ensures
            r == amp_spec(self.enable, wave_sample(self.wave_ram@, self.wave_duty_pos) / pow2(ch3_shift(self.nr32) as nat)),
            -15 <= r <= 15,
    {
        if self.enable {
            let code = (self.nr32 / 32) % 4;
            let shift: u8 = if code == 0 {
                4
            } else if code == 1 {
                0
            } else if code == 2 {
                1
            } else {
                2
            };
            let b = self.wave_ram[(self.wave_duty_pos / 2) as usize];
            let sample: u8 = if self.wave_duty_pos % 2 == 0 { b % 16 } else { b / 16 };
            let v: u8 = if shift == 0 { sample } else if shift == 1 { sample / 2 } else if shift == 2 { sample / 4 } else { sample / 16 };
            proof {
                reveal_with_fuel(pow2, 5);
            }
            2 * v as i16 - 15
        } else {
            0
        }
    }
}

/// The noise channel's clock divisor for NR43 bits 2..0.
pub open spec fn ch4_divisor(nr43: u8) -> int {
    let c = nr43 % 8;
    if c == 0 {
        8
    } else {
        16 * c
    }
}

/// One LFSR shift: the XOR of bits 0 and 1 enters at bit 14 (and, in 7-bit
/// mode, also replaces bit 6).
pub open spec fn lfsr_next(l: u16, short: bool) -> u16 {
    let x: u16 = (l & 1) ^ ((l & 2) >> 1u16);
    let w: u16 = (l >> 1u16) | (x << 14u16);
    if short {
        (w & !64u16) | (x << 6u16)
    } else {
        w
    }
}

pub open spec fn lfsr_steps(l: u16, short: bool, k: nat) -> u16
    decreases k,
{
    if k == 0 {
        l
    } else {
        lfsr_next(lfsr_steps(l, short, (k - 1) as nat), short)
    }
}

/// Noise channel 4: length, envelope and a 15-bit LFSR.
pub struct CH4 {
    pub nr41: u8,
    pub nr42: u8,
    pub nr43: u8,
    pub nr44: u8,
    pub enable: bool,
    pub len_timer: u8,
    pub freq_timer: u32,
    pub cur_vol: u8,
    pub env_timer: u8,
    pub lfsr: u16,
}

impl CH4 {
    pub open spec fn wf(&self) -> bool {
        &&& self.freq_timer <= 112 * 32768
        &&& self.cur_vol <= 15
        &&& self.len_timer <= 64
    }

    pub open spec fn period(&self) -> int {
        ch4_divisor(self.nr43) * pow2((self.nr43 / 16) as nat)
    }

    pub fn new() -> (r: Self)
        ensures
            r.wf(),
            !r.enable,
    {
        Self { nr41: 0, nr42: 0, nr43: 0, nr44: 0, enable: false, len_timer: 0, freq_timer: 0, cur_vol: 0, env_timer: 0, lfsr: 0 }
    }

    pub fn tick_len(&mut self)
        requires
            old(self).wf(),
        ensures
            final(self).wf(),
            (final(self).len_timer as int, final(self).enable) == len_step(
                bit_set(old(self).nr44, 6),
                old(self).len_timer as int,
                old(self).enable,
            ),
    {
        if test_bit(self.nr44, 6) && self.len_timer > 0 {
            self.len_timer = self.len_timer - 1;
            if self.len_timer == 0 {
                self.enable = false;
            }
        }
    }

    /// The timer period in dots: the divisor shifted left by NR43 bits 7..4.
    pub fn period_exec(&self) -> (r: u32)
        ensures
            r == self.period(),
            8 <= r <= 112 * 32768,
    {
        let c = self.nr43 % 8;
        let divisor: u32 = if c == 0 { 8 } else { 16 * c as u32 };
        let shift = self.nr43 / 16;
        let mut p: u32 = divisor;
        let mut i: u8 = 0;
        while i < shift
            invariant
                i <= shift <= 15,
                p == divisor * pow2(i as nat),
                8 <= divisor <= 112,
                divisor <= p <= 112 * pow2(i as nat),
                pow2(i as nat) <= 32768,
            decreases shift - i,
        {
            proof {
                lemma_pow2_le(i as nat);
                assert(divisor * pow2((i + 1) as nat) == (divisor * pow2(i as nat)) * 2) by (nonlinear_arith)
                    requires
                        pow2((i + 1) as nat) == 2 * pow2(i as nat),
                ;
                assert(112 * pow2(i as nat) * 2 == 112 * pow2((i + 1) as nat));
            }
            p = p * 2;
            i = i + 1;
        }
        p
    }

    pub fn tick(&mut self, cycles: u8)
        requires
            old(self).wf(),
        ensures
            final(self).wf(),
            final(self).freq_timer > 0,
            exists|k: nat|
                final(self).freq_timer == #[trigger] reload_after(old(self).freq_timer - cycles, k, old(self).period())
                    && final(self).lfsr == lfsr_steps(old(self).lfsr, bit_set(old(self).nr43, 3), k),
            final(self).enable == old(self).enable,
    {
        let period = self.period_exec() as i64;
        let short = test_bit(self.nr43, 3);
        let mut t: i64 = self.freq_timer as i64 - cycles as i64;
        let ghost mut k: nat = 0;
        while t <= 0
            invariant
                8 <= period <= 112 * 32768,
                period == old(self).period(),
                t == old(self).freq_timer - cycles + k * period,
                -256 < t <= 112 * 32768,
                short == bit_set(old(self).nr43, 3),
                self.lfsr == lfsr_steps(old(self).lfsr, short, k),
                *self == (CH4 { lfsr: self.lfsr, ..*old(self) }),
            decreases 112 * 32768 - t,
        {
            t = t + period;
            let l = self.lfsr;
            let x: u16 = (l & 1) ^ ((l & 2) >> 1u16);
            let w: u16 = (l >> 1u16) | (x << 14u16);
            self.lfsr = if short { (w & !64u16) | (x << 6u16) } else { w };
            proof {
                assert((k + 1) * period == k * period + period) by (nonlinear_arith);
                k = k + 1;
            }
        }
        self.freq_timer = t as u32;
        assert(self.freq_timer == reload_after(old(self).freq_timer - cycles, k, old(self).period()));
    }

    pub fn tick_env(&mut self)
        requires
            old(self).wf(),
        ensures
            final(self).wf(),
            (final(self).env_timer, final(self).cur_vol) == env_step(old(self).env_timer, old(self).cur_vol, old(self).nr42),
            *final(self) == (CH4 { env_timer: final(self).env_timer, cur_vol: final(self).cur_vol, ..*old(self) }),
    {
        run_env(&mut self.env_timer, &mut self.cur_vol, self.nr42);
    }

    pub fn get_amp(&self) -> (r: i16)
        requires
            self.wf(),
        ensures
            r == amp_spec(self.enable, if self.lfsr % 2 == 0 { self.cur_vol as int } else { 0 }),
            -15 <= r <= 15,
    {
        if self.enable {
            let input: u8 = if self.lfsr % 2 == 0 { self.cur_vol } else { 0 };
            2 * input as i16 - 15
        } else {
            0
        }
    }
}

proof fn lemma_pow2_le(i: nat)
    requires
        i < 15,
    ensures
        pow2(i) <= 16384,
        pow2(i + 1) == 2 * pow2(i),
{
    reveal_with_fuel(pow2, 16);
    if i == 0 {
    } else if i == 1 {
    } else if i == 2 {
    } else if i == 3 {
    } else if i == 4 {
    } else if i == 5 {
    } else if i == 6 {
    } else if i == 7 {
    } else if i == 8 {
    } else if i == 9 {
    } else if i == 10 {
    } else if i == 11 {
    } else if i == 12 {
    } else if i == 13 {
    } else {
    }
}

/// Addresses that accept writes while the APU is powered off: NR52, wave
/// RAM and the length registers.
pub open spec fn writable_when_off(address: u16) -> bool {
    address == 0xff26 || (0xff30 <= address <= 0xff3f) || address == 0xff11 || address == 0xff16 || address
        == 0xff1b || address == 0xff20
}

pub struct Sound {
    pub apu_enabled: bool,
    pub nr50: u8,
    pub nr51: u8,
    pub ch1: CH1,
    pub ch2: CH2,
    pub ch3: CH3,
    pub ch4: CH4,
    /// Frame sequencer step, 0..=7.
    pub frame_seq: u8,
    /// Dots since the last frame sequencer step.
    pub frame_counter: u32,
    /// Interleaved left/right samples not yet handed out.
    pub buffer: Vec<i16>,
    /// Full buffers waiting for the host.
    pub ready: Vec<Vec<i16>>,
}

/// Whether channel `ch` (0..=3) goes to the left output (`left`) or the
/// right one, by NR51.
pub open spec fn routed(nr51: u8, ch: u8, left: bool) -> bool {
    bit_set(nr51, (if left { ch + 4 } else { ch as int }) as u8)
}

impl Sound {
    pub open spec fn wf(&self) -> bool {
        &&& self.ch1.wf() && self.ch2.wf() && self.ch3.wf() && self.ch4.wf()
        &&& self.frame_seq < 8
        &&& self.frame_counter < 8192
        &&& self.buffer@.len() < BUFFER_SIZE
        &&& self.buffer@.len() % 2 == 0
    }

    /// The register behind an APU address, as last stored.
    pub open spec fn raw_reg(&self, address: u16) -> u8 {
        if address == 0xff10 {
            self.ch1.nr10
        } else if address == 0xff11 {
            self.ch1.nr11
        } else if address == 0xff12 {
            self.ch1.nr12
        } else if address == 0xff13 {
            self.ch1.nr13
        } else if address == 0xff14 {
            self.ch1.nr14
        } else if address == 0xff16 {
            self.ch2.nr21
        } else if address == 0xff17 {
            self.ch2.nr22
        } else if address == 0xff18 {
            self.ch2.nr23
        } else if address == 0xff19 {
            self.ch2.nr24
        } else if address == 0xff1a {
            self.ch3.nr30
        } else if address == 0xff1b {
            self.ch3.nr31
        } else if address == 0xff1c {
            self.ch3.nr32
        } else if address == 0xff1d {
            self.ch3.nr33
        } else if address == 0xff1e {
            self.ch3.nr34
        } else if address == 0xff20 {
            self.ch4.nr41
        } else if address == 0xff21 {
            self.ch4.nr42
        } else if address == 0xff22 {
            self.ch4.nr43
        } else if address == 0xff23 {
            self.ch4.nr44
        } else if address == 0xff24 {
            self.nr50
        } else if address == 0xff25 {
            self.nr51
        } else {
            0
        }
    }

    /// The bits that read as 1 whatever a register holds.
    pub open spec fn read_mask(address: u16) -> u8 {
        if address == 0xff10 {
            0x80
        } else if address == 0xff11 || address == 0xff16 {
            0x3f
        } else if address == 0xff13 || address == 0xff18 || address == 0xff1b || address == 0xff1d || address
            == 0xff20 {
            0xff
        } else if address == 0xff14 || address == 0xff19 || address == 0xff1e || address == 0xff23 {
            0xbf
        } else if address == 0xff1a {
            0x7f
        } else if address == 0xff1c {
            0x9f
        } else {
            0
        }
    }

    /// What a read of APU address `address` returns.
    pub open spec fn read_spec(&self, address: u16) -> u8 {
        if address == 0xff26 {
            ((if self.apu_enabled { 0x80int } else { 0 }) + 0x70 + (if self.ch1.enable { 1int } else { 0 }) + (if self.ch2.enable {
                2int
            } else {
                0
            }) + (if self.ch3.enable { 4int } else { 0 }) + (if self.ch4.enable { 8int } else { 0 })) as u8
        } else if 0xff30 <= address <= 0xff3f {
            if self.ch3.enable {
                self.ch3.wave_ram@[self.ch3.wave_duty_pos as int / 2]
            } else {
                self.ch3.wave_ram@[address - 0xff30]
            }
        } else if (0xff10 <= address <= 0xff14) || (0xff16 <= address <= 0xff1e) || (0xff20 <= address <= 0xff25) {
            self.raw_reg(address) | Self::read_mask(address)
        } else {
            0xff
        }
    }

    /// The left (`left`) or right sample for the current channel outputs.
    pub open spec fn mix_spec(&self, left: bool) -> int {
        let a1 = if routed(self.nr51, 0, left) { amp_spec(self.ch1.enable, wave_duty_spec((self.ch1.nr11 / 64) % 4, self.ch1.wave_duty_pos) * self.ch1.cur_vol) } else { 0 };
        let a2 = if routed(self.nr51, 1, left) { amp_spec(self.ch2.enable, wave_duty_spec((self.ch2.nr21 / 64) % 4, self.ch2.wave_duty_pos) * self.ch2.cur_vol) } else { 0 };
        let a3 = if routed(self.nr51, 2, left) { amp_spec(self.ch3.enable, wave_sample(self.ch3.wave_ram@, self.ch3.wave_duty_pos) / pow2(ch3_shift(self.ch3.nr32) as nat)) } else { 0 };
        let a4 = if routed(self.nr51, 3, left) { amp_spec(self.ch4.enable, if self.ch4.lfsr % 2 == 0 { self.ch4.cur_vol as int } else { 0 }) } else { 0 };
        let vol = if left { (self.nr50 / 16) % 8 } else { self.nr50 % 8 };
        (a1 + a2 + a3 + a4) * vol
    }

    pub fn new() -> (r: Self)
        ensures
            r.wf(),
            !r.apu_enabled,
            r.buffer@.len() == 0,
            r.ready@.len() == 0,
    {
        Self {
            apu_enabled: false,
            nr50: 0,
            nr51: 0,
            ch1: CH1::new(),
            ch2: CH2::new(),
            ch3: CH3::new(),
            ch4: CH4::new(),
            frame_seq: 0,
            frame_counter: 0,
            buffer: Vec::new(),
            ready: Vec::new(),
        }
    }

    /// The current stereo sample, in 420ths of full scale.
    fn mix(&self, left: bool) -> (r: i16)
        requires
            self.wf(),
        ensures
            r == self.mix_spec(left),
    {
        let a1: i16 = if test_bit(self.nr51, if left { 4 } else { 0 }) { self.ch1.get_amp() } else { 0 };
        let a2: i16 = if test_bit(self.nr51, if left { 5 } else { 1 }) { self.ch2.get_amp() } else { 0 };
        let a3: i16 = if test_bit(self.nr51, if left { 6 } else { 2 }) { self.ch3.get_amp() } else { 0 };
        let a4: i16 = if test_bit(self.nr51, if left { 7 } else { 3 }) { self.ch4.get_amp() } else { 0 };
        let vol: i16 = if left { ((self.nr50 / 16) % 8) as i16 } else { (self.nr50 % 8) as i16 };
        proof {
            reveal_with_fuel(pow2, 5);
            assert(-60 <= a1 + a2 + a3 + a4 <= 60);
            assert(-420 <= (a1 + a2 + a3 + a4) * vol <= 420) by (nonlinear_arith)
                requires
                    -60 <= a1 + a2 + a3 + a4 <= 60,
                    0 <= vol <= 7,
            ;
        }
        (a1 + a2 + a3 + a4) * vol
    }

    /// `after` is `before` run for `cycles` dots.
    pub open spec fn ticked(before: Sound, after: Sound, cycles: u8) -> bool {
        &&& after.wf()
        &&& after.apu_enabled == before.apu_enabled
        &&& after.nr50 == before.nr50 && after.nr51 == before.nr51
        &&& exists|s: nat|
            #[trigger] (after.frame_counter + 8192 * s) == before.frame_counter + 2 * ((cycles + 1) / 2)
                && after.frame_seq == (before.frame_seq + s) % 8
        &&& before.ready@.len() <= after.ready@.len()
        &&& forall|i: int| 0 <= i < before.ready@.len() ==> #[trigger] after.ready@[i] == before.ready@[i]
        &&& forall|i: int|
            before.ready@.len() <= i < after.ready@.len() ==> (#[trigger] after.ready@[i])@.len() == BUFFER_SIZE
    }

    /// Runs the APU for `cycles` dots, two at a time: the frame sequencer
    /// steps every 8192 dots (lengths on even steps, sweep on 2 and 6,
    /// envelopes on 7), the channels run while powered, a stereo sample is
    /// taken every 87 dots, and each full buffer moves to `ready`.
    pub fn tick(&mut self, cycles: u8)
        requires
            old(self).wf(),
        ensures
            Sound::ticked(*old(self), *final(self), cycles),
            final(self).wf(),
            !old(self).apu_enabled ==> final(self).ch1 == old(self).ch1 && final(self).ch2 == old(self).ch2
                && final(self).ch3 == old(self).ch3 && final(self).ch4 == old(self).ch4,
            final(self).apu_enabled == old(self).apu_enabled,
            final(self).nr50 == old(self).nr50 && final(self).nr51 == old(self).nr51,
            exists|s: nat|
                #[trigger] (final(self).frame_counter + 8192 * s) == old(self).frame_counter + 2 * ((cycles + 1) / 2)
                    && final(self).frame_seq == (old(self).frame_seq + s) % 8,
            old(self).ready@.len() <= final(self).ready@.len(),
            forall|i: int| 0 <= i < old(self).ready@.len() ==> #[trigger] final(self).ready@[i] == old(self).ready@[i],
            forall|i: int|
                old(self).ready@.len() <= i < final(self).ready@.len() ==> (#[trigger] final(self).ready@[i])@.len()
                    == BUFFER_SIZE,
    {
        let ghost fc0 = self.frame_counter as int;
        let mut c: u16 = 0;
        let ghost mut s: nat = 0;
        while c < cycles as u16
            invariant
                self.wf(),
                c <= cycles as u16 + 1,
                c % 2 == 0,
                self.apu_enabled == old(self).apu_enabled,
                self.nr50 == old(self).nr50 && self.nr51 == old(self).nr51,
                !old(self).apu_enabled ==> self.ch1 == old(self).ch1 && self.ch2 == old(self).ch2 && self.ch3
                    == old(self).ch3 && self.ch4 == old(self).ch4,
                self.frame_counter + 8192 * s == fc0 + c,
                self.frame_seq == (old(self).frame_seq + s) % 8,
                old(self).ready@.len() <= self.ready@.len(),
                forall|i: int| 0 <= i < old(self).ready@.len() ==> #[trigger] self.ready@[i] == old(self).ready@[i],
                forall|i: int|
                    old(self).ready@.len() <= i < self.ready@.len() ==> (#[trigger] self.ready@[i])@.len() == BUFFER_SIZE,
            decreases cycles as u16 + 2 - c,
        {
            self.frame_counter = self.frame_counter + 2;
            let mut seq_tick = false;
            if self.frame_counter >= 8192 {
                self.frame_counter = self.frame_counter - 8192;
                self.frame_seq = (self.frame_seq + 1) % 8;
                seq_tick = true;
                proof {
                    s = s + 1;
                }
            }
            if self.apu_enabled {
                self.ch1.tick(2);
                self.ch2.tick(2);
                self.ch3.tick(2);
                self.ch4.tick(2);
                if seq_tick {
                    if self.frame_seq % 2 == 0 {
                        self.ch1.tick_len();
                        self.ch2.tick_len();
                        self.ch3.tick_len();
                        self.ch4.tick_len();
                    }
                    if self.frame_seq % 4 == 2 {
                        self.ch1.tick_sweep();
                    }
                    if self.frame_seq == 7 {
                        self.ch1.tick_env();
                        self.ch2.tick_env();
                        self.ch4.tick_env();
                    }
                }
            }
            if self.frame_counter % SAMPLE_PERIOD <= 1 {
                let left = self.mix(true);
                let right = self.mix(false);
                self.buffer.push(left);
                self.buffer.push(right);
            }
            if self.buffer.len() >= BUFFER_SIZE {
                let mut full: Vec<i16> = Vec::new();
                std::mem::swap(&mut full, &mut self.buffer);
                self.ready.push(full);
            }
            c = c + 2;
        }
        proof {
            assert(c == 2 * ((cycles + 1) / 2));
        }
    }

    pub fn get(&self, address: u16) -> (r: u8)
        requires
            self.wf(),
        ensures
            r == self.read_spec(address),
    {
        if address == 0xff26 {
            (if self.apu_enabled { 0x80 } else { 0 }) + 0x70 + (if self.ch1.enable { 1 } else { 0 }) + (if self.ch2.enable {
                2
            } else {
                0
            }) + (if self.ch3.enable { 4 } else { 0 }) + (if self.ch4.enable { 8 } else { 0 })
        } else if 0xff30 <= address && address <= 0xff3f {
            if self.ch3.enable {
                self.ch3.wave_ram[(self.ch3.wave_duty_pos / 2) as usize]
            } else {
                self.ch3.wave_ram[(address - 0xff30) as usize]
            }
        } else if (0xff10 <= address && address <= 0xff14) || (0xff16 <= address && address <= 0xff1e) || (0xff20
            <= address && address <= 0xff25) {
            let raw: u8 = if address == 0xff10 {
                self.ch1.nr10
            } else if address == 0xff11 {
                self.ch1.nr11
            } else if address == 0xff12 {
                self.ch1.nr12
            } else if address == 0xff13 {
                self.ch1.nr13
            } else if address == 0xff14 {
                self.ch1.nr14
            } else if address == 0xff16 {
                self.ch2.nr21
            } else if address == 0xff17 {
                self.ch2.nr22
            } else if address == 0xff18 {
                self.ch2.nr23
            } else if address == 0xff19 {
                self.ch2.nr24
            } else if address == 0xff1a {
                self.ch3.nr30
            } else if address == 0xff1b {
                self.ch3.nr31
            } else if address == 0xff1c {
                self.ch3.nr32
            } else if address == 0xff1d {
                self.ch3.nr33
            } else if address == 0xff1e {
                self.ch3.nr34
            } else if address == 0xff20 {
                self.ch4.nr41
            } else if address == 0xff21 {
                self.ch4.nr42
            } else if address == 0xff22 {
                self.ch4.nr43
            } else if address == 0xff23 {
                self.ch4.nr44
            } else if address == 0xff24 {
                self.nr50
            } else {
                self.nr51
            };
            let mask: u8 = if address == 0xff10 {
                0x80
            } else if address == 0xff11 || address == 0xff16 {
                0x3f
            } else if address == 0xff13 || address == 0xff18 || address == 0xff1b || address == 0xff1d || address
                == 0xff20 {
                0xff
            } else if address == 0xff14 || address == 0xff19 || address == 0xff1e || address == 0xff23 {
                0xbf
            } else if address == 0xff1a {
                0x7f
            } else if address == 0xff1c {
                0x9f
            } else {
                0
            };
            raw | mask
        } else {
            0xff
        }
    }

    /// A CPU write to an APU address. While powered off only NR52, wave RAM
    /// and the length registers (their low 6 bits, all of NR31) take writes.
    /// Powering off clears 0xFF10..=0xFF25 and silences every channel.
    pub fn set(&mut self, address: u16, value: u8)
        requires
            old(self).wf(),
        ensures
            !(0xff30 <= address <= 0xff3f) ==> final(self).ch3.wave_ram@ == old(self).ch3.wave_ram@,
            final(self).wf(),
            final(self).buffer@ == old(self).buffer@ && final(self).ready@ == old(self).ready@,
            !old(self).apu_enabled && !writable_when_off(address) ==> *final(self) == *old(self),
            0xff30 <= address <= 0xff3f ==> final(self).ch3.wave_ram@ == old(self).ch3.wave_ram@.update(
                address - 0xff30,
                value,
            ),
            address == 0xff26 ==> final(self).apu_enabled == bit_set(value, 7),
            address == 0xff26 && old(self).apu_enabled && !bit_set(value, 7) ==> !final(self).ch1.enable
                && !final(self).ch2.enable && !final(self).ch3.enable && !final(self).ch4.enable
                && final(self).read_spec(0xff26) == 0x70 && forall|b: u16|
                0xff10 <= b <= 0xff25 ==> #[trigger] final(self).raw_reg(b) == 0,
            address != 0xff26 ==> final(self).apu_enabled == old(self).apu_enabled,
            old(self).apu_enabled && (address == 0xff10 || address == 0xff13 || address == 0xff18 || address
                == 0xff1c || address == 0xff1d || address == 0xff22 || address == 0xff24 || address == 0xff25
                || address == 0xff12 || address == 0xff17 || address == 0xff21 || address == 0xff1a || address
                == 0xff11 || address == 0xff16 || address == 0xff1b || address == 0xff20) ==> final(self).raw_reg(
                address,
            ) == value,
            !old(self).apu_enabled && (address == 0xff11 || address == 0xff16 || address == 0xff20) ==> final(self).raw_reg(address) == value % 64,
            old(self).apu_enabled && address == 0xff12 && value / 8 == 0 ==> !final(self).ch1.enable,
            old(self).apu_enabled && address == 0xff17 && value / 8 == 0 ==> !final(self).ch2.enable,
            old(self).apu_enabled && address == 0xff1a && !bit_set(value, 7) ==> !final(self).ch3.enable,
            old(self).apu_enabled && address == 0xff21 && value / 8 == 0 ==> !final(self).ch4.enable,
            old(self).apu_enabled && address == 0xff19 && bit_set(value, 7) ==> final(self).ch2.enable == (
            old(self).ch2.enable || old(self).ch2.nr22 / 8 != 0),
            old(self).apu_enabled && address == 0xff1e && bit_set(value, 7) ==> final(self).ch3.enable == (
            old(self).ch3.enable || bit_set(old(self).ch3.nr30, 7)),
            old(self).apu_enabled && address == 0xff23 && bit_set(value, 7) ==> final(self).ch4.enable == (
            old(self).ch4.enable || old(self).ch4.nr42 / 8 != 0),
    {
        if !(self.apu_enabled || address == 0xff26 || (0xff30 <= address && address <= 0xff3f) || address == 0xff11
            || address == 0xff16 || address == 0xff1b || address == 0xff20) {
            return;
        }
        if address == 0xff26 {
            let enabled = test_bit(value, 7);
            if self.apu_enabled && !enabled {
                let mut a: u16 = 0xff10;
                while a <= 0xff25
                    invariant
                        self.wf(),
                        self.apu_enabled,
                        0xff10 <= a <= 0xff26,
                        self.buffer@ == old(self).buffer@ && self.ready@ == old(self).ready@,
                        forall|b: u16| 0xff10 <= b < a ==> #[trigger] self.raw_reg(b) == 0,
                        self.ch3.wave_ram@ == old(self).ch3.wave_ram@,
                    decreases 0xff26 - a,
                {
                    self.write_reg(a, 0);
                    a = a + 1;
                }
                let ghost after_loop = *self;
                self.ch1.enable = false;
                self.ch2.enable = false;
                self.ch3.enable = false;
                self.ch4.enable = false;
                self.apu_enabled = false;
                proof {
                    assert forall|b: u16| 0xff10 <= b <= 0xff25 implies #[trigger] self.raw_reg(b) == 0 by {
                        assert(after_loop.raw_reg(b) == 0);
                        assert(self.raw_reg(b) == after_loop.raw_reg(b));
                    }
                }
            } else if !self.apu_enabled && enabled {
                self.apu_enabled = true;
            }
        } else {
            let v = if !self.apu_enabled && (address == 0xff11 || address == 0xff16 || address == 0xff20) {
                value % 64
            } else {
                value
            };
            self.write_reg(address, v);
        }
    }

    /// Stores a register other than NR52, with its side effects (length
    /// reload, DAC off, trigger).
    fn write_reg(&mut self, address: u16, value: u8)
        requires
            old(self).wf(),
            address != 0xff26,
        ensures
            !(0xff30 <= address <= 0xff3f) ==> final(self).ch3.wave_ram@ == old(self).ch3.wave_ram@,
            final(self).wf(),
            final(self).buffer@ == old(self).buffer@ && final(self).ready@ == old(self).ready@,
            final(self).apu_enabled == old(self).apu_enabled,
            0xff30 <= address <= 0xff3f ==> final(self).ch3.wave_ram@ == old(self).ch3.wave_ram@.update(
                address - 0xff30,
                value,
            ),
            (address == 0xff10 || address == 0xff13 || address == 0xff18 || address == 0xff1c || address == 0xff1d
                || address == 0xff22 || address == 0xff24 || address == 0xff25 || address == 0xff12 || address
                == 0xff17 || address == 0xff21 || address == 0xff1a || address == 0xff11 || address == 0xff16
                || address == 0xff1b || address == 0xff20) ==> final(self).raw_reg(address) == value,
            address == 0xff12 && value / 8 == 0 ==> !final(self).ch1.enable,
            address == 0xff17 && value / 8 == 0 ==> !final(self).ch2.enable,
            address == 0xff1a && !bit_set(value, 7) ==> !final(self).ch3.enable,
            address == 0xff21 && value / 8 == 0 ==> !final(self).ch4.enable,
            address == 0xff19 && bit_set(value, 7) ==> final(self).ch2.enable == (old(self).ch2.enable
                || old(self).ch2.nr22 / 8 != 0),
            address == 0xff1e && bit_set(value, 7) ==> final(self).ch3.enable == (old(self).ch3.enable || bit_set(
                old(self).ch3.nr30,
                7,
            )),
            address == 0xff23 && bit_set(value, 7) ==> final(self).ch4.enable == (old(self).ch4.enable
                || old(self).ch4.nr42 / 8 != 0),
            !(0xff10 <= address <= 0xff3f) ==> *final(self) == *old(self),
            value == 0 ==> forall|b: u16| b != address ==> #[trigger] final(self).raw_reg(b) == old(self).raw_reg(b),
            value == 0 && 0xff10 <= address <= 0xff25 ==> final(self).raw_reg(address) == 0,
    {
        if address == 0xff10 {
            self.ch1.nr10 = value;
        } else if address == 0xff11 {
            self.ch1.nr11 = value;
            self.ch1.len_timer = 64 - value % 64;
        } else if address == 0xff12 {
            self.ch1.nr12 = value;
            if value / 8 == 0 {
                self.ch1.enable = false;
            }
        } else if address == 0xff13 {
            self.ch1.nr13 = value;
        } else if address == 0xff14 {
            self.ch1.nr14 = value;
            if test_bit(value, 7) {
                if self.ch1.nr12 / 8 != 0 {
                    self.ch1.enable = true;
                }
                if self.ch1.len_timer == 0 {
                    self.ch1.len_timer = 64;
                }
                let freq = freq_exec(self.ch1.nr13, self.ch1.nr14);
                self.ch1.freq_timer = (2048 - freq) * 4;
                self.ch1.wave_duty_pos = 0;
                self.ch1.env_timer = self.ch1.nr12 % 8;
                self.ch1.cur_vol = self.ch1.nr12 / 16;
                let sweep_period = (self.ch1.nr10 / 16) % 8;
                let sweep_shift = self.ch1.nr10 % 8;
                self.ch1.shadow_freq = freq;
                self.ch1.sweep_timer = if sweep_period > 0 { sweep_period } else { 8 };
                self.ch1.sweep_enable = sweep_period > 0 || sweep_shift > 0;
                if sweep_shift > 0 {
                    self.ch1.calc_freq(sweep_shift);
                }
            }
        } else if address == 0xff16 {
            self.ch2.nr21 = value;
            self.ch2.len_timer = 64 - value % 64;
        } else if address == 0xff17 {
            self.ch2.nr22 = value;
            if value / 8 == 0 {
                self.ch2.enable = false;
            }
        } else if address == 0xff18 {
            self.ch2.nr23 = value;
        } else if address == 0xff19 {
            self.ch2.nr24 = value;
            if test_bit(value, 7) {
                if self.ch2.nr22 / 8 != 0 {
                    self.ch2.enable = true;
                }
                if self.ch2.len_timer == 0 {
                    self.ch2.len_timer = 64;
                }
                let freq = freq_exec(self.ch2.nr23, self.ch2.nr24);
                self.ch2.freq_timer = (2048 - freq) * 4;
                self.ch2.wave_duty_pos = 0;
                self.ch2.env_timer = self.ch2.nr22 % 8;
                self.ch2.cur_vol = self.ch2.nr22 / 16;
            }
        } else if address == 0xff1a {
            self.ch3.nr30 = value;
            if !test_bit(value, 7) {
                self.ch3.enable = false;
            }
        } else if address == 0xff1b {
            self.ch3.nr31 = value;
            self.ch3.len_timer = 256 - value as u16;
        } else if address == 0xff1c {
            self.ch3.nr32 = value;
        } else if address == 0xff1d {
            self.ch3.nr33 = value;
        } else if address == 0xff1e {
            self.ch3.nr34 = value;
            if test_bit(value, 7) {
                if test_bit(self.ch3.nr30, 7) {
                    self.ch3.enable = true;
                }
                if self.ch3.len_timer == 0 {
                    self.ch3.len_timer = 256;
                }
                let freq = freq_exec(self.ch3.nr33, self.ch3.nr34);
                self.ch3.freq_timer = (2048 - freq) * 2;
                self.ch3.wave_duty_pos = 0;
            }
        } else if address == 0xff20 {
            self.ch4.nr41 = value;
            self.ch4.len_timer = 64 - value % 64;
        } else if address == 0xff21 {
            self.ch4.nr42 = value;
            if value / 8 == 0 {
                self.ch4.enable = false;
            }
        } else if address == 0xff22 {
            self.ch4.nr43 = value;
        } else if address == 0xff23 {
            self.ch4.nr44 = value;
            if test_bit(value, 7) {
                if self.ch4.nr42 / 8 != 0 {
                    self.ch4.enable = true;
                }
                self.ch4.freq_timer = self.ch4.period_exec();
                if self.ch4.len_timer == 0 {
                    self.ch4.len_timer = 64;
                }
                self.ch4.env_timer = self.ch4.nr42 % 8;
                self.ch4.cur_vol = self.ch4.nr42 / 16;
                self.ch4.lfsr = 0x7fff;
            }
        } else if address == 0xff24 {
            self.nr50 = value;
        } else if address == 0xff25 {
            self.nr51 = value;
        } else if 0xff30 <= address && address <= 0xff3f {
            self.ch3.wave_ram.set((address - 0xff30) as usize, value);
        }
    }

    /// Takes the full sample buffers produced so far.
    pub fn take_buffers(&mut self) -> (r: Vec<Vec<i16>>)
        ensures
            r@ == old(self).ready@,
            final(self).ready@.len() == 0,
            final(self).wf() == old(self).wf(),
            *final(self) == (Sound { ready: final(self).ready, ..*old(self) }),
    {
        let mut out: Vec<Vec<i16>> = Vec::new();
        std::mem::swap(&mut out, &mut self.ready);
        out
    }
}

/// A timer started at `start` and reloaded `k` times with `period`.
pub open spec fn reload_after(start: int, k: nat, period: int) -> int {
    start + k * period
}

pub open spec fn pow2(n: nat) -> int
    decreases n,
{
    if n == 0 {
        1
    } else {
        2 * pow2((n - 1) as nat)
    }
}

proof fn lemma_shr_div(x: u16, s: u8)
    requires
        s < 8,
    ensures
        (x >> s) as int == x as int / pow2(s as nat),
        pow2(s as nat) >= 1,
{
    reveal_with_fuel(pow2, 9);
    assert(x >> 0u8 == x / 1) by (bit_vector);
    assert(x >> 1u8 == x / 2) by (bit_vector);
    assert(x >> 2u8 == x / 4) by (bit_vector);
    assert(x >> 3u8 == x / 8) by (bit_vector);
    assert(x >> 4u8 == x / 16) by (bit_vector);
    assert(x >> 5u8 == x / 32) by (bit_vector);
    assert(x >> 6u8 == x / 64) by (bit_vector);
    assert(x >> 7u8 == x / 128) by (bit_vector);
}

} // verus!
