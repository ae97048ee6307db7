use rusty_boy::sound::{get_wave_duty, run_env, CH1, CH2, CH3, CH4};

#[test]
fn sweep_raises_frequency() {
    let mut c = CH1::new();
    c.nr10 = 0x11; // period 1, increase, shift 1
    c.nr13 = 0x00;
    c.nr14 = 0x01; // frequency 0x100
    c.shadow_freq = 0x100;
    c.sweep_enable = true;
    c.sweep_timer = 1;
    c.enable = true;
    c.tick_sweep();
    assert_eq!(c.shadow_freq, 0x180);
    assert_eq!(c.nr13, 0x80);
    assert_eq!(c.nr14 & 7, 0x01);
    assert_eq!(c.sweep_timer, 1);
    assert!(c.enable);
}

#[test]
fn sweep_overflow_silences() {
    let mut c = CH1::new();
    c.nr10 = 0x11;
    c.shadow_freq = 0x7ff;
    c.nr13 = 0xff;
    c.nr14 = 0x07;
    c.sweep_enable = true;
    c.sweep_timer = 1;
    c.enable = true;
    assert_eq!(c.calc_freq(1), 0x7ff + 0x3ff);
    assert!(!c.enable);
}

#[test]
fn length_counter_disables() {
    let mut c = CH2::new();
    c.enable = true;
    c.nr24 = 0x40;
    c.len_timer = 2;
    c.tick_len();
    assert!(c.enable);
    c.tick_len();
    assert!(!c.enable);
    assert_eq!(c.len_timer, 0);
}

#[test]
fn envelope_steps_volume() {
    let mut timer = 1u8;
    let mut vol = 14u8;
    run_env(&mut timer, &mut vol, 0x09);
    assert_eq!((timer, vol), (1, 15));
    run_env(&mut timer, &mut vol, 0x09);
    assert_eq!((timer, vol), (1, 15));
    run_env(&mut timer, &mut vol, 0x02);
    assert_eq!((timer, vol), (2, 14));
    run_env(&mut timer, &mut vol, 0x02);
    assert_eq!((timer, vol), (1, 14));
}

#[test]
fn duty_patterns() {
    assert_eq!((0..8).map(|p| get_wave_duty(0, p)).collect::<Vec<_>>(), vec![0, 0, 0, 0, 0, 0, 0, 1]);
    assert_eq!((0..8).map(|p| get_wave_duty(2, p)).collect::<Vec<_>>(), vec![1, 0, 0, 0, 0, 1, 1, 1]);
    assert_eq!((0..8).map(|p| get_wave_duty(3, p)).collect::<Vec<_>>(), vec![0, 1, 1, 1, 1, 1, 1, 0]);
}

#[test]
fn pulse_timer_advances_duty() {
    let mut c = CH1::new();
    c.nr13 = 0xfe;
    c.nr14 = 0x07; // frequency 2046: period 8 dots
    c.freq_timer = 8;
    c.tick(16);
    assert_eq!(c.wave_duty_pos, 2);
    assert_eq!(c.freq_timer, 8);
    c.enable = true;
    c.cur_vol = 10;
    c.nr11 = 0x80;
    c.wave_duty_pos = 0;
    assert_eq!(c.get_amp(), 5);
    c.wave_duty_pos = 1;
    assert_eq!(c.get_amp(), -15);
}

#[test]
fn noise_lfsr_shifts() {
    let mut c = CH4::new();
    c.lfsr = 0x7fff;
    c.nr43 = 0x00; // divisor 8, shift 0
    c.freq_timer = 8;
    c.tick(8);
    assert_eq!(c.lfsr, 0x3fff);
    c.nr43 = 0x08; // 7-bit mode
    c.lfsr = 0x0001;
    c.freq_timer = 8;
    c.tick(8);
    assert_eq!(c.lfsr, 0x4040);
    assert_eq!(c.period_exec(), 8);
    c.nr43 = 0x23;
    assert_eq!(c.period_exec(), 48 << 2);
}

#[test]
fn wave_channel_output() {
    let mut c = CH3::new();
    c.enable = true;
    c.wave_ram[0] = 0x3c;
    c.nr32 = 0x20; // full volume
    c.wave_duty_pos = 0;
    assert_eq!(c.get_amp(), 2 * 0xc - 15);
    c.wave_duty_pos = 1;
    assert_eq!(c.get_amp(), 2 * 0x3 - 15);
    c.nr32 = 0x40; // half
    assert_eq!(c.get_amp(), 2 * 1 - 15);
    c.nr32 = 0x00; // mute
    assert_eq!(c.get_amp(), -15);
}
