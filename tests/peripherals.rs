use rusty_boy::cartridge::rtc::RTC;
use rusty_boy::joypad::Joypad;
use rusty_boy::motherboard::Motherboard;
use rusty_boy::rusty_boy::RustyBoy;
use rusty_boy::screen::s_registers::{Palette, LCDC, STAT};
use rusty_boy::screen::Screen;
use rusty_boy::sound::Sound;
use rusty_boy::timer::Timer;

#[test]
fn tima_overflow() {
    let mut t = Timer::new();
    t.set(0xff07, 0x05);
    t.set(0xff06, 0x20);
    t.set(0xff05, 0xfe);
    assert!(!t.tick(16));
    assert_eq!(t.get(0xff05), 0xff);
    assert!(t.tick(16));
    assert_eq!(t.get(0xff05), 0x20);
}

#[test]
fn tima_overflow_sets_if_bit_2() {
    let mut mb = Motherboard::new();
    mb.timer.set(0xff07, 0x05);
    mb.timer.set(0xff06, 0x20);
    mb.timer.set(0xff05, 0xfe);
    mb.cycles = 16;
    mb.sync();
    assert_eq!(mb.i_flag & 0x04, 0);
    mb.cycles = 16;
    mb.sync();
    assert_eq!(mb.timer.get(0xff05), 0x20);
    assert_eq!(mb.i_flag & 0x04, 0x04);
    assert_eq!(mb.cycles, 0);
}

#[test]
fn timer_divider_and_frequencies() {
    let mut t = Timer::new();
    assert_eq!(t.get(0xff04), 0xad);
    t.set(0xff04, 0);
    t.tick(255);
    t.tick(1);
    assert_eq!(t.get(0xff04), 1);
    t.set(0xff07, 0x04);
    for _ in 0..4 {
        t.tick(255);
    }
    assert_eq!(t.get(0xff05), 0);
    t.tick(4);
    assert_eq!(t.get(0xff05), 1);
    t.set(0xff07, 0x06);
    t.tick(64);
    assert_eq!(t.get(0xff05), 2);
    // A disabled timer does not count.
    t.set(0xff07, 0x02);
    t.tick(200);
    assert_eq!(t.get(0xff05), 2);
}

fn fresh_lcd() -> Screen {
    let mut s = Screen::new();
    s.set(0xff40, 0x80);
    s.set(0xff40, 0x00);
    assert_eq!(s.ly, 0);
    assert_eq!(s.stat.mode, 0);
    s.set(0xff40, 0x80);
    s
}

#[test]
fn vblank_frame_timing() {
    let mut s = fresh_lcd();
    let mut vblanks = 0;
    let mut done_edges = 0;
    let mut was_done = s.frame_done;
    for _ in 0..(70224 / 4) {
        let irq = s.update(4);
        if irq & 1 != 0 {
            vblanks += 1;
        }
        if s.frame_done && !was_done {
            done_edges += 1;
        }
        was_done = s.frame_done;
    }
    assert_eq!(vblanks, 1);
    assert_eq!(done_edges, 1);
    assert!(s.frame_done);
}

#[test]
fn frame_is_70224_dots() {
    let mut s = fresh_lcd();
    let mut t: u64 = 0;
    let mut first = None;
    let mut second = None;
    while second.is_none() {
        let irq = s.update(4);
        t += 4;
        if irq & 1 != 0 {
            if first.is_none() {
                first = Some(t);
            } else {
                second = Some(t);
            }
        }
    }
    assert_eq!(second.unwrap() - first.unwrap(), 70224);
    assert_eq!(s.ly, 144);
    assert_eq!(s.stat.mode, 1);
}

#[test]
fn visible_line_is_456_dots() {
    let mut s = fresh_lcd();
    let mut t: u64 = 0;
    let mut starts = Vec::new();
    let mut prev = s.stat.mode;
    while starts.len() < 4 {
        s.update(4);
        t += 4;
        if s.stat.mode == 2 && prev != 2 {
            starts.push(t);
        }
        prev = s.stat.mode;
    }
    // the first line after switching on starts with the dots of the switch-on tick already spent
    assert_eq!(starts[2] - starts[1], 456);
    assert_eq!(starts[3] - starts[2], 456);
    assert!(s.ly < 144);
}

#[test]
fn palette_set_get_and_change_flag() {
    let mut p = Palette::new(0xfc);
    assert_eq!(p.get(), 0xfc);
    assert!(p.set(0xe4));
    assert_eq!(p.get(), 0xe4);
    assert!(!p.set(0xe4));
    assert_eq!(p.get_color(0), 0xff);
    assert_eq!(p.get_color(1), 0xaa);
    assert_eq!(p.get_color(2), 0x55);
    assert_eq!(p.get_color(3), 0x00);
    let mut s = Screen::new();
    s.set(0xff47, 0x1b);
    assert_eq!(s.get(0xff47), 0x1b);
}

#[test]
fn lcdc_and_stat_registers() {
    let mut l = LCDC::new();
    l.set(0x91);
    assert!(l.lcd_enable && l.tiledata_select && l.background_enable);
    assert!(!l.window_enable && !l.sprite_enable);
    assert_eq!(l.backgroundmap_offset, 0x1800);
    l.set(0x48);
    assert_eq!(l.backgroundmap_offset, 0x1c00);
    assert_eq!(l.windowmap_offset, 0x1c00);
    let mut st = STAT::new();
    st.set(0xff);
    assert_eq!(st.value, 0xf8);
    assert!(st.set_mode(2));
    assert_eq!(st.value & 3, 2);
    assert!(!st.set_mode(2));
    assert!(st.update_lyc(5, 5));
    assert_eq!(st.value & 4, 4);
    assert!(!st.update_lyc(5, 6));
    assert_eq!(st.value & 4, 0);
}

#[test]
fn background_line_is_drawn_from_tiles() {
    let mut s = Screen::new();
    // tile 1: first row low byte 0xff -> color index 1 across the row
    s.set(0x8010, 0xff);
    s.set(0x8011, 0x00);
    // map entry (0,0) -> tile 1
    s.set(0x9800, 0x01);
    s.set(0xff47, 0xe4);
    s.set(0xff40, 0x91);
    for _ in 0..(456 * 2 / 4) {
        s.update(4);
    }
    // line 1 was drawn from row 1 of tile 1 (zero), line 0 waits for the next frame
    for _ in 0..(70224 / 4) {
        s.update(4);
    }
    assert_eq!(s.screen_buffer_color[0], 1);
    assert_eq!(s.screen_buffer[0], 0xaa);
    assert_eq!(s.screen_buffer[3], 0xff);
    assert_eq!(s.screen_buffer_color[8], 0);
    assert_eq!(s.screen_buffer_color[160], 0);
}

#[test]
fn joypad_matrix() {
    let mut j = Joypad::new();
    assert_eq!(j.get_joypad(), 0xcf);
    j.set_joypad(0x20);
    assert!(j.handle_input(0, false));
    j.set_joypad(0x20);
    assert_eq!(j.get_joypad() & 0x0f, 0x0e);
    assert!(!j.handle_input(4, false));
    j.set_joypad(0x10);
    assert_eq!(j.get_joypad() & 0x0f, 0x0e);
    assert!(!j.handle_input(0, true));
    j.set_joypad(0x30);
    assert_eq!(j.get_joypad(), 0xff);
}

#[test]
fn rtc_latch_and_registers() {
    let mut r = RTC::new();
    r.latch_at(90061);
    assert_eq!(r.read(0x08), 1);
    assert_eq!(r.read(0x09), 1);
    assert_eq!(r.read(0x0a), 1);
    assert_eq!(r.read(0x0b), 1);
    assert_eq!(r.read(0x0c), 0);
    r.latch_at(86400 * 300);
    assert_eq!(r.read(0x0b), 44);
    assert_eq!(r.read(0x0c), 1);
    r.write(0x09, 30);
    assert_eq!(r.read(0x09), 30);
    assert_eq!(r.read(0x0d), 0xff);
    r.write_latch_clock(0);
    r.write_latch_clock(1);
    assert!(r.read(0x08) < 60);
    assert_eq!(r.read(0x0b), 0);
}

#[test]
fn sound_power_and_trigger() {
    let mut s = Sound::new();
    assert_eq!(s.get(0xff26), 0x70);
    s.set(0xff12, 0xf0);
    assert_eq!(s.get(0xff12), 0x00);
    s.set(0xff26, 0x80);
    assert_eq!(s.get(0xff26), 0xf0);
    s.set(0xff12, 0xf0);
    s.set(0xff14, 0x80);
    assert_eq!(s.get(0xff26), 0xf1);
    s.set(0xff12, 0x00);
    assert_eq!(s.get(0xff26), 0xf0);
    s.set(0xff30, 0x12);
    assert_eq!(s.get(0xff30), 0x12);
    s.set(0xff24, 0x77);
    s.set(0xff26, 0x00);
    assert_eq!(s.get(0xff26), 0x70);
    assert_eq!(s.get(0xff24), 0x00);
}

#[test]
fn sound_fills_buffers() {
    let mut s = Sound::new();
    s.set(0xff26, 0x80);
    s.set(0xff24, 0x77);
    s.set(0xff25, 0xff);
    s.set(0xff12, 0xf0);
    s.set(0xff11, 0x80);
    s.set(0xff14, 0x87);
    for _ in 0..2000 {
        s.tick(255);
    }
    let bufs = s.take_buffers();
    assert!(!bufs.is_empty());
    for b in &bufs {
        assert_eq!(b.len(), 1024);
        for v in b {
            assert!(*v >= -420 && *v <= 420);
        }
    }
    assert!(bufs.iter().flatten().any(|v| *v == 105));
    assert!(s.take_buffers().is_empty());
}

#[test]
fn driver_without_cartridge_is_white() {
    let mut rb = RustyBoy::new();
    let fb = rb.update_and_render();
    assert_eq!(fb.len(), 160 * 144 * 4);
    assert!(fb.iter().all(|b| *b == 0xff));
    assert!(rb.load_rom(vec![0; 10]).is_err());
    assert!(rb.cpu.is_none());
}

#[test]
fn driver_runs_a_frame() {
    let mut rom = vec![0u8; 0x8000];
    // 0x0100: LD A,0x91 ; LDH (0x40),A ; JR -2
    rom[0x100..0x106].copy_from_slice(&[0x3e, 0x91, 0xe0, 0x40, 0x18, 0xfe]);
    rom[0x14d] = rusty_boy::cartridge::cartridge_header::CartridgeHeader::compute_check_sum(&rom);
    let mut rb = RustyBoy::new();
    assert!(rb.load_rom(rom).is_ok());
    rb.handle_events(7, false);
    let fb = rb.update_and_render();
    assert_eq!(fb.len(), 160 * 144 * 4);
    let cpu = rb.cpu.as_ref().unwrap();
    assert!(cpu.memory.motherboard.screen.frame_done);
    assert_eq!(cpu.memory.motherboard.screen.ly, 144);
}

#[test]
fn sprites_overlap_smallest_x_on_top() {
    let mut s = Screen::new();
    for row in 0..8u16 {
        // tile 1: color index 1 everywhere; tile 2: color index 2 everywhere
        s.set(0x8010 + 2 * row, 0xff);
        s.set(0x8011 + 2 * row, 0x00);
        s.set(0x8020 + 2 * row, 0x00);
        s.set(0x8021 + 2 * row, 0xff);
    }
    // OAM entry 0: screen x 4, tile 1; entry 1: screen x 0, tile 2
    for (i, v) in [16u8, 12, 1, 0, 16, 8, 2, 0].iter().enumerate() {
        s.set(0xfe00 + i as u16, *v);
    }
    s.set(0xff48, 0xe4);
    s.set(0xff40, 0x82);
    let mut guard = 0;
    while !(s.ly == 1 && s.stat.mode == 0) {
        s.update(4);
        guard += 1;
        assert!(guard < 1000);
    }
    let px = |x: usize| s.screen_buffer[(160 + x) * 4];
    assert_eq!(px(0), 0x55);
    assert_eq!(px(5), 0x55);
    assert_eq!(px(8), 0xaa);
    assert_eq!(px(11), 0xaa);
    assert_eq!(px(12), 0xff);
}
