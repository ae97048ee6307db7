use rusty_boy::alu::{add8, add_sp, daa, offset16, sub8};
use rusty_boy::cartridge::cartridge_header::CartridgeHeader;
use rusty_boy::cpu::CPU;
use rusty_boy::registers::{Flags, Reg16};

/// A 32 KiB ROM with no controller whose code at 0x0100 is `program`.
fn machine(program: &[u8]) -> CPU {
    let mut rom = vec![0u8; 0x8000];
    rom[0x147] = 0x00;
    rom[0x14d] = CartridgeHeader::compute_check_sum(&rom);
    rom[0x150..0x150 + program.len()].copy_from_slice(program);
    // jump over the header
    rom[0x100] = 0xc3;
    rom[0x101] = 0x50;
    rom[0x102] = 0x01;
    let mut cpu = CPU::new(rom).unwrap();
    cpu.step();
    cpu
}

#[test]
fn boot_state_snapshot() {
    let mut rom = vec![0u8; 0x8000];
    rom[0x14d] = CartridgeHeader::compute_check_sum(&rom);
    let mut cpu = CPU::new(rom).unwrap();
    assert_eq!(cpu.registers.pc, 0x0100);
    assert_eq!(cpu.registers.sp, 0xfffe);
    assert_eq!(cpu.registers.get_u16_reg(Reg16::AF), 0x01b0);
    assert_eq!(cpu.registers.get_u16_reg(Reg16::BC), 0x0013);
    assert_eq!(cpu.registers.get_u16_reg(Reg16::DE), 0x00d8);
    assert_eq!(cpu.registers.get_u16_reg(Reg16::HL), 0x014d);
    assert_eq!(cpu.read_memory(0xff44), 0);
}

#[test]
fn daa_after_add_scenario() {
    // LD A,0x45 ; ADD A,0x38 ; DAA
    let mut cpu = machine(&[0x3e, 0x45, 0xc6, 0x38, 0x27]);
    assert_eq!(cpu.step(), 8);
    assert_eq!(cpu.step(), 8);
    assert_eq!(cpu.registers.a, 0x7d);
    let f = cpu.registers.get_flags();
    // 5 + 8 does not carry out of the low nibble.
    assert!(!f.h && !f.c && !f.n && !f.z);
    assert_eq!(cpu.step(), 4);
    assert_eq!(cpu.registers.a, 0x83);
    let f = cpu.registers.get_flags();
    assert!(!f.h && !f.c && !f.z);
}

#[test]
fn daa_decimal_results() {
    let none = Flags { z: false, n: false, h: false, c: false };
    let s = add8(0x19, 0x28, false);
    assert_eq!(daa(s.value, s.flags).value, 0x47);
    let s = add8(0x99, 0x01, false);
    let d = daa(s.value, s.flags);
    assert_eq!(d.value, 0x00);
    assert!(d.flags.c && d.flags.z);
    let s = sub8(0x10, 0x01, false);
    assert_eq!(daa(s.value, s.flags).value, 0x09);
    let s = sub8(0x00, 0x01, false);
    let d = daa(s.value, s.flags);
    assert_eq!(d.value, 0x99);
    assert!(d.flags.c && d.flags.n);
    assert_eq!(daa(0x0a, none).value, 0x10);
}

#[test]
fn jr_extreme_offsets() {
    assert_eq!(offset16(0x0000, 0x80), 0xff80);
    assert_eq!(offset16(0xffff, 0x7f), 0x007e);
    assert_eq!(offset16(0x1234, 0x80), 0x11b4);
    // JR -128 at 0x0150: target is 0x0152 - 128.
    let mut cpu = machine(&[0x18, 0x80]);
    assert_eq!(cpu.step(), 12);
    assert_eq!(cpu.registers.pc, 0x0152 - 128);
    let mut cpu = machine(&[0x18, 0x7f]);
    cpu.step();
    assert_eq!(cpu.registers.pc, 0x0152 + 127);
}

#[test]
fn sp_offset_flags() {
    let r = add_sp(0x00ff, 0x80);
    assert_eq!(r.value, 0x007f);
    assert!(!r.flags.h && r.flags.c && !r.flags.z && !r.flags.n);
    let r = add_sp(0x000f, 0x7f);
    assert_eq!(r.value, 0x008e);
    assert!(r.flags.h && !r.flags.c);
    // LD HL,SP+127 with SP = 0xFFFE
    let mut cpu = machine(&[0xf8, 0x7f]);
    cpu.step();
    assert_eq!(cpu.registers.get_u16_reg(Reg16::HL), 0x007d);
    let f = cpu.registers.get_flags();
    assert!(f.h && f.c);
}

#[test]
fn flags_low_nibble_stays_clear() {
    // LD BC,0xFFFF ; PUSH BC ; POP AF
    let mut cpu = machine(&[0x01, 0xff, 0xff, 0xc5, 0xf1]);
    cpu.step();
    assert_eq!(cpu.step(), 16);
    assert_eq!(cpu.step(), 12);
    assert_eq!(cpu.registers.a, 0xff);
    assert_eq!(cpu.registers.f, 0xf0);
    cpu.registers.set_u16_reg(Reg16::AF, 0x12ff);
    assert_eq!(cpu.registers.f & 0x0f, 0);
}

#[test]
fn halt_without_ime_wakes_without_jump() {
    // DI ; HALT ; NOP
    let mut cpu = machine(&[0xf3, 0x76, 0x00]);
    cpu.step();
    cpu.step();
    assert!(cpu.halt);
    let pc = cpu.registers.pc;
    assert_eq!(cpu.step(), 4);
    assert!(cpu.halt);
    cpu.write_memory(0xffff, 0x01);
    cpu.write_memory(0xff0f, 0x01);
    assert_eq!(cpu.service_interrupts(), 0);
    assert!(!cpu.halt);
    assert_eq!(cpu.registers.pc, pc);
    assert_eq!(cpu.read_memory(0xff0f) & 0x1f, 0x01);
}

#[test]
fn interrupt_dispatch_jumps_to_vector() {
    // EI ; NOP
    let mut cpu = machine(&[0xfb, 0x00, 0x00]);
    cpu.step();
    cpu.write_memory(0xffff, 0x1f);
    cpu.write_memory(0xff0f, 0x04 | 0x10);
    let pc = cpu.registers.pc;
    assert_eq!(cpu.service_interrupts(), 20);
    assert_eq!(cpu.registers.pc, 0x50);
    assert_eq!(cpu.registers.sp, 0xfffc);
    assert_eq!(cpu.read_memory(0xfffc) as u16 | (cpu.read_memory(0xfffd) as u16) << 8, pc);
    assert_eq!(cpu.read_memory(0xff0f) & 0x1f, 0x10);
    assert!(!cpu.memory.motherboard.i_master);
}

#[test]
fn echo_ram_mirrors_wram() {
    let mut cpu = machine(&[]);
    cpu.write_memory(0xe123, 0x5a);
    assert_eq!(cpu.read_memory(0xc123), 0x5a);
    cpu.write_memory(0xc200, 0x33);
    assert_eq!(cpu.read_memory(0xe200), 0x33);
    assert_eq!(cpu.read_memory(0xfdff), cpu.read_memory(0xddff));
}

#[test]
fn read_after_write_regions() {
    let mut cpu = machine(&[]);
    for (addr, v) in [(0xc000u16, 1u8), (0xdfff, 2), (0xff80, 3), (0xfffe, 4), (0x8000, 5), (0x9fff, 6), (0xfe00, 7), (0xfe9f, 8), (0xffff, 9)] {
        cpu.write_memory(addr, v);
        assert_eq!(cpu.read_memory(addr), v);
    }
    cpu.write_memory(0xfea0, 0x12);
    assert_eq!(cpu.read_memory(0xfea0), 0xff);
    assert_eq!(cpu.read_memory(0xfeff), 0xff);
}

#[test]
fn dma_copies_to_oam() {
    let mut cpu = machine(&[]);
    for i in 0..0xa0u16 {
        cpu.write_memory(0xc000 + i, i as u8);
    }
    cpu.write_memory(0xff46, 0xc0);
    for i in 0..0xa0usize {
        assert_eq!(cpu.memory.motherboard.screen.oam[i], i as u8);
    }
    assert_eq!(cpu.read_memory(0xfe10), 0x10);
}

#[test]
fn timer_registers_through_the_bus() {
    let mut cpu = machine(&[]);
    cpu.write_memory(0xff07, 0x05);
    cpu.write_memory(0xff06, 0x20);
    cpu.write_memory(0xff05, 0xfe);
    assert_eq!(cpu.read_memory(0xff05), 0xfe);
    assert_eq!(cpu.read_memory(0xff07), 0x05);
    cpu.write_memory(0xff04, 0x99);
    assert_eq!(cpu.read_memory(0xff04), 0);
}

#[test]
fn joypad_press_raises_interrupt() {
    let mut cpu = machine(&[]);
    cpu.write_memory(0xff00, 0x10);
    cpu.write_memory(0xff0f, 0x00);
    cpu.handle_input(4, false);
    assert_eq!(cpu.read_memory(0xff0f) & 0x10, 0x10);
    cpu.write_memory(0xff00, 0x10);
    assert_eq!(cpu.read_memory(0xff00) & 0x0f, 0x0e);
    cpu.handle_input(4, true);
    cpu.write_memory(0xff00, 0x10);
    assert_eq!(cpu.read_memory(0xff00) & 0x0f, 0x0f);
}

#[test]
fn cycles_are_machine_cycle_multiples() {
    let mut cpu = machine(&[0x00, 0x21, 0x00, 0xc0, 0x34, 0xcb, 0x46, 0xcd, 0x00, 0x02]);
    for expected in [4u8, 12, 12, 12, 24] {
        assert_eq!(cpu.step(), expected);
    }
    assert_eq!(cpu.registers.pc, 0x0200);
}
