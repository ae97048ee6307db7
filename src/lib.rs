//! A cycle-aware emulator core for the LR35902-based handheld console: CPU,
//! memory bus with bank controllers, PPU, timer, joypad and APU, each with
//! its contracts.

pub mod alu;
pub mod cartridge;
pub mod cpu;
pub mod joypad;
pub mod memory;
pub mod motherboard;
pub mod opcodes;
pub mod registers;
pub mod rusty_boy;
pub mod screen;
pub mod sound;
pub mod timer;
