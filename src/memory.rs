//! The memory bus: address decoding to cartridge, VRAM/OAM, WRAM (and its
//! echo), I/O registers, HRAM and IE; OAM DMA.
use vstd::prelude::*;
use crate::cartridge::{load_error, Cartridge, CartridgeError};
use crate::cartridge::mbc::cart_address;
use crate::motherboard::Motherboard;
use crate::screen::Screen;
use crate::timer::Timer;

verus! {

/// I/O register space: 0xFF00..0xFF80.
pub open spec fn is_io(address: u16) -> bool {
    0xff00 <= address < 0xff80
}

/// Registers whose reads and writes first report the pending dots: timer
/// and PPU.
pub open spec fn forces_sync(address: u16) -> bool {
    (0xff04 <= address <= 0xff07) || (0xff40 <= address <= 0xff4b)
}

/// APU registers and wave RAM.
pub open spec fn is_apu(address: u16) -> bool {
    (0xff10 <= address <= 0xff26) || (0xff30 <= address <= 0xff3f)
}

pub struct Memory {
    pub cartridge: Cartridge,
    /// 0xFF80..=0xFFFE.
    pub h_ram: Vec<u8>,
    /// 0xC000..=0xDFFF.
    pub i_ram: Vec<u8>,
    pub sb1: u8,
    pub sb2: u8,
    pub motherboard: Motherboard,
}

impl Memory {
    pub open spec fn wf(&self) -> bool {
        &&& self.cartridge.wf()
        &&& self.h_ram@.len() == 0x80
        &&& self.i_ram@.len() == 0x2000
        &&& self.motherboard.wf()
    }

    pub open spec fn serial(&self) -> (u8, u8) {
        (self.sb1, self.sb2)
    }

    /// The byte at a non-I/O address, which a read returns without side
    /// effects.
    pub open spec fn peek(&self, address: u16) -> u8 {
        if address < 0x8000 || (0xa000 <= address < 0xc000) {
            self.cartridge.read_spec(address)
        } else if address < 0xa000 {
            self.motherboard.screen.read_spec(address)
        } else if address < 0xe000 {
            self.i_ram@[address - 0xc000]
        } else if address < 0xfe00 {
            self.i_ram@[address - 0xe000]
        } else if address < 0xfea0 {
            self.motherboard.screen.read_spec(address)
        } else if address < 0xff00 {
            0xff
        } else if address == 0xffff {
            self.motherboard.i_enable
        } else {
            self.h_ram@[address - 0xff80]
        }
    }

    /// What an I/O read returns in the current state (after any sync).
    pub open spec fn io_value(&self, address: u16) -> u8 {
        if address == 0xff00 {
            self.motherboard.joypad.value_spec()
        } else if address == 0xff01 {
            self.serial().0
        } else if address == 0xff02 {
            self.serial().1
        } else if 0xff04 <= address <= 0xff07 {
            self.motherboard.timer.read_spec(address)
        } else if address == 0xff0f {
            self.motherboard.i_flag
        } else if is_apu(address) {
            self.motherboard.sound.read_spec(address)
        } else if 0xff40 <= address <= 0xff4b {
            self.motherboard.screen.read_spec(address)
        } else {
            0xff
        }
    }

    /// Addresses where a written byte reads back: WRAM and its echo, HRAM,
    /// VRAM, OAM, IE, and cartridge RAM while the controller stores it.
    pub open spec fn holds_writes(&self, address: u16) -> bool {
        (0x8000 <= address < 0xa000) || (0xc000 <= address < 0xfea0) || (0xff80 <= address) || self.cartridge.ram_writable(
            address,
        )
    }

    pub fn new(rom: Vec<u8>) -> (r: Result<Self, CartridgeError>)
        ensures
            r matches Ok(m) ==> m.wf() && m.motherboard.i_flag == 0 && m.motherboard.i_enable == 0
                && m.motherboard.screen.ly == 0 && m.motherboard.cycles == 0 && m.motherboard.sync_cycles == 0
                && !m.motherboard.screen.lcdc.lcd_enable && !m.motherboard.i_master,
            r is Ok <==> load_error(rom@) is None,
            r matches Err(e) ==> load_error(rom@) == Some(e),
    {
        match Cartridge::new(rom) {
            Ok(cartridge) => Ok(Self {
                cartridge,
                motherboard: Motherboard::new(),
                h_ram: vec![0u8; 0x80],
                i_ram: vec![0u8; 0x2000],
                sb1: 0,
                sb2: 0,
            }),
            Err(e) => Err(e),
        }
    }

    /// Reads a byte. Timer and PPU registers first report the pending dots.
    pub fn get(&mut self, address: u16) -> (r: u8)
        requires
            old(self).wf(),
        ensures
            final(self).wf(),
            !is_io(address) ==> r == old(self).peek(address) && *final(self) == *old(self),
            is_io(address) ==> r == final(self).io_value(address),
            is_io(address) && forces_sync(address) ==> Motherboard::synced(old(self).motherboard, final(self).motherboard)
                && *final(self) == (Memory { motherboard: final(self).motherboard, ..*old(self) }),
            is_io(address) && !forces_sync(address) ==> *final(self) == *old(self),
    {
        if address < 0x8000 || (0xa000 <= address && address < 0xc000) {
            self.cartridge.read(address)
        } else if address < 0xa000 {
            self.motherboard.screen.get(address)
        } else if address < 0xe000 {
            self.i_ram[(address - 0xc000) as usize]
        } else if address < 0xfe00 {
            self.i_ram[(address - 0xe000) as usize]
        } else if address < 0xfea0 {
            self.motherboard.screen.get(address)
        } else if address < 0xff00 {
            0xff
        } else if address < 0xff80 {
            self.io_read(address)
        } else if address == 0xffff {
            self.motherboard.i_enable
        } else {
            self.h_ram[(address - 0xff80) as usize]
        }
    }

    /// Writes a byte.
    pub fn set(&mut self, address: u16, value: u8)
        requires
            old(self).wf(),
        ensures
            final(self).wf(),
            old(self).holds_writes(address) ==> final(self).peek(address) == value,
            0xc000 <= address < 0xfe00 ==> final(self).peek(if address >= 0xe000 {
                (address - 0x2000) as u16
            } else {
                address
            }) == value && final(self).peek(if address < 0xde00 {
                (address + 0x2000) as u16
            } else {
                address
            }) == value,
            0xc000 <= address < 0xfe00 ==> final(self).i_ram@ == old(self).i_ram@.update(
                if address >= 0xe000 { address - 0xe000 } else { address - 0xc000 },
                value,
            ) && *final(self) == (Memory { i_ram: final(self).i_ram, ..*old(self) }),
            0xfea0 <= address < 0xff00 ==> *final(self) == *old(self),
            final(self).motherboard.i_master == old(self).motherboard.i_master,
            is_io(address) ==> Memory::io_written(*old(self), *final(self), address, value),
            !is_io(address) ==> final(self).motherboard.i_flag == old(self).motherboard.i_flag,
            !is_io(address) && address != 0xffff ==> final(self).motherboard.i_enable == old(self).motherboard.i_enable,
            address == 0xffff ==> final(self).motherboard.i_enable == value,
    {
        if address < 0x8000 || (0xa000 <= address && address < 0xc000) {
            self.cartridge.write(address, value);
        } else if address < 0xa000 {
            self.motherboard.screen.set(address, value);
        } else if address < 0xe000 {
            self.i_ram.set((address - 0xc000) as usize, value);
        } else if address < 0xfe00 {
            self.i_ram.set((address - 0xe000) as usize, value);
        } else if address < 0xfea0 {
            self.motherboard.screen.set(address, value);
        } else if address < 0xff00 {
        } else if address < 0xff80 {
            self.io_write(address, value);
        } else if address == 0xffff {
            self.motherboard.i_enable = value;
        } else {
            self.h_ram.set((address - 0xff80) as usize, value);
        }
    }

    /// `after` is `before` after a CPU write of `value` to I/O register
    /// `address`.
    pub open spec fn io_written(before: Memory, after: Memory, address: u16, value: u8) -> bool {
        &&& after.wf()
        &&& after.motherboard.i_master == before.motherboard.i_master
        &&& after.i_ram@ == before.i_ram@ && after.h_ram@ == before.h_ram@ && after.cartridge == before.cartridge
        &&& address != 0xff0f ==> after.motherboard.i_enable == before.motherboard.i_enable
        &&& address == 0xff00 ==> after.motherboard.joypad.value_spec() == crate::joypad::joypad_register(
            value,
            before.motherboard.joypad.keys_spec(),
        )
        &&& address == 0xff0f ==> after.motherboard.i_flag == value
        &&& address == 0xff01 ==> after.serial().0 == value
        &&& address == 0xff02 ==> after.serial().1 == value
        &&& address == 0xff46 && value < 0xfe ==> forall|n: int|
            0 <= n < 0xa0 ==> #[trigger] after.motherboard.screen.oam@[n] == before.peek(
                (value as int * 0x100 + n) as u16,
            )
        &&& 0xff04 <= address <= 0xff07 ==> exists|m: Motherboard|
            Motherboard::synced(before.motherboard, m) && #[trigger] Timer::set_spec(
                m.timer,
                after.motherboard.timer,
                address,
                value,
            )
        &&& address == 0xff40 ==> after.motherboard.screen.lcdc.value == value
            && after.motherboard.screen.lcdc.lcd_enable == crate::alu::bit_set(value, 7)
        &&& address == 0xff40 && before.motherboard.screen.lcdc.lcd_enable && !crate::alu::bit_set(value, 7)
            ==> after.motherboard.screen.ly == 0 && after.motherboard.screen.stat.mode == 0
            && after.motherboard.screen.scan_counter == 0
    }

    pub fn io_read(&mut self, address: u16) -> (r: u8)
        requires
            old(self).wf(),
            is_io(address),
        ensures
            final(self).wf(),
            r == final(self).io_value(address),
            forces_sync(address) ==> Motherboard::synced(old(self).motherboard, final(self).motherboard)
                && *final(self) == (Memory { motherboard: final(self).motherboard, ..*old(self) }),
            !forces_sync(address) ==> *final(self) == *old(self),
    {
        if address == 0xff00 {
            self.motherboard.joypad.get_joypad()
        } else if address == 0xff01 {
            self.sb1
        } else if address == 0xff02 {
            self.sb2
        } else if 0xff04 <= address && address <= 0xff07 {
            self.motherboard.sync();
            self.motherboard.timer.get(address)
        } else if address == 0xff0f {
            self.motherboard.i_flag
        } else if (0xff10 <= address && address <= 0xff26) || (0xff30 <= address && address <= 0xff3f) {
            self.motherboard.sound.get(address)
        } else if 0xff40 <= address && address <= 0xff4b {
            self.motherboard.sync();
            self.motherboard.screen.get(address)
        } else {
            0xff
        }
    }

    pub fn io_write(&mut self, address: u16, value: u8)
        requires
            old(self).wf(),
            is_io(address),
        ensures
            final(self).wf(),
            Memory::io_written(*old(self), *final(self), address, value),
    {
        if address == 0xff00 {
            self.motherboard.joypad.set_joypad(value);
        } else if address == 0xff01 {
            self.sb1 = value;
        } else if address == 0xff02 {
            self.sb2 = value;
        } else if 0xff04 <= address && address <= 0xff07 {
            self.motherboard.sync();
            let ghost m = self.motherboard;
            self.motherboard.timer.set(address, value);
            assert(Timer::set_spec(m.timer, self.motherboard.timer, address, value));
        } else if address == 0xff0f {
            self.motherboard.i_flag = value;
        } else if (0xff10 <= address && address <= 0xff26) || (0xff30 <= address && address <= 0xff3f) {
            self.motherboard.sound.set(address, value);
        } else if 0xff40 <= address && address <= 0xff4b {
            self.motherboard.sync();
            if address == 0xff46 {
                self.dma(value);
            } else {
                let irq = self.motherboard.screen.set(address, value);
                if irq != 0 {
                    self.motherboard.set_interrupt(1);
                }
            }
        }
    }

    /// OAM DMA: copies the 160 bytes at `value` * 0x100 into OAM.
    pub fn dma(&mut self, value: u8)
        requires
            old(self).wf(),
        ensures
            final(self).wf(),
            final(self).motherboard.i_master == old(self).motherboard.i_master,
            final(self).motherboard.i_enable == old(self).motherboard.i_enable,
            final(self).i_ram@ == old(self).i_ram@ && final(self).h_ram@ == old(self).h_ram@,
            final(self).cartridge == old(self).cartridge,
            value < 0xfe ==> forall|n: int|
                0 <= n < 0xa0 ==> #[trigger] final(self).motherboard.screen.oam@[n] == old(self).peek(
                    (value as int * 0x100 + n) as u16,
                ),
            value < 0xfe ==> *final(self) == (Memory {
                motherboard: Motherboard {
                    screen: Screen { oam: final(self).motherboard.screen.oam, ..old(self).motherboard.screen },
                    ..old(self).motherboard
                },
                ..*old(self)
            }),
    {
        let base: u16 = value as u16 * 0x100;
        let mut n: u16 = 0;
        while n < 0xa0
            invariant
                n <= 0xa0,
                base == value as int * 0x100,
                self.wf(),
                self.motherboard.i_master == old(self).motherboard.i_master,
                self.motherboard.i_enable == old(self).motherboard.i_enable,
                self.i_ram@ == old(self).i_ram@ && self.h_ram@ == old(self).h_ram@,
                self.cartridge == old(self).cartridge,
                value < 0xfe ==> forall|k: int|
                    0 <= k < n ==> #[trigger] self.motherboard.screen.oam@[k] == old(self).peek(
                        (value as int * 0x100 + k) as u16,
                    ),
                value < 0xfe ==> *self == (Memory {
                    motherboard: Motherboard {
                        screen: Screen { oam: self.motherboard.screen.oam, ..old(self).motherboard.screen },
                        ..old(self).motherboard
                    },
                    ..*old(self)
                }),
            decreases 0xa0 - n,
        {
            let ghost pre = *self;
            let b = self.get(base + n);
            proof {
                if value < 0xfe {
                    assert(pre.peek((base + n) as u16) == old(self).peek((base + n) as u16));
                }
            }
            self.motherboard.screen.set(0xfe00 + n, b);
            n = n + 1;
        }
    }
}

/// The echo region mirrors WRAM: a read at 0xE000..=0xFDFF sees the byte
/// 0x2000 below.
pub proof fn lemma_echo_mirror(m: Memory, address: u16)
    requires
        m.wf(),
        0xe000 <= address <= 0xfdff,
    ensures
        m.peek(address) == m.peek((address - 0x2000) as u16),
{
}

} // verus!
