//! The memory bank controllers: how cartridge-space reads and writes reach
//! ROM, RAM and the clock.
use vstd::prelude::*;
use crate::cartridge::rtc::RTC;

verus! {

/// A ROM byte; reads beyond the end of the image see 0xFF.
pub open spec fn rom_byte(rom: Seq<u8>, i: int) -> u8 {
    if 0 <= i < rom.len() {
        rom[i]
    } else {
        0xff
    }
}

/// A cartridge-space address: ROM (0x0000..0x8000) or RAM (0xA000..0xC000).
pub open spec fn cart_address(address: u16) -> bool {
    address < 0x8000 || (0xa000 <= address < 0xc000)
}

fn read_rom(rom: &Vec<u8>, i: usize) -> (r: u8)
    ensures
        r == rom_byte(rom@, i as int),
{
    if i < rom.len() {
        rom[i]
    } else {
        0xff
    }
}

/// The RAM byte that RAM address `offset` within a bank and `bank` select.
pub open spec fn ram_index(ram: Seq<u8>, bank: int, offset: int) -> int {
    (bank * 0x2000 + offset) % (ram.len() as int)
}

pub enum MBCType {
    MBC0(MBC0),
    MBC1(MBC1),
    MBC3(MBC3),
}

/// No controller: ROM mapped directly, RAM (if any) at 0xA000.
pub struct MBC0 {}

impl MBC0 {
    pub open spec fn read_spec(&self, address: u16, rom: Seq<u8>, ram: Seq<u8>) -> u8 {
        if address < 0x8000 {
            rom_byte(rom, address as int)
        } else if ram.len() == 0 {
            0xff
        } else {
            ram[(address - 0xa000) % (ram.len() as int)]
        }
    }

    pub fn read(&self, address: u16, rom: &Vec<u8>, ram: &Vec<u8>) -> (r: u8)
        requires
            cart_address(address),
        ensures
            r == self.read_spec(address, rom@, ram@),
    {
        if address < 0x8000 {
            read_rom(rom, address as usize)
        } else if ram.len() == 0 {
            0xff
        } else {
            ram[(address as usize - 0xa000) % ram.len()]
        }
    }

    /// ROM writes are ignored; RAM writes store.
    pub fn write(&self, address: u16, value: u8, ram: &mut Vec<u8>)
        requires
            cart_address(address),
        ensures
            address < 0x8000 || old(ram)@.len() == 0 ==> final(ram)@ == old(ram)@,
            address >= 0xa000 && old(ram)@.len() > 0 ==> final(ram)@ == old(ram)@.update(
                (address - 0xa000) % (old(ram)@.len() as int),
                value,
            ),
    {
        if address >= 0xa000 && ram.len() > 0 {
            let i = (address as usize - 0xa000) % ram.len();
            ram.set(i, value);
        }
    }
}

/// MBC1: a 7-bit ROM bank register (low 5 bits at 0x2000, high 2 bits at
/// 0x4000), a banking mode bit and a RAM enable.
pub struct MBC1 {
    rom_bank: u8,
    total_rom_banks: u16,
    total_ram_banks: u16,
    ram_enabled: bool,
    mode: bool,
}

impl MBC1 {
    pub closed spec fn rom_bank_spec(&self) -> u8 {
        self.rom_bank
    }

    pub closed spec fn rom_banks_spec(&self) -> u16 {
        self.total_rom_banks
    }

    pub closed spec fn ram_enabled_spec(&self) -> bool {
        self.ram_enabled
    }

    pub closed spec fn mode_spec(&self) -> bool {
        self.mode
    }

    /// The bank register is 7 bits and its low 5 bits are never zero.
    pub closed spec fn wf(&self) -> bool {
        &&& self.rom_bank < 0x80
        &&& self.rom_bank % 32 != 0
        &&& self.total_rom_banks >= 1
    }

    /// The bank mapped at 0x0000..0x4000: the high bits of the register in
    /// mode 1, else bank 0.
    pub open spec fn low_bank(&self) -> int {
        if self.mode_spec() {
            (self.rom_bank_spec() / 32) * 32
        } else {
            0
        }
    }

    pub open spec fn read_spec(&self, address: u16, rom: Seq<u8>, ram: Seq<u8>) -> u8 {
        let banks = self.rom_banks_spec() as int;
        if address < 0x4000 {
            rom_byte(rom, (self.low_bank() % banks) * 0x4000 + address)
        } else if address < 0x8000 {
            rom_byte(rom, (self.rom_bank_spec() as int % banks) * 0x4000 + (address - 0x4000))
        } else if !self.ram_enabled_spec() || ram.len() == 0 {
            0xff
        } else {
            ram[ram_index(ram, self.low_bank() / 32, address - 0xa000)]
        }
    }

    /// `after` is `before` after a CPU write of `value` to `address`.
    pub open spec fn write_rel(before: MBC1, after: MBC1, address: u16, value: u8) -> bool {
        &&& after.wf()
        &&& after.rom_banks_spec() == before.rom_banks_spec()
        &&& address < 0x2000 ==> after.ram_enabled_spec() == (value % 16 == 0xa) && after.rom_bank_spec() == before.rom_bank_spec() && after.mode_spec() == before.mode_spec()
        &&& 0x2000 <= address < 0x4000 ==> after.rom_bank_spec() == (before.rom_bank_spec() / 32) * 32 + (if value % 32 == 0 { 1 } else { value % 32 }) && after.mode_spec() == before.mode_spec() && after.ram_enabled_spec() == before.ram_enabled_spec()
        &&& 0x4000 <= address < 0x6000 ==> after.rom_bank_spec() == before.rom_bank_spec() % 32 + (value % 4) * 32 && after.mode_spec() == before.mode_spec() && after.ram_enabled_spec() == before.ram_enabled_spec()
        &&& 0x6000 <= address < 0x8000 ==> after.mode_spec() == (value % 2 == 1) && after.rom_bank_spec() == before.rom_bank_spec() && after.ram_enabled_spec() == before.ram_enabled_spec()
        &&& address >= 0x8000 ==> after == before
    }

    pub fn new(t_rom_banks: u16, t_ram_banks: u16) -> (r: Self)
        requires
            t_rom_banks >= 1,
        ensures
            r.wf(),
            r.rom_bank_spec() == 1,
            r.rom_banks_spec() == t_rom_banks,
            !r.ram_enabled_spec(),
            !r.mode_spec(),
    {
        Self { rom_bank: 1, total_rom_banks: t_rom_banks, total_ram_banks: t_ram_banks, ram_enabled: false, mode: false }
    }

    fn get_banks(&self) -> (r: (u16, u16))
        requires
            self.wf(),
        ensures
            r.0 == self.low_bank() % (self.total_rom_banks as int),
            r.1 == self.rom_bank as int % self.total_rom_banks as int,
            r.0 < self.total_rom_banks && r.1 < self.total_rom_banks,
    {
        let low: u16 = if self.mode { (self.rom_bank / 32 * 32) as u16 } else { 0 };
        (low % self.total_rom_banks, self.rom_bank as u16 % self.total_rom_banks)
    }

    pub fn read(&self, address: u16, rom: &Vec<u8>, ram: &Vec<u8>) -> (r: u8)
        requires
            self.wf(),
            cart_address(address),
        ensures
            r == self.read_spec(address, rom@, ram@),
    {
        let (low, high) = self.get_banks();
        if address < 0x4000 {
            read_rom(rom, low as usize * 0x4000 + address as usize)
        } else if address < 0x8000 {
            read_rom(rom, high as usize * 0x4000 + (address as usize - 0x4000))
        } else if !self.ram_enabled || ram.len() == 0 {
            0xff
        } else {
            let ram_bank: usize = if self.mode { (self.rom_bank / 32) as usize } else { 0 };
            ram[(ram_bank * 0x2000 + (address as usize - 0xa000)) % ram.len()]
        }
    }

    pub fn write(&mut self, address: u16, value: u8, ram: &mut Vec<u8>)
        requires
            old(self).wf(),
            cart_address(address),
        ensures
            final(self).wf(),
            final(self).rom_banks_spec() == old(self).rom_banks_spec(),
            MBC1::write_rel(*old(self), *final(self), address, value),
            address < 0x2000 ==> final(self).ram_enabled_spec() == (value % 16 == 0xa)
                && final(self).rom_bank_spec() == old(self).rom_bank_spec() && final(self).mode_spec()
                == old(self).mode_spec(),
            0x2000 <= address < 0x4000 ==> final(self).rom_bank_spec() == (old(self).rom_bank_spec() / 32) * 32
                + (if value % 32 == 0 { 1 } else { value % 32 }) && final(self).mode_spec()
                == old(self).mode_spec() && final(self).ram_enabled_spec() == old(self).ram_enabled_spec(),
            0x4000 <= address < 0x6000 ==> final(self).rom_bank_spec() == old(self).rom_bank_spec() % 32 + (value
                % 4) * 32 && final(self).mode_spec() == old(self).mode_spec() && final(self).ram_enabled_spec()
                == old(self).ram_enabled_spec(),
            0x6000 <= address < 0x8000 ==> final(self).mode_spec() == (value % 2 == 1) && final(self).rom_bank_spec()
                == old(self).rom_bank_spec() && final(self).ram_enabled_spec() == old(self).ram_enabled_spec(),
            address < 0x8000 ==> final(ram)@ == old(ram)@,
            address >= 0xa000 ==> *final(self) == *old(self),
            address >= 0xa000 && (!old(self).ram_enabled_spec() || old(ram)@.len() == 0) ==> final(ram)@ == old(ram)@,
            address >= 0xa000 && old(self).ram_enabled_spec() && old(ram)@.len() > 0 ==> final(ram)@ == old(ram)@.update(
                ram_index(old(ram)@, old(self).low_bank() / 32, address - 0xa000),
                value,
            ),
    {
        if address < 0x2000 {
            self.ram_enabled = value % 16 == 0xa;
        } else if address < 0x4000 {
            let mut low = value % 32;
            if low == 0 {
                low = 1;
            }
            self.rom_bank = self.rom_bank / 32 * 32 + low;
        } else if address < 0x6000 {
            self.rom_bank = self.rom_bank % 32 + (value % 4) * 32;
        } else if address < 0x8000 {
            self.mode = value % 2 == 1;
        } else if self.ram_enabled && ram.len() > 0 {
            let ram_bank: usize = if self.mode { (self.rom_bank / 32) as usize } else { 0 };
            let i = (ram_bank * 0x2000 + (address as usize - 0xa000)) % ram.len();
            ram.set(i, value);
        }
    }
}

/// The switchable ROM bank of an MBC1 (0x4000..0x8000) is never 0x00, 0x20,
/// 0x40 or 0x60: a zero in the low five bits reads as bank 1 of that group.
pub proof fn lemma_mbc1_bank_never_zero(m: MBC1)
    requires
        m.wf(),
    ensures
        m.rom_bank_spec() != 0x00 && m.rom_bank_spec() != 0x20 && m.rom_bank_spec() != 0x40 && m.rom_bank_spec()
            != 0x60,
{
}

/// MBC3: a 7-bit ROM bank, a RAM bank / clock register selector, a RAM and
/// clock enable, and the real-time clock.
pub struct MBC3 {
    rtc: RTC,
    rom_bank: u8,
    ram_bank: u8,
    total_rom_banks: u16,
    total_ram_banks: u16,
    ram_enabled: bool,
}

impl MBC3 {
    pub closed spec fn rom_bank_spec(&self) -> u8 {
        self.rom_bank
    }

    pub closed spec fn ram_bank_spec(&self) -> u8 {
        self.ram_bank
    }

    pub closed spec fn rom_banks_spec(&self) -> u16 {
        self.total_rom_banks
    }

    pub closed spec fn ram_banks_spec(&self) -> u16 {
        self.total_ram_banks
    }

    pub closed spec fn ram_enabled_spec(&self) -> bool {
        self.ram_enabled
    }

    pub closed spec fn rtc_spec(&self) -> RTC {
        self.rtc
    }

    pub closed spec fn wf(&self) -> bool {
        &&& 1 <= self.rom_bank < 0x80
        &&& self.total_rom_banks >= 1
    }

    /// The RAM bank in use: the selector modulo the bank count (bank 0 when
    /// the header declares no whole bank).
    pub open spec fn cur_ram_bank(&self) -> int {
        if self.ram_banks_spec() == 0 {
            0
        } else {
            self.ram_bank_spec() as int % self.ram_banks_spec() as int
        }
    }

    pub open spec fn read_spec(&self, address: u16, rom: Seq<u8>, ram: Seq<u8>) -> u8 {
        if address < 0x4000 {
            rom_byte(rom, address as int)
        } else if address < 0x8000 {
            rom_byte(rom, (self.rom_bank_spec() as int % self.rom_banks_spec() as int) * 0x4000 + (address - 0x4000))
        } else if self.ram_bank_spec() <= 7 {
            if !self.ram_enabled_spec() || ram.len() == 0 {
                0xff
            } else {
                ram[ram_index(ram, self.cur_ram_bank(), address - 0xa000)]
            }
        } else {
            self.rtc_spec().read_spec(self.ram_bank_spec())
        }
    }

    /// `after` is `before` after a CPU write of `value` to `address`: the
    /// controller registers (RAM bank and clock contents are not covered).
    pub open spec fn write_rel(before: MBC3, after: MBC3, address: u16, value: u8) -> bool {
        &&& after.wf()
        &&& after.rom_banks_spec() == before.rom_banks_spec()
        &&& after.ram_banks_spec() == before.ram_banks_spec()
        &&& address < 0x2000 ==> after.ram_enabled_spec() == (value % 16 == 0xa)
        &&& 0x2000 <= address < 0x4000 ==> after.rom_bank_spec() == (if value % 128 == 0 { 1 } else { value % 128 })
        &&& 0x4000 <= address < 0x6000 ==> after.ram_bank_spec() == value
        &&& !(0x2000 <= address < 0x4000) ==> after.rom_bank_spec() == before.rom_bank_spec()
        &&& !(0x4000 <= address < 0x6000) ==> after.ram_bank_spec() == before.ram_bank_spec()
        &&& address >= 0x2000 ==> after.ram_enabled_spec() == before.ram_enabled_spec()
        &&& address < 0x6000 ==> after.rtc_spec() == before.rtc_spec()
        &&& address >= 0xa000 && 0x08 <= before.ram_bank_spec() <= 0x0c ==> after.rtc_spec().read_spec(
            before.ram_bank_spec(),
        ) == value
    }

    pub fn new(t_rom_banks: u16, t_ram_banks: u16) -> (r: Self)
        requires
            t_rom_banks >= 1,
        ensures
            r.wf(),
            r.rom_bank_spec() == 1,
            r.ram_bank_spec() == 0,
            r.rom_banks_spec() == t_rom_banks,
            r.ram_banks_spec() == t_ram_banks,
            !r.ram_enabled_spec(),
    {
        Self {
            rtc: RTC::new(),
            rom_bank: 1,
            ram_bank: 0,
            total_rom_banks: t_rom_banks,
            total_ram_banks: t_ram_banks,
            ram_enabled: false,
        }
    }

    fn ram_offset(&self, address: u16, len: usize) -> (r: usize)
        requires
            0xa000 <= address < 0xc000,
            len > 0,
        ensures
            r == ram_index_of(self.cur_ram_bank(), address - 0xa000, len as int),
            r < len,
    {
        let bank: usize = if self.total_ram_banks == 0 {
            0
        } else {
            (self.ram_bank as u16 % self.total_ram_banks) as usize
        };
        (bank * 0x2000 + (address as usize - 0xa000)) % len
    }

    pub fn read(&self, address: u16, rom: &Vec<u8>, ram: &Vec<u8>) -> (r: u8)
        requires
            self.wf(),
            cart_address(address),
        ensures
            r == self.read_spec(address, rom@, ram@),
    {
        if address < 0x4000 {
            read_rom(rom, address as usize)
        } else if address < 0x8000 {
            let bank = (self.rom_bank as u16 % self.total_rom_banks) as usize;
            read_rom(rom, bank * 0x4000 + (address as usize - 0x4000))
        } else if self.ram_bank <= 7 {
            if !self.ram_enabled || ram.len() == 0 {
                0xff
            } else {
                ram[self.ram_offset(address, ram.len())]
            }
        } else {
            self.rtc.read(self.ram_bank)
        }
    }

    pub fn write(&mut self, address: u16, value: u8, ram: &mut Vec<u8>)
        requires
            old(self).wf(),
            cart_address(address),
        ensures
            final(self).wf(),
            MBC3::write_rel(*old(self), *final(self), address, value),
            final(self).rom_banks_spec() == old(self).rom_banks_spec(),
            final(self).ram_banks_spec() == old(self).ram_banks_spec(),
            address < 0x2000 ==> final(self).ram_enabled_spec() == (value % 16 == 0xa),
            0x2000 <= address < 0x4000 ==> final(self).rom_bank_spec() == (if value % 128 == 0 {
                1
            } else {
                value % 128
            }),
            0x4000 <= address < 0x6000 ==> final(self).ram_bank_spec() == value,
            !(0x2000 <= address < 0x4000) ==> final(self).rom_bank_spec() == old(self).rom_bank_spec(),
            !(0x4000 <= address < 0x6000) ==> final(self).ram_bank_spec() == old(self).ram_bank_spec(),
            address >= 0x2000 ==> final(self).ram_enabled_spec() == old(self).ram_enabled_spec(),
            address < 0x6000 ==> final(self).rtc_spec() == old(self).rtc_spec(),
            address < 0x8000 ==> final(ram)@ == old(ram)@,
            address >= 0xa000 && old(self).ram_bank_spec() <= 7 && old(self).ram_enabled_spec() && old(ram)@.len()
                > 0 ==> final(ram)@ == old(ram)@.update(
                ram_index(old(ram)@, old(self).cur_ram_bank(), address - 0xa000),
                value,
            ),
            address >= 0xa000 && !(old(self).ram_bank_spec() <= 7 && old(self).ram_enabled_spec() && old(ram)@.len() > 0) ==> final(ram)@ == old(ram)@,
            address >= 0xa000 && 0x08 <= old(self).ram_bank_spec() <= 0x0c ==> final(self).rtc_spec().read_spec(
                old(self).ram_bank_spec(),
            ) == value,
    {
        if address < 0x2000 {
            self.ram_enabled = value % 16 == 0xa;
        } else if address < 0x4000 {
            let mut b = value % 128;
            if b == 0 {
                b = 1;
            }
            self.rom_bank = b;
        } else if address < 0x6000 {
            self.ram_bank = value;
        } else if address < 0x8000 {
            self.rtc.write_latch_clock(value);
        } else if self.ram_bank <= 7 {
            if self.ram_enabled && ram.len() > 0 {
                let i = self.ram_offset(address, ram.len());
                ram.set(i, value);
            }
        } else {
            let bank = self.ram_bank;
            self.rtc.write(bank, value);
        }
    }
}

pub open spec fn ram_index_of(bank: int, offset: int, len: int) -> int {
    (bank * 0x2000 + offset) % len
}

} // verus!
