//! The cartridge: its header, ROM, RAM and memory bank controller.
use vstd::prelude::*;
use crate::cartridge::cartridge_header::{CartridgeHeader, HeaderError};
use crate::cartridge::mbc::{cart_address, MBCType, MBC0, MBC1, MBC3};

pub mod cartridge_header;
pub mod mbc;
pub mod rtc;

verus! {

/// Why a cartridge image cannot be loaded.
#[derive(Clone, Copy, Debug, PartialEq, Eq, Structural)]
pub enum CartridgeError {
    /// Fewer than 0x150 bytes.
    CartridgeTooShort,
    /// Byte 0x0147 names no supported controller.
    UnsupportedCartridgeType(u8),
    /// Byte 0x0149 is above 5.
    UnsupportedRamSize(u8),
}

/// RAM bytes for the RAM size code of byte 0x0149.
pub open spec fn ram_size_spec(code: u8) -> int {
    if code == 0 {
        0
    } else if code == 1 {
        0x800
    } else if code == 2 {
        0x2000
    } else if code == 3 {
        0x8000
    } else if code == 4 {
        0x20000
    } else {
        0x10000
    }
}

/// RAM banks for the RAM size code of byte 0x0149.
pub open spec fn ram_banks_spec(code: u8) -> int {
    if code <= 1 {
        0
    } else if code == 2 {
        1
    } else if code == 3 {
        4
    } else if code == 4 {
        16
    } else {
        8
    }
}

/// ROM banks for the ROM size code of byte 0x0148: 2^(code+1).
pub open spec fn rom_banks_spec(code: u8) -> int
    decreases code,
{
    if code == 0 {
        2
    } else {
        2 * rom_banks_spec((code - 1) as u8)
    }
}

/// The ROM bank count a controller keeps for size code `code`: 2^(code+1),
/// held at 32768 beyond code 14. Bank registers are at most 7 bits, so the
/// bank they select is the same modulo either count (`lemma_bank_count`).
pub open spec fn bank_count(code: u8) -> int {
    if code <= 14 {
        rom_banks_spec(code)
    } else {
        32768
    }
}

/// 2^(code+1) is at least 128 from code 6 on.
pub proof fn lemma_rom_banks_large(code: u8)
    requires
        code >= 6,
    ensures
        rom_banks_spec(code) >= 128,
    decreases code,
{
    if code > 6 {
        lemma_rom_banks_large((code - 1) as u8);
    } else {
        reveal_with_fuel(rom_banks_spec, 8);
    }
}

/// A 7-bit bank register selects the same bank modulo the kept count as
/// modulo 2^(code+1).
pub proof fn lemma_bank_count(code: u8, bank: int)
    requires
        0 <= bank < 128,
    ensures
        bank % bank_count(code) == bank % rom_banks_spec(code),
{
    if code >= 6 {
        lemma_rom_banks_large(code);
        vstd::arithmetic::div_mod::lemma_small_mod(bank as nat, rom_banks_spec(code) as nat);
        vstd::arithmetic::div_mod::lemma_small_mod(bank as nat, bank_count(code) as nat);
    }
}

/// The controller family that cartridge type byte `t` selects: 0 for none,
/// 1 for MBC1, 3 for MBC3; `None` when unsupported.
pub open spec fn controller_of(t: u8) -> Option<u8> {
    if t == 0x00 || t == 0x08 || t == 0x09 {
        Some(0u8)
    } else if 0x01 <= t <= 0x03 {
        Some(1u8)
    } else if 0x0f <= t <= 0x13 {
        Some(3u8)
    } else {
        None
    }
}

/// The error that loading `rom` meets, checked in this order: length, type,
/// ROM size, RAM size.
pub open spec fn load_error(rom: Seq<u8>) -> Option<CartridgeError> {
    if rom.len() < 0x150 {
        Some(CartridgeError::CartridgeTooShort)
    } else if controller_of(rom[0x147]) is None {
        Some(CartridgeError::UnsupportedCartridgeType(rom[0x147]))
    } else if rom[0x149] > 5 {
        Some(CartridgeError::UnsupportedRamSize(rom[0x149]))
    } else {
        None
    }
}

pub struct Cartridge {
    pub header: CartridgeHeader,
    pub rom: Vec<u8>,
    pub ram: Vec<u8>,
    pub mbc: MBCType,
}

impl Cartridge {
    pub open spec fn mbc_spec(&self) -> MBCType {
        self.mbc
    }

    pub open spec fn wf(&self) -> bool {
        match self.mbc_spec() {
            MBCType::MBC0(_) => true,
            MBCType::MBC1(m) => m.wf(),
            MBCType::MBC3(m) => m.wf(),
        }
    }

    /// The byte that a read of cartridge-space `address` returns.
    pub open spec fn read_spec(&self, address: u16) -> u8 {
        match self.mbc_spec() {
            MBCType::MBC0(m) => m.read_spec(address, self.rom@, self.ram@),
            MBCType::MBC1(m) => m.read_spec(address, self.rom@, self.ram@),
            MBCType::MBC3(m) => m.read_spec(address, self.rom@, self.ram@),
        }
    }

    /// Whether a write to RAM-space `address` is stored (RAM present and
    /// enabled, or an MBC3 clock register selected).
    pub open spec fn ram_writable(&self, address: u16) -> bool {
        &&& 0xa000 <= address < 0xc000
        &&& match self.mbc_spec() {
            MBCType::MBC0(_) => self.ram@.len() > 0,
            MBCType::MBC1(m) => m.ram_enabled_spec() && self.ram@.len() > 0,
            MBCType::MBC3(m) => (m.ram_bank_spec() <= 7 && m.ram_enabled_spec() && self.ram@.len() > 0) || (0x08
                <= m.ram_bank_spec() <= 0x0c),
        }
    }

    fn rom_banks(code: u8) -> (r: u16)
        ensures
            r == bank_count(code),
            r >= 2,
    {
        if code > 14 {
            return 32768;
        }
        let mut r: u16 = 2;
        let mut i: u8 = 0;
        while i < code
            invariant
                i <= code <= 14,
                r == rom_banks_spec(i),
                2 <= r <= 32768,
                r as int <= rom_banks_spec(i),
            decreases code - i,
        {
            proof {
                lemma_rom_banks_bound(i);
            }
            r = r * 2;
            i = i + 1;
        }
        r
    }

    /// Loads a cartridge image: reads the header (a checksum mismatch is
    /// tolerated), picks the controller and allocates zeroed RAM.
    pub fn new(rom: Vec<u8>) -> (r: Result<Self, CartridgeError>)
        ensures
            r is Ok <==> load_error(rom@) is None,
            r matches Err(e) ==> load_error(rom@) == Some(e),
            r matches Ok(c) ==> c.wf() && c.rom@ == rom@ && c.ram@.len() == ram_size_spec(rom@[0x149])
                && c.header.parsed_from(rom@) && (forall|i: int| 0 <= i < c.ram@.len() ==> #[trigger] c.ram@[i]
                == 0) && match c.mbc_spec() {
                MBCType::MBC0(_) => controller_of(rom@[0x147]) == Some(0u8),
                MBCType::MBC1(m) => controller_of(rom@[0x147]) == Some(1u8) && m.rom_banks_spec()
                    == bank_count(rom@[0x148]) && m.rom_bank_spec() == 1 && !m.mode_spec()
                    && !m.ram_enabled_spec(),
                MBCType::MBC3(m) => controller_of(rom@[0x147]) == Some(3u8) && m.rom_banks_spec()
                    == bank_count(rom@[0x148]) && m.ram_banks_spec() == ram_banks_spec(rom@[0x149])
                    && m.rom_bank_spec() == 1 && m.ram_bank_spec() == 0 && !m.ram_enabled_spec(),
            },
    {
        let header = match CartridgeHeader::from_bytes(&rom) {
            Ok(h) => h,
            Err(HeaderError::HeaderChecksumMismatch(h)) => h,
            Err(HeaderError::CartridgeTooShort) => {
                return Err(CartridgeError::CartridgeTooShort);
            },
        };
        let t = header.cartridge_type;
        let kind: u8 = if t == 0x00 || t == 0x08 || t == 0x09 {
            0
        } else if 0x01 <= t && t <= 0x03 {
            1
        } else if 0x0f <= t && t <= 0x13 {
            3
        } else {
            return Err(CartridgeError::UnsupportedCartridgeType(t));
        };
        if header.ram_size > 5 {
            return Err(CartridgeError::UnsupportedRamSize(header.ram_size));
        }
        let code = header.ram_size;
        let ram_banks: u16 = if code <= 1 {
            0
        } else if code == 2 {
            1
        } else if code == 3 {
            4
        } else if code == 4 {
            16
        } else {
            8
        };
        let ram_size: usize = if code == 0 {
            0
        } else if code == 1 {
            0x800
        } else if code == 2 {
            0x2000
        } else if code == 3 {
            4 * 0x2000
        } else if code == 4 {
            16 * 0x2000
        } else {
            8 * 0x2000
        };
        let rom_banks = Self::rom_banks(header.rom_size);
        let mbc = if kind == 0 {
            MBCType::MBC0(MBC0 {})
        } else if kind == 1 {
            MBCType::MBC1(MBC1::new(rom_banks, ram_banks))
        } else {
            MBCType::MBC3(MBC3::new(rom_banks, ram_banks))
        };
        let ram = vec![0u8; ram_size];
        Ok(Self { header, rom, ram, mbc })
    }

    pub fn read(&self, address: u16) -> (r: u8)
        requires
            self.wf(),
            cart_address(address),
        ensures
            r == self.read_spec(address),
    {
        match &self.mbc {
            MBCType::MBC0(x) => x.read(address, &self.rom, &self.ram),
            MBCType::MBC1(x) => x.read(address, &self.rom, &self.ram),
            MBCType::MBC3(x) => x.read(address, &self.rom, &self.ram),
        }
    }

    /// A write to cartridge space: controller registers below 0x8000, RAM or
    /// clock registers at 0xA000..0xC000.
    pub fn write(&mut self, address: u16, value: u8)
        requires
            old(self).wf(),
            cart_address(address),
        ensures
            final(self).wf(),
            final(self).rom@ == old(self).rom@,
            final(self).header == old(self).header,
            final(self).ram@.len() == old(self).ram@.len(),
            address < 0x8000 ==> final(self).ram@ == old(self).ram@,
            old(self).ram_writable(address) ==> final(self).read_spec(address) == value,
            !old(self).ram_writable(address) && !(old(self).mbc_spec() is MBC3 && address >= 0xa000) ==> final(self).ram@ == old(self).ram@,
            old(self).mbc_spec() is MBC0 ==> final(self).mbc_spec() == old(self).mbc_spec(),
            old(self).mbc_spec() is MBC0 && address < 0x8000 ==> final(self).ram@ == old(self).ram@ && final(
                self).mbc_spec() == old(self).mbc_spec(),
            old(self).mbc_spec() matches MBCType::MBC1(m) ==> final(self).mbc_spec() matches MBCType::MBC1(m2)
                && MBC1::write_rel(m, m2, address, value),
            old(self).mbc_spec() matches MBCType::MBC3(m) ==> final(self).mbc_spec() matches MBCType::MBC3(m2)
                && MBC3::write_rel(m, m2, address, value),
            old(self).mbc_spec() is MBC3 && address >= 0xa000 && !(old(self).mbc_spec()->MBC3_0.ram_bank_spec() <= 7
                && old(self).mbc_spec()->MBC3_0.ram_enabled_spec() && old(self).ram@.len() > 0) ==> final(self).ram@ == old(self).ram@,
    {
        match &mut self.mbc {
            MBCType::MBC0(x) => x.write(address, value, &mut self.ram),
            MBCType::MBC1(x) => x.write(address, value, &mut self.ram),
            MBCType::MBC3(x) => x.write(address, value, &mut self.ram),
        }
    }
}

proof fn lemma_rom_banks_bound(i: u8)
    requires
        i < 14,
    ensures
        rom_banks_spec(i) <= 16384,
        rom_banks_spec((i + 1) as u8) == 2 * rom_banks_spec(i),
{
    reveal_with_fuel(rom_banks_spec, 16);
    if i == 0 {
    } else if i == 1 {
    } else if i == 2 {
    } else if i == 3 {
    } else if i == 4 {
    } else if i == 5 {
    } else if i == 6 {
    } else if i == 7 {
    } else if i == 8 {
    } else if i == 9 {
    } else if i == 10 {
    } else if i == 11 {
    } else if i == 12 {
    } else {
    }
}

} // verus!
