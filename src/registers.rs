//! The CPU register file: eight 8-bit registers, SP and PC, with the flag
//! bits Z/N/H/C kept in the high nibble of F.
use vstd::prelude::*;

verus! {

/// An 8-bit register.
#[derive(Clone, Copy, Debug, PartialEq, Eq, Structural)]
pub enum Reg8 {
    A,
    F,
    B,
    C,
    D,
    E,
    H,
    L,
}

/// A 16-bit register or register pair.
#[derive(Clone, Copy, Debug, PartialEq, Eq, Structural)]
pub enum Reg16 {
    AF,
    BC,
    DE,
    HL,
    SP,
    PC,
}

/// A flag bit of F.
#[derive(Clone, Copy, Debug, PartialEq, Eq, Structural)]
pub enum Flag {
    Z,
    N,
    H,
    C,
}

/// The four flags as plain booleans.
#[derive(Clone, Copy, Debug, PartialEq, Eq, Structural)]
pub struct Flags {
    pub z: bool,
    pub n: bool,
    pub h: bool,
    pub c: bool,
}

/// The byte that holds the given flags in bits 7..4 and zero below.
pub open spec fn pack_spec(fl: Flags) -> u8 {
    ((if fl.z { 128int } else { 0 }) + (if fl.n { 64int } else { 0 }) + (if fl.h { 32int } else { 0 })
        + (if fl.c { 16int } else { 0 })) as u8
}

/// Flag bit `k` (0 = bit 4 ... 3 = bit 7) of a flags byte.
pub open spec fn bit_of(f: u8, shift: int) -> bool {
    (f as int / pow2_spec(shift)) % 2 == 1
}

pub open spec fn pow2_spec(k: int) -> int {
    if k == 7 {
        128
    } else if k == 6 {
        64
    } else if k == 5 {
        32
    } else {
        16
    }
}

/// The flags that a flags byte holds.
pub open spec fn unpack_spec(f: u8) -> Flags {
    Flags { z: bit_of(f, 7), n: bit_of(f, 6), h: bit_of(f, 5), c: bit_of(f, 4) }
}

/// Big-endian join of two bytes.
pub open spec fn join16(hi: u8, lo: u8) -> u16 {
    (hi as int * 256 + lo as int) as u16
}

pub proof fn lemma_pack_unpack(fl: Flags)
    ensures
        unpack_spec(pack_spec(fl)) == fl,
        pack_spec(fl) % 16 == 0,
{
}

/// Packs four flags into the F register layout.
pub fn pack_flags(fl: Flags) -> (r: u8)
    ensures
        r == pack_spec(fl),
        r % 16 == 0,
        unpack_spec(r) == fl,
{
    proof {
        lemma_pack_unpack(fl);
    }
    let z: u8 = if fl.z { 128 } else { 0 };
    let n: u8 = if fl.n { 64 } else { 0 };
    let h: u8 = if fl.h { 32 } else { 0 };
    let c: u8 = if fl.c { 16 } else { 0 };
    z + n + h + c
}

/// The register-file invariant is the flag-byte rule: F & 0x0F == 0.
pub proof fn lemma_low_nibble_clear(r: Registers)
    requires
        r.wf(),
    ensures
        r.f & 0x0f == 0,
{
    let f = r.f;
    assert(f % 16 == 0 ==> f & 0x0f == 0) by (bit_vector);
}

pub struct Registers {
    pub f: u8,
    pub a: u8,
    pub c: u8,
    pub b: u8,
    pub e: u8,
    pub d: u8,
    pub l: u8,
    pub h: u8,
    pub sp: u16,
    pub pc: u16,
}

impl Registers {
    /// F keeps its low nibble zero.
    pub open spec fn wf(&self) -> bool {
        self.f % 16 == 0
    }

    pub open spec fn flags_spec(&self) -> Flags {
        unpack_spec(self.f)
    }

    pub open spec fn flag_spec(&self, fl: Flag) -> bool {
        match fl {
            Flag::Z => self.flags_spec().z,
            Flag::N => self.flags_spec().n,
            Flag::H => self.flags_spec().h,
            Flag::C => self.flags_spec().c,
        }
    }

    pub open spec fn r8(&self, r: Reg8) -> u8 {
        match r {
            Reg8::A => self.a,
            Reg8::F => self.f,
            Reg8::B => self.b,
            Reg8::C => self.c,
            Reg8::D => self.d,
            Reg8::E => self.e,
            Reg8::H => self.h,
            Reg8::L => self.l,
        }
    }

    pub open spec fn r16(&self, r: Reg16) -> u16 {
        match r {
            Reg16::AF => join16(self.a, self.f),
            Reg16::BC => join16(self.b, self.c),
            Reg16::DE => join16(self.d, self.e),
            Reg16::HL => join16(self.h, self.l),
            Reg16::SP => self.sp,
            Reg16::PC => self.pc,
        }
    }

    /// The register file after an 8-bit write; a write to F drops the low nibble.
    pub open spec fn with_r8(self, r: Reg8, v: u8) -> Registers {
        match r {
            Reg8::A => Registers { a: v, ..self },
            Reg8::F => Registers { f: (v as int - v as int % 16) as u8, ..self },
            Reg8::B => Registers { b: v, ..self },
            Reg8::C => Registers { c: v, ..self },
            Reg8::D => Registers { d: v, ..self },
            Reg8::E => Registers { e: v, ..self },
            Reg8::H => Registers { h: v, ..self },
            Reg8::L => Registers { l: v, ..self },
        }
    }

    /// The register file after a 16-bit write; a write to AF drops F's low nibble.
    pub open spec fn with_r16(self, r: Reg16, v: u16) -> Registers {
        let hi = (v as int / 256) as u8;
        let lo = (v as int % 256) as u8;
        match r {
            Reg16::AF => Registers { a: hi, f: (lo as int - lo as int % 16) as u8, ..self },
            Reg16::BC => Registers { b: hi, c: lo, ..self },
            Reg16::DE => Registers { d: hi, e: lo, ..self },
            Reg16::HL => Registers { h: hi, l: lo, ..self },
            Reg16::SP => Registers { sp: v, ..self },
            Reg16::PC => Registers { pc: v, ..self },
        }
    }

    /// The register file with all four flags replaced.
    pub open spec fn with_flags(self, fl: Flags) -> Registers {
        Registers { f: pack_spec(fl), ..self }
    }

    /// The register file with one flag replaced.
    pub open spec fn with_flag(self, which: Flag, value: bool) -> Registers {
        let o = self.flags_spec();
        self.with_flags(
            match which {
                Flag::Z => Flags { z: value, ..o },
                Flag::N => Flags { n: value, ..o },
                Flag::H => Flags { h: value, ..o },
                Flag::C => Flags { c: value, ..o },
            },
        )
    }

    /// The state after the boot ROM has run.
    pub fn new() -> (r: Self)
        ensures
            r.wf(),
            r.a == 0x01 && r.f == 0xb0 && r.b == 0x00 && r.c == 0x13,
            r.d == 0x00 && r.e == 0xd8 && r.h == 0x01 && r.l == 0x4d,
            r.sp == 0xfffe && r.pc == 0x0100,
    {
        Self { a: 0x01, f: 0xb0, b: 0x00, c: 0x13, d: 0x00, e: 0xd8, h: 0x01, l: 0x4d, sp: 0xfffe, pc: 0x0100 }
    }

    pub fn get_u16_reg(&self, reg: Reg16) -> (r: u16)
        ensures
            r == self.r16(reg),
    {
        match reg {
            Reg16::AF => (self.a as u16) * 256 + self.f as u16,
            Reg16::BC => (self.b as u16) * 256 + self.c as u16,
            Reg16::DE => (self.d as u16) * 256 + self.e as u16,
            Reg16::HL => (self.h as u16) * 256 + self.l as u16,
            Reg16::SP => self.sp,
            Reg16::PC => self.pc,
        }
    }

    pub fn get_u8_reg(&self, reg: Reg8) -> (r: u8)
        ensures
            r == self.r8(reg),
    {
        match reg {
            Reg8::A => self.a,
            Reg8::F => self.f,
            Reg8::B => self.b,
            Reg8::C => self.c,
            Reg8::D => self.d,
            Reg8::E => self.e,
            Reg8::H => self.h,
            Reg8::L => self.l,
        }
    }

    pub fn set_u16_reg(&mut self, reg: Reg16, value: u16)
        requires
            old(self).wf(),
        ensures
            *final(self) == old(self).with_r16(reg, value),
            final(self).wf(),
            reg != Reg16::AF ==> final(self).r16(reg) == value,
    {
        let hi = (value / 256) as u8;
        let lo = (value % 256) as u8;
        match reg {
            Reg16::AF => {
                self.a = hi;
                self.f = lo - lo % 16;
            },
            Reg16::BC => {
                self.b = hi;
                self.c = lo;
            },
            Reg16::DE => {
                self.d = hi;
                self.e = lo;
            },
            Reg16::HL => {
                self.h = hi;
                self.l = lo;
            },
            Reg16::SP => self.sp = value,
            Reg16::PC => self.pc = value,
        }
    }

    pub fn set_u8_reg(&mut self, reg: Reg8, value: u8)
        requires
            old(self).wf(),
        ensures
            *final(self) == old(self).with_r8(reg, value),
            final(self).wf(),
            reg != Reg8::F ==> final(self).r8(reg) == value,
    {
        match reg {
            Reg8::A => self.a = value,
            Reg8::F => self.f = value - value % 16,
            Reg8::B => self.b = value,
            Reg8::C => self.c = value,
            Reg8::D => self.d = value,
            Reg8::E => self.e = value,
            Reg8::H => self.h = value,
            Reg8::L => self.l = value,
        }
    }

    pub fn get_flags(&self) -> (r: Flags)
        ensures
            r == self.flags_spec(),
    {
        Flags {
            z: (self.f / 128) % 2 == 1,
            n: (self.f / 64) % 2 == 1,
            h: (self.f / 32) % 2 == 1,
            c: (self.f / 16) % 2 == 1,
        }
    }

    pub fn set_flags(&mut self, fl: Flags)
        ensures
            *final(self) == old(self).with_flags(fl),
            final(self).wf(),
            final(self).flags_spec() == fl,
    {
        self.f = pack_flags(fl);
    }

    pub fn get_flag(&self, flag: Flag) -> (r: bool)
        ensures
            r == self.flag_spec(flag),
    {
        let fl = self.get_flags();
        match flag {
            Flag::Z => fl.z,
            Flag::N => fl.n,
            Flag::H => fl.h,
            Flag::C => fl.c,
        }
    }

    pub fn set_flag(&mut self, flag: Flag, value: bool)
        requires
            old(self).wf(),
        ensures
            *final(self) == old(self).with_flag(flag, value),
            final(self).wf(),
            final(self).flag_spec(flag) == value,
            forall|g: Flag| g != flag ==> final(self).flag_spec(g) == old(self).flag_spec(g),
    {
        let o = self.get_flags();
        let fl = match flag {
            Flag::Z => Flags { z: value, ..o },
            Flag::N => Flags { n: value, ..o },
            Flag::H => Flags { h: value, ..o },
            Flag::C => Flags { c: value, ..o },
        };
        self.set_flags(fl);
    }
}

} // verus!
