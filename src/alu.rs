//! The arithmetic and logic unit: each operation is a pure function from its
//! operands (and the incoming flags it reads) to a result byte and new flags.
use vstd::prelude::*;
use crate::registers::Flags;

verus! {

/// An 8-bit result with the flags it produces.
#[derive(Clone, Copy, Debug, PartialEq, Eq, Structural)]
pub struct AluResult {
    pub value: u8,
    pub flags: Flags,
}

/// A 16-bit result with the flags it produces.
#[derive(Clone, Copy, Debug, PartialEq, Eq, Structural)]
pub struct AluResult16 {
    pub value: u16,
    pub flags: Flags,
}

pub open spec fn b2i(b: bool) -> int {
    if b { 1 } else { 0 }
}

/// ADD / ADC: Z from the 8-bit result, N clear, H on a low-nibble carry, C on a byte carry.
pub open spec fn add_spec(a: u8, b: u8, cin: bool) -> AluResult {
    let total = a + b + b2i(cin);
    AluResult {
        value: (total % 256) as u8,
        flags: Flags {
            z: total % 256 == 0,
            n: false,
            h: a % 16 + b % 16 + b2i(cin) > 15,
            c: total > 255,
        },
    }
}

/// SUB / SBC / CP: Z from the 8-bit result, N set, H on a low-nibble borrow, C on a borrow.
pub open spec fn sub_spec(a: u8, b: u8, cin: bool) -> AluResult {
    let diff = a - b - b2i(cin);
    AluResult {
        value: ((diff + 256) % 256) as u8,
        flags: Flags {
            z: (diff + 256) % 256 == 0,
            n: true,
            h: (a % 16) - (b % 16) - b2i(cin) < 0,
            c: a < b + b2i(cin),
        },
    }
}

pub open spec fn logic_flags(v: u8, h: bool) -> Flags {
    Flags { z: v == 0, n: false, h: h, c: false }
}

/// INC r: C is kept.
pub open spec fn inc_spec(a: u8, old: Flags) -> AluResult {
    let v = ((a + 1) % 256) as u8;
    AluResult { value: v, flags: Flags { z: v == 0, n: false, h: a % 16 == 15, c: old.c } }
}

/// DEC r: C is kept.
pub open spec fn dec_spec(a: u8, old: Flags) -> AluResult {
    let v = ((a + 255) % 256) as u8;
    AluResult { value: v, flags: Flags { z: v == 0, n: true, h: a % 16 == 0, c: old.c } }
}

/// ADD HL,rr: Z kept, N clear, H on a bit-11 carry, C on a bit-15 carry.
pub open spec fn add16_spec(a: u16, b: u16, old: Flags) -> AluResult16 {
    let total = a + b;
    AluResult16 {
        value: (total % 65536) as u16,
        flags: Flags { z: old.z, n: false, h: a % 4096 + b % 4096 > 4095, c: total > 65535 },
    }
}

/// The signed value of an offset byte.
pub open spec fn signed8(e: u8) -> int {
    if e >= 128 { e - 256 } else { e as int }
}

/// PC plus a signed 8-bit offset, wrapping in 16 bits.
pub open spec fn offset_spec(base: u16, e: u8) -> u16 {
    ((base + signed8(e) + 65536) % 65536) as u16
}

/// ADD SP,r8 and LD HL,SP+r8: Z and N clear; H and C from the unsigned low-nibble
/// and low-byte sums of SP and the offset byte.
pub open spec fn add_sp_spec(sp: u16, e: u8) -> AluResult16 {
    AluResult16 {
        value: offset_spec(sp, e),
        flags: Flags { z: false, n: false, h: sp % 16 + e % 16 > 15, c: sp % 256 + e > 255 },
    }
}

/// DAA: the BCD correction after an addition (N clear) or subtraction (N set).
pub open spec fn daa_spec(a: u8, fl: Flags) -> AluResult {
    let low = fl.h || (!fl.n && a % 16 > 9);
    let high = fl.c || (!fl.n && a > 0x99);
    let corr = (if low { 6int } else { 0 }) + (if high { 0x60int } else { 0 });
    let v = if fl.n { (a - corr + 256) % 256 } else { (a + corr) % 256 };
    AluResult { value: v as u8, flags: Flags { z: v == 0, n: fl.n, h: false, c: high } }
}

pub open spec fn shift_flags(v: u8, c: bool) -> Flags {
    Flags { z: v == 0, n: false, h: false, c: c }
}

/// RLC: rotate left, bit 7 into C and bit 0.
pub open spec fn rlc_spec(a: u8) -> AluResult {
    let c = a >= 128;
    let v = ((a * 2) % 256 + b2i(c)) as u8;
    AluResult { value: v, flags: shift_flags(v, c) }
}

/// RRC: rotate right, bit 0 into C and bit 7.
pub open spec fn rrc_spec(a: u8) -> AluResult {
    let c = a % 2 == 1;
    let v = (a / 2 + 128 * b2i(c)) as u8;
    AluResult { value: v, flags: shift_flags(v, c) }
}

/// RL: rotate left through carry.
pub open spec fn rl_spec(a: u8, cin: bool) -> AluResult {
    let v = ((a * 2) % 256 + b2i(cin)) as u8;
    AluResult { value: v, flags: shift_flags(v, a >= 128) }
}

/// RR: rotate right through carry.
pub open spec fn rr_spec(a: u8, cin: bool) -> AluResult {
    let v = (a / 2 + 128 * b2i(cin)) as u8;
    AluResult { value: v, flags: shift_flags(v, a % 2 == 1) }
}

/// SLA: shift left, bit 0 cleared.
pub open spec fn sla_spec(a: u8) -> AluResult {
    let v = ((a * 2) % 256) as u8;
    AluResult { value: v, flags: shift_flags(v, a >= 128) }
}

/// SRA: shift right, bit 7 kept.
pub open spec fn sra_spec(a: u8) -> AluResult {
    let v = (a / 2 + (if a >= 128 { 128int } else { 0 })) as u8;
    AluResult { value: v, flags: shift_flags(v, a % 2 == 1) }
}

/// SRL: shift right, bit 7 cleared.
pub open spec fn srl_spec(a: u8) -> AluResult {
    let v = (a / 2) as u8;
    AluResult { value: v, flags: shift_flags(v, a % 2 == 1) }
}

/// SWAP: exchange the nibbles.
pub open spec fn swap_spec(a: u8) -> AluResult {
    let v = ((a % 16) * 16 + a / 16) as u8;
    AluResult { value: v, flags: shift_flags(v, false) }
}

/// 2 to the power `n`, for a bit number.
pub open spec fn bit_weight(n: u8) -> int {
    if n == 0 {
        1
    } else if n == 1 {
        2
    } else if n == 2 {
        4
    } else if n == 3 {
        8
    } else if n == 4 {
        16
    } else if n == 5 {
        32
    } else if n == 6 {
        64
    } else {
        128
    }
}

/// Whether bit `n` of `v` is set.
pub open spec fn bit_set(v: u8, n: u8) -> bool {
    (v as int / bit_weight(n)) % 2 == 1
}

/// BIT n: Z is the complement of the bit, N clear, H set, C kept.
pub open spec fn bit_spec(n: u8, v: u8, old: Flags) -> Flags {
    Flags { z: !bit_set(v, n), n: false, h: true, c: old.c }
}

/// `v` with bit `n` forced to `on`.
pub open spec fn with_bit(v: u8, n: u8, on: bool) -> u8 {
    if bit_set(v, n) == on {
        v
    } else if on {
        (v + bit_weight(n)) as u8
    } else {
        (v - bit_weight(n)) as u8
    }
}

pub fn add8(a: u8, b: u8, cin: bool) -> (r: AluResult)
    ensures
        r == add_spec(a, b, cin),
{
    let ci: u16 = if cin { 1 } else { 0 };
    let total: u16 = a as u16 + b as u16 + ci;
    let v = (total % 256) as u8;
    AluResult {
        value: v,
        flags: Flags {
            z: total % 256 == 0,
            n: false,
            h: (a % 16) as u16 + (b % 16) as u16 + ci > 15,
            c: total > 255,
        },
    }
}

pub fn sub8(a: u8, b: u8, cin: bool) -> (r: AluResult)
    ensures
        r == sub_spec(a, b, cin),
{
    let ci: u16 = if cin { 1 } else { 0 };
    let m: u16 = (a as u16 + 256 - b as u16 - ci) % 256;
    AluResult {
        value: m as u8,
        flags: Flags {
            z: m == 0,
            n: true,
            h: ((a % 16) as u16) < (b % 16) as u16 + ci,
            c: (a as u16) < b as u16 + ci,
        },
    }
}

pub fn and8(a: u8, b: u8) -> (r: AluResult)
    ensures
        r.value == a & b,
        r.flags == logic_flags(a & b, true),
{
    let v = a & b;
    AluResult { value: v, flags: Flags { z: v == 0, n: false, h: true, c: false } }
}

pub fn or8(a: u8, b: u8) -> (r: AluResult)
    ensures
        r.value == a | b,
        r.flags == logic_flags(a | b, false),
{
    let v = a | b;
    AluResult { value: v, flags: Flags { z: v == 0, n: false, h: false, c: false } }
}

pub fn xor8(a: u8, b: u8) -> (r: AluResult)
    ensures
        r.value == a ^ b,
        r.flags == logic_flags(a ^ b, false),
{
    let v = a ^ b;
    AluResult { value: v, flags: Flags { z: v == 0, n: false, h: false, c: false } }
}

pub fn inc8(a: u8, old: Flags) -> (r: AluResult)
    ensures
        r == inc_spec(a, old),
{
    let v: u8 = if a == 255 { 0 } else { a + 1 };
    AluResult { value: v, flags: Flags { z: v == 0, n: false, h: a % 16 == 15, c: old.c } }
}

pub fn dec8(a: u8, old: Flags) -> (r: AluResult)
    ensures
        r == dec_spec(a, old),
{
    let v: u8 = if a == 0 { 255 } else { a - 1 };
    AluResult { value: v, flags: Flags { z: v == 0, n: true, h: a % 16 == 0, c: old.c } }
}

pub fn add16(a: u16, b: u16, old: Flags) -> (r: AluResult16)
    ensures
        r == add16_spec(a, b, old),
{
    let total: u32 = a as u32 + b as u32;
    AluResult16 {
        value: (total % 65536) as u16,
        flags: Flags {
            z: old.z,
            n: false,
            h: (a % 4096) as u32 + (b % 4096) as u32 > 4095,
            c: total > 65535,
        },
    }
}

/// Adds a signed 8-bit offset to a 16-bit base, wrapping.
pub fn offset16(base: u16, e: u8) -> (r: u16)
    ensures
        r == offset_spec(base, e),
{
    let t: u32 = if e >= 128 { base as u32 + 65536 - 256 + e as u32 } else { base as u32 + 65536 + e as u32 };
    (t % 65536) as u16
}

pub fn add_sp(sp: u16, e: u8) -> (r: AluResult16)
    ensures
        r == add_sp_spec(sp, e),
{
    AluResult16 {
        value: offset16(sp, e),
        flags: Flags {
            z: false,
            n: false,
            h: (sp % 16) as u8 + e % 16 > 15,
            c: (sp % 256) as u16 + e as u16 > 255,
        },
    }
}

pub fn daa(a: u8, fl: Flags) -> (r: AluResult)
    ensures
        r == daa_spec(a, fl),
{
    let low = fl.h || (!fl.n && a % 16 > 9);
    let high = fl.c || (!fl.n && a > 0x99);
    let corr: u16 = (if low { 6 } else { 0 }) + (if high { 0x60 } else { 0 });
    let v: u16 = if fl.n { (a as u16 + 256 - corr) % 256 } else { (a as u16 + corr) % 256 };
    AluResult { value: v as u8, flags: Flags { z: v == 0, n: fl.n, h: false, c: high } }
}

pub fn rlc(a: u8) -> (r: AluResult)
    ensures
        r == rlc_spec(a),
{
    let c = a >= 128;
    let v: u8 = ((a as u16 * 2) % 256) as u8 + if c { 1 } else { 0 };
    AluResult { value: v, flags: Flags { z: v == 0, n: false, h: false, c: c } }
}

pub fn rrc(a: u8) -> (r: AluResult)
    ensures
        r == rrc_spec(a),
{
    let c = a % 2 == 1;
    let v: u8 = a / 2 + if c { 128 } else { 0 };
    AluResult { value: v, flags: Flags { z: v == 0, n: false, h: false, c: c } }
}

pub fn rl(a: u8, cin: bool) -> (r: AluResult)
    ensures
        r == rl_spec(a, cin),
{
    let v: u8 = ((a as u16 * 2) % 256) as u8 + if cin { 1 } else { 0 };
    AluResult { value: v, flags: Flags { z: v == 0, n: false, h: false, c: a >= 128 } }
}

pub fn rr(a: u8, cin: bool) -> (r: AluResult)
    ensures
        r == rr_spec(a, cin),
{
    let v: u8 = a / 2 + if cin { 128 } else { 0 };
    AluResult { value: v, flags: Flags { z: v == 0, n: false, h: false, c: a % 2 == 1 } }
}

pub fn sla(a: u8) -> (r: AluResult)
    ensures
        r == sla_spec(a),
{
    let v: u8 = ((a as u16 * 2) % 256) as u8;
    AluResult { value: v, flags: Flags { z: v == 0, n: false, h: false, c: a >= 128 } }
}

pub fn sra(a: u8) -> (r: AluResult)
    ensures
        r == sra_spec(a),
{
    let v: u8 = a / 2 + if a >= 128 { 128 } else { 0 };
    AluResult { value: v, flags: Flags { z: v == 0, n: false, h: false, c: a % 2 == 1 } }
}

pub fn srl(a: u8) -> (r: AluResult)
    ensures
        r == srl_spec(a),
{
    let v: u8 = a / 2;
    AluResult { value: v, flags: Flags { z: v == 0, n: false, h: false, c: a % 2 == 1 } }
}

pub fn swap(a: u8) -> (r: AluResult)
    ensures
        r == swap_spec(a),
{
    let v: u8 = (a % 16) * 16 + a / 16;
    AluResult { value: v, flags: Flags { z: v == 0, n: false, h: false, c: false } }
}

/// The weight of bit `n` (`n` is taken modulo 8).
pub fn bit_mask(n: u8) -> (r: u8)
    ensures
        r as int == bit_weight(n),
{
    if n == 0 {
        1
    } else if n == 1 {
        2
    } else if n == 2 {
        4
    } else if n == 3 {
        8
    } else if n == 4 {
        16
    } else if n == 5 {
        32
    } else if n == 6 {
        64
    } else {
        128
    }
}

pub fn test_bit(v: u8, n: u8) -> (r: bool)
    ensures
        r == bit_set(v, n),
{
    (v / bit_mask(n)) % 2 == 1
}

pub fn bit(n: u8, v: u8, old: Flags) -> (r: Flags)
    ensures
        r == bit_spec(n, v, old),
{
    Flags { z: !test_bit(v, n), n: false, h: true, c: old.c }
}

proof fn lemma_bit_room(v: u8, n: u8)
    ensures
        bit_set(v, n) ==> v >= bit_weight(n),
        !bit_set(v, n) ==> v + bit_weight(n) < 256,
{
    if n == 0 {
    } else if n == 1 {
    } else if n == 2 {
    } else if n == 3 {
    } else if n == 4 {
    } else if n == 5 {
    } else if n == 6 {
    } else {
    }
}

/// RES n / SET n.
pub fn write_bit(v: u8, n: u8, on: bool) -> (r: u8)
    ensures
        r == with_bit(v, n, on),
{
    let cur = test_bit(v, n);
    if cur == on {
        v
    } else if on {
        proof {
            lemma_bit_room(v, n);
        }
        v + bit_mask(n)
    } else {
        proof {
            lemma_bit_room(v, n);
        }
        v - bit_mask(n)
    }
}

/// A byte that holds two decimal digits.
pub open spec fn is_bcd(v: u8) -> bool {
    v % 16 <= 9 && v / 16 <= 9
}

/// The number 0..=99 that a BCD byte holds.
pub open spec fn bcd_value(v: u8) -> int {
    (v / 16) * 10 + v % 16
}

/// DAA after an ADD or ADC of two BCD bytes yields the BCD of the decimal sum
/// modulo 100, with C set exactly when the sum reached 100.
#[verifier::rlimit(60)]
pub proof fn lemma_daa_after_add(x: u8, y: u8, cin: bool)
    requires
        is_bcd(x),
        is_bcd(y),
    ensures
        ({
            let s = add_spec(x, y, cin);
            let d = daa_spec(s.value, s.flags);
            &&& is_bcd(d.value)
            &&& bcd_value(d.value) == (bcd_value(x) + bcd_value(y) + b2i(cin)) % 100
            &&& d.flags.c == (bcd_value(x) + bcd_value(y) + b2i(cin) >= 100)
            &&& !d.flags.h && !d.flags.n
            &&& d.flags.z == (d.value == 0)
        }),
{
    let x1 = x / 16;
    let x0 = x % 16;
    let y1 = y / 16;
    let y0 = y % 16;
    assert(x == 16 * x1 + x0);
    assert(y == 16 * y1 + y0);
    let lo = x0 + y0 + b2i(cin);
    let hi = x1 + y1;
    let total = 16 * hi + lo;
    let sum = 10 * hi + lo;
    let l = if lo >= 10 { 1int } else { 0 };
    let hh = if hi + l >= 10 { 1int } else { 0 };
    let s = add_spec(x, y, cin);
    assert(s.flags.h == (lo > 15));
    assert(s.flags.c == (total > 255));
    let cc = if total > 255 { 1int } else { 0 };
    assert(s.value == total - 256 * cc);
    assert(s.value == 16 * (hi - 16 * cc) + lo);
    let k = if lo >= 16 { 1int } else { 0 };
    assert(s.value == 16 * (hi - 16 * cc + k) + (lo - 16 * k));
    assert(s.value % 16 == lo - 16 * k);
    let d = daa_spec(s.value, s.flags);
    let low = s.flags.h || (!s.flags.n && s.value % 16 > 9);
    let high = s.flags.c || (!s.flags.n && s.value > 0x99);
    assert(low == (l == 1));
    assert(high == (hh == 1));
    let r1 = hi + l - 10 * hh;
    let r0 = lo - 10 * l;
    assert(s.value + 6 * l + 96 * hh == 16 * r1 + r0 + 256 * (hh - cc));
    assert(d.value == 16 * r1 + r0);
    assert(d.value % 16 == r0 && d.value / 16 == r1);
    assert(bcd_value(x) + bcd_value(y) + b2i(cin) == sum);
    assert(sum >= 100 <==> hh == 1);
    assert(sum % 100 == sum - 100 * hh);
}

/// DAA after a SUB or SBC of two BCD bytes yields the BCD of the decimal
/// difference modulo 100, with C set exactly when it borrowed.
pub proof fn lemma_daa_after_sub(x: u8, y: u8, cin: bool)
    requires
        is_bcd(x),
        is_bcd(y),
    ensures
        ({
            let s = sub_spec(x, y, cin);
            let d = daa_spec(s.value, s.flags);
            &&& is_bcd(d.value)
            &&& bcd_value(d.value) == (bcd_value(x) - bcd_value(y) - b2i(cin) + 100) % 100
            &&& d.flags.c == (bcd_value(x) < bcd_value(y) + b2i(cin))
            &&& !d.flags.h && d.flags.n
            &&& d.flags.z == (d.value == 0)
        }),
{
    let x1 = x / 16;
    let x0 = x % 16;
    let y1 = y / 16;
    let y0 = y % 16;
    assert(x == 16 * x1 + x0);
    assert(y == 16 * y1 + y0);
    let lo = x0 - y0 - b2i(cin);
    let hi = x1 - y1;
    let diff = 16 * hi + lo;
    let dd = 10 * hi + lo;
    let l = if lo < 0 { 1int } else { 0 };
    let hh = if hi - l < 0 { 1int } else { 0 };
    let s = sub_spec(x, y, cin);
    assert(x - y - b2i(cin) == diff);
    assert(s.flags.h == (l == 1));
    assert(diff < 0 <==> hh == 1);
    assert(s.flags.c == (hh == 1));
    assert(s.value == diff + 256 * hh);
    let d = daa_spec(s.value, s.flags);
    let r1 = hi - l + 10 * hh;
    let r0 = lo + 10 * l;
    assert(s.value - 6 * l - 96 * hh + 256 == 16 * r1 + r0 + 256);
    assert(d.value == 16 * r1 + r0);
    assert(d.value % 16 == r0 && d.value / 16 == r1);
    assert(bcd_value(x) - bcd_value(y) - b2i(cin) == dd);
    assert(dd < 0 <==> hh == 1);
    assert((dd + 100) % 100 == dd + 100 * hh);
}

/// JR wraps around the 16-bit address space at both ends of the offset range.
pub proof fn lemma_jr_extremes(pc: u16)
    ensures
        offset_spec(pc, 0x80) == (pc + 65536 - 128) % 65536,
        offset_spec(pc, 0x7f) == (pc + 127) % 65536,
        pc < 128 ==> offset_spec(pc, 0x80) == pc + 65536 - 128,
        pc >= 65536 - 127 ==> offset_spec(pc, 0x7f) == pc + 127 - 65536,
{
}

/// ADD SP,-128 and LD HL,SP+127: H and C come from the unsigned low-nibble and
/// low-byte sums of SP with the offset byte (0x80 and 0x7F).
pub proof fn lemma_sp_offset_extremes(sp: u16)
    ensures
        !add_sp_spec(sp, 0x80).flags.h,
        add_sp_spec(sp, 0x80).flags.c == (sp % 256 >= 128),
        add_sp_spec(sp, 0x7f).flags.h == (sp % 16 >= 1),
        add_sp_spec(sp, 0x7f).flags.c == (sp % 256 >= 129),
        add_sp_spec(sp, 0x80).value == (sp + 65536 - 128) % 65536,
        add_sp_spec(sp, 0x7f).value == (sp + 127) % 65536,
{
}

} // verus!
