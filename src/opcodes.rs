//! The opcode table: length in bytes and dot cycles (taken and not taken)
//! of every unprefixed instruction, and the cycles of the 0xCB-prefixed ones.
use vstd::prelude::*;

verus! {

/// Table entry of an unprefixed opcode.
#[derive(Clone, Copy, Debug, PartialEq, Eq, Structural)]
pub struct OpInfo {
    /// Length including the opcode: 1, 2 or 3.
    pub bytes: u8,
    /// Dots when a conditional branch is taken (or for any other instruction).
    pub cycles: u8,
    /// Dots when a conditional branch is not taken.
    pub cycles_untaken: u8,
}

impl OpInfo {
    pub open spec fn wf(&self) -> bool {
        &&& 1 <= self.bytes <= 3
        &&& self.cycles % 4 == 0 && 4 <= self.cycles <= 24
        &&& self.cycles_untaken % 4 == 0 && 4 <= self.cycles_untaken <= self.cycles
    }
}

/// The opcodes that do not exist; they execute as a one-byte no-op.
pub open spec fn is_illegal(op: u8) -> bool {
    op == 0xd3 || op == 0xdb || op == 0xdd || op == 0xe3 || op == 0xe4 || op == 0xeb || op == 0xec || op == 0xed
        || op == 0xf4 || op == 0xfc || op == 0xfd
}

/// Length in bytes of unprefixed opcode `op`.
pub open spec fn op_len(op: u8) -> u8 {
    if op == 0x01 || op == 0x11 || op == 0x21 || op == 0x31 || op == 0x08 || op == 0xc2 || op == 0xc3 || op
        == 0xc4 || op == 0xca || op == 0xcc || op == 0xcd || op == 0xd2 || op == 0xd4 || op == 0xda || op == 0xdc
        || op == 0xea || op == 0xfa {
        3
    } else if (op < 0x40 && op % 8 == 6) || op == 0x10 || op == 0x18 || op == 0x20 || op == 0x28 || op == 0x30
        || op == 0x38 || (op >= 0xc0 && op % 8 == 6) || op == 0xe0 || op == 0xf0 || op == 0xe8 || op == 0xf8 {
        2
    } else {
        1
    }
}

/// Dots of unprefixed opcode `op`: (branch taken or unconditional, not taken).
pub open spec fn op_cycles(op: u8) -> (u8, u8) {
    if op == 0x01 || op == 0x11 || op == 0x21 || op == 0x31 {
        (12u8, 12u8)
    } else if (0x02 <= op && op <= 0x03) || (0x09 <= op && op <= 0x0b) || (0x12 <= op && op <= 0x13) || (0x19 <= op && op <= 0x1b) || (0x22 <= op && op <= 0x23) || (0x29 <= op && op <= 0x2b) || (0x32 <= op && op <= 0x33) || (0x39 <= op && op <= 0x3b) || op == 0x46 || op == 0x4e || op == 0x56 || op == 0x5e || op == 0x66 || op == 0x6e || (0x70 <= op && op <= 0x75) || op == 0x77 || op == 0x7e || op == 0x86 || op == 0x8e || op == 0x96 || op == 0x9e || op == 0xa6 || op == 0xae || op == 0xb6 || op == 0xbe || op == 0xe2 || op == 0xf2 || op == 0xf9 {
        (8u8, 8u8)
    } else if op == 0x06 || op == 0x0e || op == 0x16 || op == 0x1e || op == 0x26 || op == 0x2e || op == 0x3e || op == 0xc6 || op == 0xce || op == 0xd6 || op == 0xde || op == 0xe6 || op == 0xee || op == 0xf6 || op == 0xfe {
        (8u8, 8u8)
    } else if op == 0x08 {
        (20u8, 20u8)
    } else if op == 0x10 {
        (4u8, 4u8)
    } else if op == 0x18 || op == 0x36 || op == 0xe0 || op == 0xf0 || op == 0xf8 {
        (12u8, 12u8)
    } else if op == 0x20 || op == 0x28 || op == 0x30 || op == 0x38 {
        (12u8, 8u8)
    } else if (0x34 <= op && op <= 0x35) || op == 0xc1 || op == 0xd1 || op == 0xe1 || op == 0xf1 {
        (12u8, 12u8)
    } else if op == 0xc0 || op == 0xc8 || op == 0xd0 || op == 0xd8 {
        (20u8, 8u8)
    } else if op == 0xc2 || op == 0xca || op == 0xd2 || op == 0xda {
        (16u8, 12u8)
    } else if op == 0xc3 || op == 0xea || op == 0xfa {
        (16u8, 16u8)
    } else if op == 0xc4 || op == 0xcc || op == 0xd4 || op == 0xdc {
        (24u8, 12u8)
    } else if op == 0xc5 || op == 0xc7 || op == 0xc9 || op == 0xcf || op == 0xd5 || op == 0xd7 || op == 0xd9 || op == 0xdf || op == 0xe5 || op == 0xe7 || op == 0xef || op == 0xf5 || op == 0xf7 || op == 0xff {
        (16u8, 16u8)
    } else if op == 0xcd {
        (24u8, 24u8)
    } else if op == 0xe8 {
        (16u8, 16u8)
    } else {
        (4u8, 4u8)
    }
}

/// The conditional branches: JR, RET, JP and CALL on NZ, Z, NC, C.
pub open spec fn is_conditional(op: u8) -> bool {
    (op >= 0x20 && op < 0x40 && op % 8 == 0) || (op >= 0xc0 && op < 0xe0 && (op % 8 == 0 || op % 8 == 2 || op % 8
        == 4))
}

pub fn opcode_info(op: u8) -> (r: OpInfo)
    ensures
        r.wf(),
        r.bytes == op_len(op),
        (r.cycles, r.cycles_untaken) == op_cycles(op),
        !is_conditional(op) ==> r.cycles == r.cycles_untaken,
        is_illegal(op) ==> r == (OpInfo { bytes: 1, cycles: 4, cycles_untaken: 4 }),
{
    match op {
        0x01 | 0x11 | 0x21 | 0x31 => OpInfo { bytes: 3, cycles: 12, cycles_untaken: 12 },
        0x02..=0x03 | 0x09..=0x0b | 0x12..=0x13 | 0x19..=0x1b | 0x22..=0x23 | 0x29..=0x2b | 0x32..=0x33 | 0x39..=0x3b |
        0x46 | 0x4e | 0x56 | 0x5e | 0x66 | 0x6e | 0x70..=0x75 | 0x77 |
        0x7e | 0x86 | 0x8e | 0x96 | 0x9e | 0xa6 | 0xae | 0xb6 |
        0xbe | 0xe2 | 0xf2 | 0xf9 => OpInfo { bytes: 1, cycles: 8, cycles_untaken: 8 },
        0x06 | 0x0e | 0x16 | 0x1e | 0x26 | 0x2e | 0x3e | 0xc6 |
        0xce | 0xd6 | 0xde | 0xe6 | 0xee | 0xf6 | 0xfe => OpInfo { bytes: 2, cycles: 8, cycles_untaken: 8 },
        0x08 => OpInfo { bytes: 3, cycles: 20, cycles_untaken: 20 },
        0x10 => OpInfo { bytes: 2, cycles: 4, cycles_untaken: 4 },
        0x18 | 0x36 | 0xe0 | 0xf0 | 0xf8 => OpInfo { bytes: 2, cycles: 12, cycles_untaken: 12 },
        0x20 | 0x28 | 0x30 | 0x38 => OpInfo { bytes: 2, cycles: 12, cycles_untaken: 8 },
        0x34..=0x35 | 0xc1 | 0xd1 | 0xe1 | 0xf1 => OpInfo { bytes: 1, cycles: 12, cycles_untaken: 12 },
        0xc0 | 0xc8 | 0xd0 | 0xd8 => OpInfo { bytes: 1, cycles: 20, cycles_untaken: 8 },
        0xc2 | 0xca | 0xd2 | 0xda => OpInfo { bytes: 3, cycles: 16, cycles_untaken: 12 },
        0xc3 | 0xea | 0xfa => OpInfo { bytes: 3, cycles: 16, cycles_untaken: 16 },
        0xc4 | 0xcc | 0xd4 | 0xdc => OpInfo { bytes: 3, cycles: 24, cycles_untaken: 12 },
        0xc5 | 0xc7 | 0xc9 | 0xcf | 0xd5 | 0xd7 | 0xd9 | 0xdf |
        0xe5 | 0xe7 | 0xef | 0xf5 | 0xf7 | 0xff => OpInfo { bytes: 1, cycles: 16, cycles_untaken: 16 },
        0xcd => OpInfo { bytes: 3, cycles: 24, cycles_untaken: 24 },
        0xe8 => OpInfo { bytes: 2, cycles: 16, cycles_untaken: 16 },
        _ => OpInfo { bytes: 1, cycles: 4, cycles_untaken: 4 },
    }
}

/// Dots of a 0xCB-prefixed instruction (prefix included): 8 on a register,
/// 16 on (HL), 12 for BIT on (HL).
pub open spec fn cb_cycles_spec(op: u8) -> u8 {
    if op % 8 != 6 {
        8
    } else if 0x40 <= op < 0x80 {
        12
    } else {
        16
    }
}

pub fn cb_cycles(op: u8) -> (r: u8)
    ensures
        r == cb_cycles_spec(op),
        r % 4 == 0 && 8 <= r <= 16,
{
    if op % 8 != 6 {
        8
    } else if 0x40 <= op && op < 0x80 {
        12
    } else {
        16
    }
}

} // verus!
