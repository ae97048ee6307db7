//! The joypad matrix: buttons in the high nibble, directions in the low nibble,
//! both active-low, read through the select lines of 0xFF00.
use vstd::prelude::*;
use crate::alu::{bit_set, with_bit, test_bit, write_bit};

verus! {

/// What 0xFF00 holds after the CPU writes `v` while the matrix is `pad`.
pub open spec fn joypad_register(v: u8, pad: u8) -> u8 {
    let base = v | 0xcf;
    if !bit_set(v, 5) {
        base & (0xf0 | pad / 16)
    } else if !bit_set(v, 4) {
        base & (0xf0 | pad % 16)
    } else {
        base
    }
}

/// Whether releasing (`up`) or pressing key `bit` is a falling edge on a
/// selected line: a press of a key that was up, with its half (bit 5 for
/// buttons, bit 4 for directions of the 0xFF00 register) selected.
pub open spec fn press_edge(j: Joypad, bit: u8, up: bool) -> bool {
    !up && bit_set(j.keys_spec(), bit) && (if bit > 3 {
        !bit_set(j.value_spec(), 5)
    } else {
        !bit_set(j.value_spec(), 4)
    })
}

pub struct Joypad {
    value: u8,
    joypad: u8,
}

impl Joypad {
    /// The 0xFF00 register.
    pub closed spec fn value_spec(&self) -> u8 {
        self.value
    }

    /// The key matrix: bit 7..4 Start/Select/B/A, bit 3..0 Down/Up/Left/Right; 0 = pressed.
    pub closed spec fn keys_spec(&self) -> u8 {
        self.joypad
    }

    pub fn new() -> (r: Self)
        ensures
            r.value_spec() == 0xcf,
            r.keys_spec() == 0xff,
    {
        Self { value: 0b11001111, joypad: 0xff }
    }

    fn reset_joypad_bit(&mut self, bit: u8) -> (r: bool)
        requires
            bit < 8,
        ensures
            final(self).joypad == with_bit(old(self).joypad, bit, false),
            final(self).value == old(self).value,
            r == (bit_set(old(self).joypad, bit) && (if bit > 3 {
                !bit_set(old(self).value, 5)
            } else {
                !bit_set(old(self).value, 4)
            })),
    {
        let prev = test_bit(self.joypad, bit);
        self.joypad = write_bit(self.joypad, bit, false);
        if prev {
            if bit > 3 {
                !test_bit(self.value, 5)
            } else {
                !test_bit(self.value, 4)
            }
        } else {
            false
        }
    }

    fn set_joypad_bit(&mut self, bit: u8)
        requires
            bit < 8,
        ensures
            final(self).joypad == with_bit(old(self).joypad, bit, true),
            final(self).value == old(self).value,
    {
        self.joypad = write_bit(self.joypad, bit, true);
    }

    pub fn get_joypad(&self) -> (r: u8)
        ensures
            r == self.value_spec(),
    {
        self.value
    }

    /// A CPU write to 0xFF00: the select lines pick which half of the matrix
    /// shows in the low nibble.
    pub fn set_joypad(&mut self, value: u8)
        ensures
            final(self).value_spec() == joypad_register(value, old(self).keys_spec()),
            final(self).keys_spec() == old(self).keys_spec(),
    {
        let buttons = test_bit(value, 5);
        let dpad = test_bit(value, 4);
        let mut v = value | 0xcf;
        if !buttons {
            v = v & (0xf0 | self.joypad / 16);
        } else if !dpad {
            v = v & (0xf0 | self.joypad % 16);
        }
        self.value = v;
    }

    /// A key (0 Right, 1 Left, 2 Up, 3 Down, 4 A, 5 B, 6 Select, 7 Start) was
    /// released (`up`) or pressed; returns whether the joypad interrupt is raised.
    pub fn handle_input(&mut self, bit: u8, up: bool) -> (r: bool)
        requires
            bit < 8,
        ensures
            final(self).keys_spec() == with_bit(old(self).keys_spec(), bit, up),
            final(self).value_spec() == old(self).value_spec(),
            r == press_edge(*old(self), bit, up),
            r == (!up && bit_set(old(self).keys_spec(), bit) && (if bit > 3 {
                !bit_set(old(self).value_spec(), 5)
            } else {
                !bit_set(old(self).value_spec(), 4)
            })),
    {
        if up {
            self.set_joypad_bit(bit);
            false
        } else {
            self.reset_joypad_bit(bit)
        }
    }
}

} // verus!
