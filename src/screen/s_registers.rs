//! The PPU's own registers: palettes, LCDC, STAT, and the decoded-tile cache.
use vstd::prelude::*;
use crate::alu::{bit_set, test_bit};

verus! {

/// Tiles addressable in VRAM.
pub const TILE_COUNT: usize = 384;

/// The grey level of a 2-bit shade number.
pub open spec fn shade_spec(k: int) -> u8 {
    if k == 0 {
        0xff
    } else if k == 1 {
        0xaa
    } else if k == 2 {
        0x55
    } else {
        0x00
    }
}

/// The grey level a palette byte gives to color index `index` (0..=3).
pub open spec fn palette_color(value: u8, index: int) -> u8 {
    let w = if index == 0 {
        1int
    } else if index == 1 {
        4
    } else if index == 2 {
        16
    } else {
        64
    };
    shade_spec((value as int / w) % 4)
}

fn shade(k: u8) -> (r: u8)
    ensures
        r == shade_spec(k as int),
{
    if k == 0 {
        0xff
    } else if k == 1 {
        0xaa
    } else if k == 2 {
        0x55
    } else {
        0x00
    }
}

/// A palette register (BGP, OBP0, OBP1) with its four shades looked up.
pub struct Palette {
    value: u8,
    lookup: [u8; 4],
}

impl Palette {
    pub closed spec fn value_spec(&self) -> u8 {
        self.value
    }

    pub closed spec fn wf(&self) -> bool {
        forall|i: int| 0 <= i < 4 ==> #[trigger] self.lookup@[i] == palette_color(self.value, i)
    }

    fn lookup_of(value: u8) -> (r: [u8; 4])
        ensures
            forall|i: int| 0 <= i < 4 ==> #[trigger] r@[i] == palette_color(value, i),
    {
        let r = [shade(value % 4), shade((value / 4) % 4), shade((value / 16) % 4), shade((value / 64) % 4)];
        assert(r@[0] == palette_color(value, 0));
        assert(r@[1] == palette_color(value, 1));
        assert(r@[2] == palette_color(value, 2));
        assert(r@[3] == palette_color(value, 3));
        r
    }

    pub fn new(value: u8) -> (r: Self)
        ensures
            r.wf(),
            r.value_spec() == value,
    {
        Self { value, lookup: Self::lookup_of(value) }
    }

    /// Stores a new palette byte; returns whether it differs from the old one.
    pub fn set(&mut self, value: u8) -> (r: bool)
        requires
            old(self).wf(),
        ensures
            final(self).wf(),
            final(self).value_spec() == value,
            r == (old(self).value_spec() != value),
            !r ==> *final(self) == *old(self),
    {
        if self.value == value {
            return false;
        }
        self.value = value;
        self.lookup = Self::lookup_of(value);
        true
    }

    pub fn get(&self) -> (r: u8)
        ensures
            r == self.value_spec(),
    {
        self.value
    }

    pub fn get_color(&self, index: u8) -> (r: u8)
        requires
            self.wf(),
            index < 4,
        ensures
            r == palette_color(self.value_spec(), index as int),
    {
        self.lookup[index as usize]
    }
}

/// The LCD control register and the switches it holds.
pub struct LCDC {
    pub value: u8,
    pub lcd_enable: bool,
    pub windowmap_select: bool,
    pub window_enable: bool,
    pub tiledata_select: bool,
    pub backgroundmap_select: bool,
    pub sprite_height: bool,
    pub sprite_enable: bool,
    pub background_enable: bool,
    /// Offset in VRAM of the background tile map (0x1800 or 0x1C00).
    pub backgroundmap_offset: u16,
    /// Offset in VRAM of the window tile map (0x1800 or 0x1C00).
    pub windowmap_offset: u16,
}

impl LCDC {
    /// Every switch agrees with its bit of `value`.
    pub open spec fn wf(&self) -> bool {
        &&& self.lcd_enable == bit_set(self.value, 7)
        &&& self.windowmap_select == bit_set(self.value, 6)
        &&& self.window_enable == bit_set(self.value, 5)
        &&& self.tiledata_select == bit_set(self.value, 4)
        &&& self.backgroundmap_select == bit_set(self.value, 3)
        &&& self.sprite_height == bit_set(self.value, 2)
        &&& self.sprite_enable == bit_set(self.value, 1)
        &&& self.background_enable == bit_set(self.value, 0)
        &&& self.backgroundmap_offset == if self.backgroundmap_select { 0x1c00u16 } else { 0x1800u16 }
        &&& self.windowmap_offset == if self.windowmap_select { 0x1c00u16 } else { 0x1800u16 }
    }

    pub fn new() -> (r: Self)
        ensures
            r.wf(),
            r.value == 0,
    {
        Self {
            value: 0,
            lcd_enable: false,
            windowmap_select: false,
            window_enable: false,
            tiledata_select: false,
            backgroundmap_select: false,
            sprite_height: false,
            sprite_enable: false,
            background_enable: false,
            backgroundmap_offset: 0x1800,
            windowmap_offset: 0x1800,
        }
    }

    pub fn set(&mut self, value: u8)
        ensures
            final(self).wf(),
            final(self).value == value,
    {
        self.value = value;
        self.lcd_enable = test_bit(value, 7);
        self.windowmap_select = test_bit(value, 6);
        self.window_enable = test_bit(value, 5);
        self.tiledata_select = test_bit(value, 4);
        self.backgroundmap_select = test_bit(value, 3);
        self.sprite_height = test_bit(value, 2);
        self.sprite_enable = test_bit(value, 1);
        self.background_enable = test_bit(value, 0);
        self.backgroundmap_offset = if !self.backgroundmap_select { 0x1800 } else { 0x1c00 };
        self.windowmap_offset = if !self.windowmap_select { 0x1800 } else { 0x1c00 };
    }
}

/// The LCD status register: mode in bits 1..0, LYC=LY in bit 2, interrupt
/// enables in bits 6..3.
pub struct STAT {
    pub value: u8,
    pub mode: u8,
}

impl STAT {
    pub open spec fn wf(&self) -> bool {
        &&& self.mode <= 3
        &&& self.value % 4 == self.mode
    }

    pub fn new() -> (r: Self)
        ensures
            r.wf(),
            r.value == 0x80,
            r.mode == 0,
    {
        Self { value: 0b1000_0000, mode: 0 }
    }

    /// A CPU write: only the interrupt enables (bits 6..3) are writable.
    pub fn set(&mut self, value: u8)
        requires
            old(self).wf(),
        ensures
            final(self).wf(),
            final(self).value == (old(self).value & 0x87) | (value & 0x78),
            final(self).mode == old(self).mode,
    {
        let v = self.value;
        let newvalue = value & 0b0111_1000;
        let kept = v & 0b1000_0111;
        assert(kept % 4 == v % 4 && (kept | newvalue) % 4 == kept % 4) by (bit_vector)
            requires
                kept == v & 0x87,
                newvalue == value & 0x78,
        ;
        self.value = kept | newvalue;
    }

    /// Enters `mode`; returns whether this raises the STAT interrupt (the
    /// mode's enable bit is set, and the mode changed).
    pub fn set_mode(&mut self, mode: u8) -> (r: bool)
        requires
            old(self).wf(),
            mode <= 3,
        ensures
            final(self).wf(),
            final(self).mode == mode,
            final(self).value == old(self).value - old(self).mode + mode,
            r == (old(self).mode != mode && mode != 3 && bit_set(old(self).value, (mode + 3) as u8)),
    {
        if self.mode == mode {
            return false;
        }
        let ghost before = self.value;
        self.mode = mode;
        self.value = self.value - self.value % 4 + mode;
        assert(bit_set(self.value, (mode + 3) as u8) == bit_set(before, (mode + 3) as u8)) by {
            let w: int = if mode == 0 { 8 } else if mode == 1 { 16 } else if mode == 2 { 32 } else { 64 };
            assert(crate::alu::bit_weight((mode + 3) as u8) == w);
        }
        mode != 3 && test_bit(self.value, mode + 3)
    }

    /// Compares LY with LYC, updating the coincidence bit; returns whether the
    /// STAT interrupt is raised (equal, with bit 6 enabled).
    pub fn update_lyc(&mut self, lyc: u8, ly: u8) -> (r: bool)
        requires
            old(self).wf(),
        ensures
            final(self).wf(),
            final(self).mode == old(self).mode,
            bit_set(final(self).value, 2) == (lyc == ly),
            forall|k: u8| k != 2 && k < 8 ==> bit_set(final(self).value, k) == bit_set(old(self).value, k),
            r == (lyc == ly && bit_set(old(self).value, 6)),
    {
        let v = self.value;
        let nv = if lyc == ly { v | 0b100 } else { v & 0b1111_1011 };
        assert(nv % 4 == v % 4 && ((nv / 4) % 2 == 1) == (lyc == ly)) by (bit_vector)
            requires
                nv == if lyc == ly { v | 4 } else { v & 0xfb },
        ;
        assert forall|k: u8| k != 2 && k < 8 implies bit_set(nv, k) == bit_set(v, k) by {
            assert((nv / 1) % 2 == (v / 1) % 2 && (nv / 2) % 2 == (v / 2) % 2 && (nv / 8) % 2 == (v / 8) % 2
                && (nv / 16) % 2 == (v / 16) % 2 && (nv / 32) % 2 == (v / 32) % 2 && (nv / 64) % 2 == (v / 64)
                % 2 && (nv / 128) % 2 == (v / 128) % 2) by (bit_vector)
                requires
                    nv == if lyc == ly { v | 4 } else { v & 0xfb },
            ;
        }
        self.value = nv;
        lyc == ly && test_bit(v, 6)
    }
}

/// The 2-bit color index of pixel `i` (row i / 8, column i % 8) of tile `t`
/// in `vram`: bit 7 - column of the row's low byte is the index's low bit,
/// of its high byte the high bit.
pub open spec fn tile_pixel(vram: Seq<u8>, t: int, i: int) -> u8 {
    let row = i / 8;
    let col = i % 8;
    let lo = vram[t * 16 + 2 * row];
    let hi = vram[t * 16 + 2 * row + 1];
    let b = (7 - col) as u8;
    ((if bit_set(hi, b) { 2int } else { 0 }) + (if bit_set(lo, b) { 1int } else { 0 })) as u8
}

/// Decoded tiles, each 64 color indices, with a flag per tile for whether its
/// entry is current.
pub struct TileCache {
    tile_state: Vec<bool>,
    tile_cache: Vec<Vec<u8>>,
}

impl TileCache {
    pub closed spec fn valid(&self, t: int) -> bool {
        self.tile_state@[t]
    }

    pub closed spec fn pixels(&self, t: int) -> Seq<u8> {
        self.tile_cache@[t]@
    }

    pub closed spec fn wf(&self) -> bool {
        &&& self.tile_state@.len() == TILE_COUNT
        &&& self.tile_cache@.len() == TILE_COUNT
        &&& forall|t: int| 0 <= t < TILE_COUNT ==> (#[trigger] self.tile_cache@[t])@.len() == 64
    }

    /// Every tile marked current holds the decoding of `vram`.
    pub open spec fn coherent(&self, vram: Seq<u8>) -> bool {
        forall|t: int, i: int|
            0 <= t < TILE_COUNT && 0 <= i < 64 && #[trigger] self.valid(t) ==> #[trigger] self.pixels(t)[i]
                == tile_pixel(vram, t, i)
    }

    pub fn new() -> (r: Self)
        ensures
            r.wf(),
            forall|t: int| 0 <= t < TILE_COUNT ==> !#[trigger] r.valid(t),
    {
        let mut tile_state: Vec<bool> = Vec::new();
        let mut tile_cache: Vec<Vec<u8>> = Vec::new();
        let mut i: usize = 0;
        while i < TILE_COUNT
            invariant
                i <= TILE_COUNT,
                tile_state@.len() == i,
                tile_cache@.len() == i,
                forall|t: int| 0 <= t < i ==> !tile_state@[t],
                forall|t: int| 0 <= t < i ==> (#[trigger] tile_cache@[t])@.len() == 64,
            decreases TILE_COUNT - i,
        {
            tile_state.push(false);
            tile_cache.push(vec![0u8; 64]);
            i = i + 1;
        }
        Self { tile_state, tile_cache }
    }

    /// Makes tile `tile_index` current, decoding it from `vram` if it was not.
    pub fn update_tile(&mut self, tile_index: usize, vram: &Vec<u8>)
        requires
            old(self).wf(),
            old(self).coherent(vram@),
            tile_index < TILE_COUNT,
            vram@.len() == 0x2000,
        ensures
            final(self).wf(),
            final(self).coherent(vram@),
            final(self).valid(tile_index as int),
            forall|t: int| 0 <= t < TILE_COUNT && old(self).valid(t) ==> #[trigger] final(self).valid(t),
            forall|t: int| 0 <= t < TILE_COUNT && t != tile_index ==> #[trigger] final(self).valid(t) == old(self).valid(t),
            old(self).valid(tile_index as int) ==> *final(self) == *old(self),
            forall|t: int| 0 <= t < TILE_COUNT && t != tile_index ==> #[trigger] final(self).pixels(t) == old(self).pixels(t),
            forall|i: int| 0 <= i < 64 ==> #[trigger] final(self).pixels(tile_index as int)[i] == tile_pixel(
                vram@,
                tile_index as int,
                i,
            ),
    {
        if self.tile_state[tile_index] {
            proof {
                assert forall|i: int| 0 <= i < 64 implies #[trigger] self.pixels(tile_index as int)[i] == tile_pixel(
                    vram@,
                    tile_index as int,
                    i,
                ) by {
                    assert(self.valid(tile_index as int));
                }
            }
            return;
        }
        let mut px: Vec<u8> = Vec::new();
        let mut i: usize = 0;
        while i < 64
            invariant
                i <= 64,
                tile_index < TILE_COUNT,
                vram@.len() == 0x2000,
                px@.len() == i,
                forall|j: int| 0 <= j < i ==> #[trigger] px@[j] == tile_pixel(vram@, tile_index as int, j),
            decreases 64 - i,
        {
            let row = i / 8;
            let col = i % 8;
            let lo = vram[tile_index * 16 + 2 * row];
            let hi = vram[tile_index * 16 + 2 * row + 1];
            let b = (7 - col) as u8;
            let v: u8 = (if test_bit(hi, b) { 2 } else { 0 }) + (if test_bit(lo, b) { 1 } else { 0 });
            px.push(v);
            i = i + 1;
        }
        self.tile_cache.set(tile_index, px);
        self.tile_state.set(tile_index, true);
        assert forall|t: int, i: int|
            0 <= t < TILE_COUNT && 0 <= i < 64 && #[trigger] self.valid(t) implies #[trigger] self.pixels(t)[i]
                == tile_pixel(vram@, t, i) by {
            if t != tile_index {
                assert(old(self).valid(t));
                assert(old(self).pixels(t)[i] == tile_pixel(vram@, t, i));
            }
        }
    }

    /// The color index of pixel `i` of a current tile.
    pub fn pixel(&self, tile_index: usize, i: usize) -> (r: u8)
        requires
            self.wf(),
            tile_index < TILE_COUNT,
            i < 64,
        ensures
            r == self.pixels(tile_index as int)[i as int],
    {
        self.tile_cache[tile_index][i]
    }

    /// Marks every tile stale.
    pub fn clear_cache(&mut self)
        requires
            old(self).wf(),
        ensures
            final(self).wf(),
            forall|t: int| 0 <= t < TILE_COUNT ==> !#[trigger] final(self).valid(t),
            forall|t: int| 0 <= t < TILE_COUNT ==> #[trigger] final(self).pixels(t) == old(self).pixels(t),
    {
        let mut i: usize = 0;
        while i < TILE_COUNT
            invariant
                i <= TILE_COUNT,
                self.wf(),
                self.tile_cache@ == old(self).tile_cache@,
                forall|t: int| 0 <= t < i ==> !self.tile_state@[t],
            decreases TILE_COUNT - i,
        {
            self.tile_state.set(i, false);
            i = i + 1;
        }
    }

    /// Marks tile `tile_index` stale.
    pub fn clear_tile(&mut self, tile_index: usize)
        requires
            old(self).wf(),
            tile_index < TILE_COUNT,
        ensures
            final(self).wf(),
            !final(self).valid(tile_index as int),
            forall|t: int| 0 <= t < TILE_COUNT && t != tile_index ==> #[trigger] final(self).valid(t) == old(self).valid(t),
            forall|t: int| 0 <= t < TILE_COUNT ==> #[trigger] final(self).pixels(t) == old(self).pixels(t),
    {
        self.tile_state.set(tile_index, false);
    }
}

} // verus!
