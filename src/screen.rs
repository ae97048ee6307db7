//! The picture processing unit: VRAM/OAM, the scanline state machine and the
//! rasterizer.
use vstd::prelude::*;
use crate::alu::{bit_set, test_bit};
use crate::screen::s_registers::{
    palette_color, tile_pixel, Palette, TileCache, LCDC, STAT, TILE_COUNT,
};

pub mod s_registers;

verus! {

pub const SCREEN_WIDTH: usize = 160;

pub const SCREEN_HEIGHT: usize = 144;

/// Dots in one scanline.
pub const LINE_DOTS: i32 = 456;

/// Where the scanline state machine stands: the line, the current mode and
/// the mode it enters when the current one's dots run out.
#[derive(Clone, Copy, Debug, PartialEq, Eq, Structural)]
pub struct PpuPos {
    pub ly: u8,
    pub mode: u8,
    pub next_mode: u8,
}

/// Dots spent in a mode each time it is entered.
pub open spec fn mode_dots(mode: u8) -> int {
    if mode == 2 {
        80
    } else if mode == 3 {
        172
    } else if mode == 0 {
        204
    } else {
        456
    }
}

/// One mode transition of the scanline state machine.
pub open spec fn ppu_step(p: PpuPos) -> PpuPos {
    if p.ly == 153 {
        PpuPos { ly: 0, mode: 2, next_mode: 3 }
    } else if p.next_mode == 2 {
        PpuPos { ly: (p.ly + 1) as u8, mode: 2, next_mode: 3 }
    } else if p.next_mode == 3 {
        PpuPos { ly: p.ly, mode: 3, next_mode: 0 }
    } else if p.next_mode == 0 {
        PpuPos { ly: p.ly, mode: 0, next_mode: if p.ly < 143 { 2 } else { 1 } }
    } else {
        PpuPos { ly: (p.ly + 1) as u8, mode: 1, next_mode: 1 }
    }
}

/// Whether the transition out of `p` starts the vertical blank (line 144).
pub open spec fn enters_vblank(p: PpuPos) -> bool {
    p.ly != 153 && p.next_mode == 1 && p.ly == 143
}

/// The positions the machine can be in.
pub open spec fn pos_ok(p: PpuPos) -> bool {
    &&& p.ly <= 153
    &&& p.mode <= 3
    &&& p.next_mode <= 3
    &&& p.next_mode == 2 ==> p.ly < 143
    &&& (p.next_mode == 3 || p.next_mode == 0) ==> p.ly <= 143
    &&& p.next_mode == 1 ==> 143 <= p.ly
}

/// Transitions taken while the dot budget is used up: the position, the
/// budget and whether the vertical blank started on the way.
pub open spec fn settle(p: PpuPos, counter: int, fuel: nat) -> (PpuPos, int, bool)
    decreases fuel,
{
    if fuel == 0 || counter > 0 {
        (p, counter, false)
    } else {
        let q = ppu_step(p);
        let r = settle(q, counter + mode_dots(q.mode), (fuel - 1) as nat);
        (r.0, r.1, r.2 || enters_vblank(p))
    }
}

/// `n` transitions from `p`: where they end, the dots spent in the positions
/// left, and how many vertical blanks started.
pub open spec fn walk(p: PpuPos, n: nat) -> (PpuPos, int, int)
    decreases n,
{
    if n == 0 {
        (p, 0, 0)
    } else {
        let r = walk(ppu_step(p), (n - 1) as nat);
        (r.0, r.1 + mode_dots(p.mode), r.2 + if enters_vblank(p) { 1int } else { 0 })
    }
}

pub open spec fn line_start(ly: u8) -> PpuPos {
    PpuPos { ly: ly, mode: 2, next_mode: 3 }
}

pub proof fn lemma_step_ok(p: PpuPos)
    requires
        pos_ok(p),
    ensures
        pos_ok(ppu_step(p)),
{
}

/// A visible line runs through OAM scan, pixel transfer and HBlank in 456 dots
/// and then starts the next line (or, after line 143, the vertical blank).
pub proof fn lemma_visible_line(ly: u8)
    requires
        ly <= 143,
    ensures
        mode_dots(2) + mode_dots(3) + mode_dots(0) == 456,
        walk(line_start(ly), 3).1 == 456,
        ly < 143 ==> walk(line_start(ly), 3) == (line_start((ly + 1) as u8), 456int, 0int),
        ly == 143 ==> walk(line_start(ly), 3) == (PpuPos { ly: 144, mode: 1, next_mode: 1 }, 456int, 1int),
{
    let s0 = line_start(ly);
    let s1 = ppu_step(s0);
    let s2 = ppu_step(s1);
    let s3 = ppu_step(s2);
    assert(walk(s3, 0) == (s3, 0int, 0int));
    assert(walk(s2, 1) == (s3, mode_dots(s2.mode), if enters_vblank(s2) { 1int } else { 0 }));
    assert(walk(s1, 2).1 == mode_dots(s2.mode) + mode_dots(s1.mode));
}

proof fn lemma_walk_split(p: PpuPos, a: nat, b: nat)
    ensures
        walk(p, a + b) == ({
            let x = walk(p, a);
            let y = walk(x.0, b);
            (y.0, x.1 + y.1, x.2 + y.2)
        }),
    decreases a,
{
    if a > 0 {
        lemma_walk_split(ppu_step(p), (a - 1) as nat, b);
        assert((a + b - 1) as nat == ((a - 1) as nat + b) as nat);
    }
}

proof fn lemma_visible_lines(k: nat)
    requires
        k <= 143,
    ensures
        walk(line_start(0), 3 * k) == (line_start(k as u8), (456 * k) as int, 0int),
    decreases k,
{
    if k > 0 {
        lemma_visible_lines((k - 1) as nat);
        lemma_walk_split(line_start(0), 3 * (k - 1) as nat, 3);
        assert(3 * k == 3 * (k - 1) as nat + 3) by (nonlinear_arith) requires k > 0;
        lemma_visible_line((k - 1) as u8);
    }
}

proof fn lemma_blank_lines(j: nat)
    requires
        j <= 9,
    ensures
        walk(PpuPos { ly: 144, mode: 1, next_mode: 1 }, j) == (PpuPos { ly: (144 + j) as u8, mode: 1, next_mode: 1 }, (456 * j) as int, 0int),
    decreases j,
{
    if j > 0 {
        lemma_blank_lines((j - 1) as nat);
        let p = PpuPos { ly: 144, mode: 1, next_mode: 1 };
        lemma_walk_split(p, (j - 1) as nat, 1);
        let q = PpuPos { ly: (144 + j - 1) as u8, mode: 1, next_mode: 1 };
        assert(walk(ppu_step(q), 0) == (ppu_step(q), 0int, 0int));
    }
}

/// A frame is 154 lines: from the start of line 0 the machine comes back to
/// the start of line 0 after 70224 dots, having started the vertical blank
/// exactly once.
pub proof fn lemma_frame()
    ensures
        walk(line_start(0), 442) == (line_start(0), 70224int, 1int),
{
    lemma_visible_lines(143);
    lemma_visible_line(143);
    lemma_walk_split(line_start(0), 429, 3);
    lemma_blank_lines(9);
    lemma_walk_split(line_start(0), 432, 9);
    let last = PpuPos { ly: 153, mode: 1, next_mode: 1 };
    assert(walk(ppu_step(last), 0) == (line_start(0), 0int, 0int));
    assert(walk(last, 1) == (line_start(0), 456int, 0int));
    lemma_walk_split(line_start(0), 441, 1);
}

/// Whether column `x` of line `ly` shows the window.
pub open spec fn use_window(lcdc: LCDC, wy: u8, wx: u8, ly: u8, x: int) -> bool {
    lcdc.window_enable && wy <= ly && x >= wx - 7
}

/// Tile-map byte address (in VRAM) for map pixel (`xp`, `yp`).
pub open spec fn map_addr(offset: u16, xp: int, yp: int) -> int {
    offset + (yp / 8 * 32) % 0x400 + (xp / 8) % 32
}

/// The tile number a map entry names, by the addressing that LCDC bit 4 picks.
pub open spec fn tile_number(entry: u8, unsigned_mode: bool) -> int {
    if unsigned_mode || entry >= 0x80 {
        entry as int
    } else {
        entry + 0x100
    }
}

pub struct Screen {
    pub vram: Vec<u8>,
    pub oam: Vec<u8>,
    pub lcdc: LCDC,
    pub stat: STAT,
    pub scy: u8,
    pub scx: u8,
    pub wy: u8,
    pub wy_counter: u8,
    pub wx: u8,
    pub ly: u8,
    pub lyc: u8,
    pub scan_counter: i32,
    pub next_mode: u8,
    pub bgp: Palette,
    pub obp0: Palette,
    pub obp1: Palette,
    /// RGBA, 160 x 144 pixels, row by row.
    pub screen_buffer: Vec<u8>,
    /// The background color index of each pixel, row by row.
    pub screen_buffer_color: Vec<u8>,
    pub tile_cache: TileCache,
    pub frame_done: bool,
}

impl Screen {
    pub open spec fn pos(&self) -> PpuPos {
        PpuPos { ly: self.ly, mode: self.stat.mode, next_mode: self.next_mode }
    }

    pub open spec fn wf(&self) -> bool {
        &&& self.vram@.len() == 0x2000
        &&& self.oam@.len() == 0xa0
        &&& self.screen_buffer@.len() == SCREEN_WIDTH * SCREEN_HEIGHT * 4
        &&& self.screen_buffer_color@.len() == SCREEN_WIDTH * SCREEN_HEIGHT
        &&& self.lcdc.wf()
        &&& self.stat.wf()
        &&& self.bgp.wf() && self.obp0.wf() && self.obp1.wf()
        &&& self.tile_cache.wf()
        &&& self.tile_cache.coherent(self.vram@)
        &&& pos_ok(self.pos())
        &&& 0 <= self.scan_counter <= LINE_DOTS
    }

    /// The invariant with the dot budget allowed below zero while transitions
    /// are pending.
    pub open spec fn wf_moving(&self) -> bool {
        &&& self.vram@.len() == 0x2000
        &&& self.oam@.len() == 0xa0
        &&& self.screen_buffer@.len() == SCREEN_WIDTH * SCREEN_HEIGHT * 4
        &&& self.screen_buffer_color@.len() == SCREEN_WIDTH * SCREEN_HEIGHT
        &&& self.lcdc.wf()
        &&& self.stat.wf()
        &&& self.bgp.wf() && self.obp0.wf() && self.obp1.wf()
        &&& self.tile_cache.wf()
        &&& self.tile_cache.coherent(self.vram@)
        &&& pos_ok(self.pos())
        &&& -256 < self.scan_counter <= LINE_DOTS
    }

    /// What stays fixed while a line is drawn.
    pub open spec fn same_except_pixels(&self, other: &Screen) -> bool {
        &&& self.vram@ == other.vram@
        &&& self.oam@ == other.oam@
        &&& self.lcdc == other.lcdc
        &&& self.stat == other.stat
        &&& self.scy == other.scy && self.scx == other.scx
        &&& self.wy == other.wy && self.wx == other.wx && self.wy_counter == other.wy_counter
        &&& self.ly == other.ly && self.lyc == other.lyc
        &&& self.scan_counter == other.scan_counter && self.next_mode == other.next_mode
        &&& self.bgp == other.bgp && self.obp0 == other.obp0 && self.obp1 == other.obp1
        &&& self.frame_done == other.frame_done
    }

    /// The value that a read of `address` returns.
    pub open spec fn read_spec(&self, address: u16) -> u8 {
        if 0x8000 <= address < 0xa000 {
            self.vram@[address - 0x8000]
        } else if 0xfe00 <= address < 0xfea0 {
            self.oam@[address - 0xfe00]
        } else if address == 0xff40 {
            self.lcdc.value
        } else if address == 0xff41 {
            self.stat.value
        } else if address == 0xff42 {
            self.scy
        } else if address == 0xff43 {
            self.scx
        } else if address == 0xff44 {
            self.ly
        } else if address == 0xff45 {
            self.lyc
        } else if address == 0xff47 {
            self.bgp.value_spec()
        } else if address == 0xff48 {
            self.obp0.value_spec()
        } else if address == 0xff49 {
            self.obp1.value_spec()
        } else if address == 0xff4a {
            self.wy
        } else if address == 0xff4b {
            self.wx
        } else {
            0
        }
    }

    pub open spec fn is_screen_address(address: u16) -> bool {
        (0x8000 <= address < 0xa000) || (0xfe00 <= address < 0xfea0) || (0xff40 <= address <= 0xff4b)
    }

    /// The map pixel column and row, and the map offset, that column `x` of
    /// the current line samples.
    pub open spec fn bg_source(&self, x: int) -> (int, int, u16) {
        if use_window(self.lcdc, self.wy, self.wx, self.ly, x) {
            (x - (self.wx - 7), self.wy_counter as int, self.lcdc.windowmap_offset)
        } else {
            ((x + self.scx) % 256, (self.scy + self.ly) % 256, self.lcdc.backgroundmap_offset)
        }
    }

    /// The tile that column `x` of the current line samples.
    pub open spec fn bg_tile(&self, x: int) -> int {
        let (xp, yp, off) = self.bg_source(x);
        tile_number(self.vram@[map_addr(off, xp, yp)], self.lcdc.tiledata_select)
    }

    /// The background/window color index of column `x` of the current line.
    pub open spec fn bg_index(&self, x: int) -> u8 {
        let (xp, yp, off) = self.bg_source(x);
        tile_pixel(self.vram@, self.bg_tile(x), (yp % 8) * 8 + xp % 8)
    }

    pub fn new() -> (r: Self)
        ensures
            r.wf(),
            r.ly == 0 && r.stat.mode == 0 && r.next_mode == 2 && r.scan_counter == LINE_DOTS,
            !r.frame_done,
            !r.lcdc.lcd_enable,
            r.lcdc.value == 0 && r.stat.value == 0x80,
            r.bgp.value_spec() == 0xfc && r.obp0.value_spec() == 0xff && r.obp1.value_spec() == 0xff,
            r.wy_counter == 255 && r.scx == 0 && r.scy == 0 && r.wx == 0 && r.wy == 0 && r.lyc == 0,
            forall|i: int| 0 <= i < 0x2000 ==> #[trigger] r.vram@[i] == 0,
            forall|i: int| 0 <= i < 0xa0 ==> #[trigger] r.oam@[i] == 0,
            forall|t: int| 0 <= t < TILE_COUNT ==> !#[trigger] r.tile_cache.valid(t),
    {
        let tile_cache = TileCache::new();
        let r = Self {
            vram: vec![0u8; 0x2000],
            oam: vec![0u8; 0xa0],
            lcdc: LCDC::new(),
            stat: STAT::new(),
            scy: 0,
            scx: 0,
            wy: 0,
            wy_counter: 255,
            wx: 0,
            ly: 0,
            lyc: 0,
            scan_counter: LINE_DOTS,
            next_mode: 2,
            bgp: Palette::new(0xfc),
            obp0: Palette::new(0xff),
            obp1: Palette::new(0xff),
            screen_buffer: vec![0u8; SCREEN_WIDTH * SCREEN_HEIGHT * 4],
            screen_buffer_color: vec![0u8; SCREEN_WIDTH * SCREEN_HEIGHT],
            tile_cache,
            frame_done: false,
        };
        assert(crate::alu::bit_set(0, 7) == false);
        r
    }

    /// Writes a byte to VRAM, OAM or a PPU register; returns the interrupt
    /// bits raised (bit 1: STAT, when switching the LCD off enters mode 0).
    /// A VRAM write in the tile area marks the written tile stale; a BGP
    /// write that changes the palette marks every tile stale.
    pub fn set(&mut self, address: u16, value: u8) -> (r: u8)
        requires
            old(self).wf(),
            Self::is_screen_address(address),
        ensures
            final(self).wf(),
            r == 0 || r == 2,
            0x8000 <= address < 0xa000 ==> final(self).vram@ == old(self).vram@.update(address - 0x8000, value),
            0xfe00 <= address < 0xfea0 ==> final(self).oam@ == old(self).oam@.update(address - 0xfe00, value)
                && *final(self) == (Screen { oam: final(self).oam, ..*old(self) }),
            !(0x8000 <= address < 0xa000) ==> final(self).vram@ == old(self).vram@,
            !(0xfe00 <= address < 0xfea0) ==> final(self).oam@ == old(self).oam@,
            address == 0xff40 ==> final(self).lcdc.value == value,
            address == 0xff40 && old(self).lcdc.lcd_enable && !bit_set(value, 7) ==> final(self).ly == 0
                && final(self).stat.mode == 0 && final(self).scan_counter == 0,
            address == 0xff47 ==> final(self).bgp.value_spec() == value,
            address == 0xff47 && old(self).bgp.value_spec() != value ==> forall|t: int|
                0 <= t < TILE_COUNT ==> !#[trigger] final(self).tile_cache.valid(t),
            address == 0xff47 && old(self).bgp.value_spec() == value ==> final(self).tile_cache
                == old(self).tile_cache && final(self).bgp == old(self).bgp,
            address == 0xff47 ==> *final(self) == (Screen { bgp: final(self).bgp, tile_cache: final(self).tile_cache, ..*old(self) }),
            address == 0xff40 ==> final(self).lcdc.wf() && final(self).lcdc.value == value && final(self).lcdc.lcd_enable
                == bit_set(value, 7),
            address == 0xff40 && old(self).lcdc.lcd_enable && !bit_set(value, 7) ==> final(self).next_mode == 2,
            address != 0xff40 && address != 0xff44 && address != 0xff46 && address != 0xff41 ==> final(self).read_spec(address) == value,
            address == 0xff41 ==> final(self).stat.value == (old(self).stat.value & 0x87) | (value & 0x78),
            address != 0xff40 ==> final(self).pos() == old(self).pos() && final(self).scan_counter
                == old(self).scan_counter,
    {
        if 0x8000 <= address && address < 0xa000 {
            let off = (address - 0x8000) as usize;
            let ghost before = self.vram@;
            self.vram.set(off, value);
            if address < 0x9800 {
                let t = off / 16;
                self.tile_cache.clear_tile(t);
            }
            proof {
                let tc = self.tile_cache;
                assert forall|t: int, i: int|
                    0 <= t < TILE_COUNT && 0 <= i < 64 && #[trigger] tc.valid(t) implies #[trigger] tc.pixels(t)[i]
                        == tile_pixel(self.vram@, t, i) by {
                    assert(old(self).tile_cache.valid(t));
                    assert(tile_pixel(before, t, i) == tile_pixel(self.vram@, t, i));
                }
            }
            0
        } else if 0xfe00 <= address && address < 0xfea0 {
            self.oam.set((address - 0xfe00) as usize, value);
            0
        } else if address == 0xff40 {
            let prev = self.lcdc.lcd_enable;
            self.lcdc.set(value);
            if prev && !self.lcdc.lcd_enable {
                self.scan_counter = 0;
                let irq = self.stat.set_mode(0);
                self.ly = 0;
                self.next_mode = 2;
                if irq {
                    2
                } else {
                    0
                }
            } else {
                0
            }
        } else if address == 0xff41 {
            self.stat.set(value);
            0
        } else if address == 0xff42 {
            self.scy = value;
            0
        } else if address == 0xff43 {
            self.scx = value;
            0
        } else if address == 0xff45 {
            self.lyc = value;
            0
        } else if address == 0xff47 {
            if self.bgp.set(value) {
                self.tile_cache.clear_cache();
            }
            0
        } else if address == 0xff48 {
            self.obp0.set(value);
            0
        } else if address == 0xff49 {
            self.obp1.set(value);
            0
        } else if address == 0xff4a {
            self.wy = value;
            0
        } else if address == 0xff4b {
            self.wx = value;
            0
        } else {
            0
        }
    }

    pub fn get(&self, address: u16) -> (r: u8)
        requires
            self.wf(),
            Self::is_screen_address(address),
        ensures
            r == self.read_spec(address),
    {
        if 0x8000 <= address && address < 0xa000 {
            self.vram[(address - 0x8000) as usize]
        } else if 0xfe00 <= address && address < 0xfea0 {
            self.oam[(address - 0xfe00) as usize]
        } else if address == 0xff40 {
            self.lcdc.value
        } else if address == 0xff41 {
            self.stat.value
        } else if address == 0xff42 {
            self.scy
        } else if address == 0xff43 {
            self.scx
        } else if address == 0xff44 {
            self.ly
        } else if address == 0xff45 {
            self.lyc
        } else if address == 0xff47 {
            self.bgp.get()
        } else if address == 0xff48 {
            self.obp0.get()
        } else if address == 0xff49 {
            self.obp1.get()
        } else if address == 0xff4a {
            self.wy
        } else if address == 0xff4b {
            self.wx
        } else {
            0
        }
    }

    /// Paints pixel (`x`, `y`) in grey level `color`; records its background
    /// color index when one is given (sprites give none).
    fn set_pixel_color(&mut self, x: u8, y: u8, color: u8, color_index: Option<u8>)
        requires
            old(self).wf_moving(),
            x < 160,
            y < 144,
        ensures
            final(self).wf_moving(),
            final(self).same_except_pixels(&*old(self)),
            final(self).tile_cache == old(self).tile_cache,
            ({
                let o = (y * 160 + x) * 4;
                final(self).screen_buffer@ == old(self).screen_buffer@.update(o, color).update(o + 1, color).update(
                    o + 2,
                    color,
                ).update(o + 3, 255u8)
            }),
            color_index is Some ==> final(self).screen_buffer_color@ == old(self).screen_buffer_color@.update(
                y * 160 + x,
                color_index->0,
            ),
            color_index is None ==> final(self).screen_buffer_color@ == old(self).screen_buffer_color@,
    {
        let offset = (y as usize * 160 + x as usize) * 4;
        self.screen_buffer.set(offset, color);
        self.screen_buffer.set(offset + 1, color);
        self.screen_buffer.set(offset + 2, color);
        self.screen_buffer.set(offset + 3, 255);
        match color_index {
            Some(index) => {
                self.screen_buffer_color.set(y as usize * 160 + x as usize, index);
            },
            None => {},
        }
    }

    /// Fills the current line with color 0 of BGP.
    fn draw_blank_scanline(&mut self)
        requires
            old(self).wf_moving(),
            old(self).ly < 144,
        ensures
            final(self).wf_moving(),
            final(self).same_except_pixels(&*old(self)),
            final(self).tile_cache == old(self).tile_cache,
            forall|x: int|
                0 <= x < 160 ==> #[trigger] final(self).screen_buffer_color@[old(self).ly * 160 + x] == 0,
            forall|x: int|
                0 <= x < 160 ==> #[trigger] final(self).screen_buffer@[(old(self).ly * 160 + x) * 4] == palette_color(
                    old(self).bgp.value_spec(),
                    0,
                ),
    {
        let mut x: u8 = 0;
        while x < 160
            invariant
                x <= 160,
                self.wf_moving(),
                self.same_except_pixels(&*old(self)),
                self.ly < 144,
                self.ly == old(self).ly,
                self.bgp == old(self).bgp,
                self.tile_cache == old(self).tile_cache,
                forall|xx: int| 0 <= xx < x ==> #[trigger] self.screen_buffer_color@[self.ly * 160 + xx] == 0,
                forall|xx: int|
                    0 <= xx < x ==> #[trigger] self.screen_buffer@[(self.ly * 160 + xx) * 4] == palette_color(
                        self.bgp.value_spec(),
                        0,
                    ),
            decreases 160 - x,
        {
            let color = self.bgp.get_color(0);
            let ly = self.ly;
            let ghost pre = *self;
            self.set_pixel_color(x, ly, color, Some(0));
            assert forall|xx: int| 0 <= xx <= x implies #[trigger] self.screen_buffer_color@[self.ly * 160 + xx] == 0 by {
                if xx < x {
                    assert(self.screen_buffer_color@[self.ly * 160 + xx] == pre.screen_buffer_color@[pre.ly * 160 + xx]);
                }
            }
            assert forall|xx: int| 0 <= xx <= x implies #[trigger] self.screen_buffer@[(self.ly * 160 + xx) * 4] == palette_color(self.bgp.value_spec(), 0) by {
                if xx < x {
                    assert(self.screen_buffer@[(self.ly * 160 + xx) * 4] == pre.screen_buffer@[(pre.ly * 160 + xx) * 4]);
                }
            }
            x = x + 1;
        }
    }

    /// The tile number that the map at `offset` holds for map pixel (`x`, `y`).
    fn get_tile(&self, x: usize, y: usize, offset: u16) -> (r: usize)
        requires
            self.wf_moving(),
            x < 256,
            y < 256,
            offset == 0x1800 || offset == 0x1c00,
        ensures
            r as int == tile_number(self.vram@[map_addr(offset, x as int, y as int)], self.lcdc.tiledata_select),
            r < TILE_COUNT,
    {
        let tile_addr = offset as usize + (y / 8 * 32 % 0x400) + (x / 8 % 32);
        let entry = self.vram[tile_addr];
        if self.lcdc.tiledata_select || entry >= 0x80 {
            entry as usize
        } else {
            entry as usize + 0x100
        }
    }

    /// The tile and the color index of column `x` of the current line; `cur`
    /// is the tile of column `x - 1`, kept unless `x` starts a tile.
    fn bg_source_exec(&self, x: u8, win: bool, w0: i32) -> (r: (usize, usize, u16))
        requires
            self.wf_moving(),
            x < 160,
            w0 == self.wx - 7,
            win == (self.lcdc.window_enable && self.wy <= self.ly),
        ensures
            self.bg_source(x as int) == (r.0 as int, r.1 as int, r.2),
            r.0 < 256 && r.1 < 256,
            r.2 == 0x1800 || r.2 == 0x1c00,
            (x == 0 || r.0 % 8 == 0 || x as i32 == w0) || (self.bg_source(x - 1) == (r.0 - 1, r.1 as int, r.2)
                && (r.0 - 1) / 8 == r.0 / 8),
    {
        if win && x as i32 >= w0 {
            ((x as i32 - w0) as usize, self.wy_counter as usize, self.lcdc.windowmap_offset)
        } else {
            ((x as usize + self.scx as usize) % 256, (self.scy as usize + self.ly as usize) % 256, self.lcdc.backgroundmap_offset)
        }
    }

    #[verifier::rlimit(40)]
    fn background_pixel(&mut self, x: u8, cur: usize, win: bool, w0: i32) -> (r: (usize, u8))
        requires
            old(self).wf_moving(),
            old(self).ly < 144,
            x < 160,
            w0 == old(self).wx - 7,
            win == (old(self).lcdc.window_enable && old(self).wy <= old(self).ly),
            cur < TILE_COUNT,
            x > 0 ==> cur == old(self).bg_tile(x - 1) && old(self).tile_cache.valid(cur as int),
        ensures
            final(self).wf_moving(),
            final(self).same_except_pixels(&*old(self)),
            final(self).screen_buffer@ == old(self).screen_buffer@,
            final(self).screen_buffer_color@ == old(self).screen_buffer_color@,
            r.0 < TILE_COUNT,
            r.0 == old(self).bg_tile(x as int),
            final(self).tile_cache.valid(r.0 as int),
            r.1 == old(self).bg_index(x as int),
            r.1 < 4,
    {
        let (xp, yp, offset) = self.bg_source_exec(x, win, w0);
        let mut t = cur;
        if x == 0 || xp % 8 == 0 || x as i32 == w0 {
            t = self.get_tile(xp, yp, offset);
            self.tile_cache.update_tile(t, &self.vram);
        }
        let ci = self.tile_cache.pixel(t, (yp % 8) * 8 + xp % 8);
        assert(ci == tile_pixel(self.vram@, t as int, ((yp % 8) * 8 + xp % 8) as int));
        (t, ci)
    }

    /// Draws the background and window pixels of the current line, through
    /// the tile cache (consulted once per tile).
    fn draw_background_scanline(&mut self)
        requires
            old(self).wf_moving(),
            old(self).ly < 144,
        ensures
            final(self).wf_moving(),
            final(self).same_except_pixels(&*old(self)),
            forall|x: int|
                0 <= x < 160 ==> #[trigger] final(self).screen_buffer_color@[old(self).ly * 160 + x]
                    == old(self).bg_index(x),
            forall|x: int|
                0 <= x < 160 ==> #[trigger] final(self).screen_buffer@[(old(self).ly * 160 + x) * 4] == palette_color(
                    old(self).bgp.value_spec(),
                    old(self).bg_index(x) as int,
                ),
    {
        let w0: i32 = self.wx as i32 - 7;
        let win = self.lcdc.window_enable && self.wy <= self.ly;
        let mut cur: usize = 0;
        let mut x: u8 = 0;
        while x < 160
            invariant
                x <= 160,
                self.wf_moving(),
                self.same_except_pixels(&*old(self)),
                self.ly < 144,
                self.ly == old(self).ly,
                self.vram@ == old(self).vram@,
                self.bgp == old(self).bgp,
                w0 == old(self).wx - 7,
                win == (old(self).lcdc.window_enable && old(self).wy <= old(self).ly),
                cur < TILE_COUNT,
                x > 0 ==> cur == old(self).bg_tile(x - 1) && self.tile_cache.valid(cur as int),
                forall|xx: int|
                    0 <= xx < x ==> #[trigger] self.screen_buffer_color@[self.ly * 160 + xx] == old(self).bg_index(xx),
                forall|xx: int|
                    0 <= xx < x ==> #[trigger] self.screen_buffer@[(self.ly * 160 + xx) * 4] == palette_color(
                        self.bgp.value_spec(),
                        old(self).bg_index(xx) as int,
                    ),
            decreases 160 - x,
        {
            let (t, ci) = self.background_pixel(x, cur, win, w0);
            cur = t;
            assert(ci == old(self).bg_index(x as int));
            let color = self.bgp.get_color(ci);
            let ly = self.ly;
            let ghost pre = *self;
            self.set_pixel_color(x, ly, color, Some(ci));
            assert forall|xx: int| 0 <= xx <= x implies #[trigger] self.screen_buffer_color@[self.ly * 160 + xx] == old(self).bg_index(xx) by {
                if xx < x {
                    assert(self.screen_buffer_color@[self.ly * 160 + xx] == pre.screen_buffer_color@[pre.ly * 160 + xx]);
                }
            }
            assert forall|xx: int| 0 <= xx <= x implies #[trigger] self.screen_buffer@[(self.ly * 160 + xx) * 4] == palette_color(self.bgp.value_spec(), old(self).bg_index(xx) as int) by {
                if xx < x {
                    assert(self.screen_buffer@[(self.ly * 160 + xx) * 4] == pre.screen_buffer@[(pre.ly * 160 + xx) * 4]);
                }
            }
            x = x + 1;
        }
    }


    /// The color index that the sprite at OAM offset `n` (height `h`) gives
    /// column `x` of the current line; 0 (transparent) where it does not
    /// cover `x`. Attribute bit 5 flips it horizontally, bit 6 vertically.
    pub open spec fn sprite_index(&self, n: int, h: int, x: int) -> u8 {
        let col = x - (self.oam@[n + 1] - 8);
        if !(0 <= col < 8) {
            0
        } else {
            let attr = self.oam@[n + 3];
            let tile = if h == 16 { self.oam@[n + 2] - self.oam@[n + 2] % 2 } else { self.oam@[n + 2] as int };
            let line0 = self.ly - (self.oam@[n] - 16);
            let line = if bit_set(attr, 6) { h - line0 - 1 } else { line0 };
            let row = tile * 16 + line * 2;
            let b = (if bit_set(attr, 5) { col } else { 7 - col }) as u8;
            ((if bit_set(self.vram@[row + 1], b) { 2int } else { 0 }) + (if bit_set(self.vram@[row], b) {
                1int
            } else {
                0
            })) as u8
        }
    }

    /// Whether the sprite paints on-screen column `x`: not transparent there,
    /// and, with the priority attribute (bit 7), only over background color 0.
    pub open spec fn sprite_shows(&self, n: int, h: int, x: int) -> bool {
        &&& 0 <= x < 160
        &&& self.sprite_index(n, h, x) != 0
        &&& (!bit_set(self.oam@[n + 3], 7) || self.screen_buffer_color@[self.ly * 160 + x] == 0)
    }

    /// The grey level the sprite paints: its index through OBP1 (attribute
    /// bit 4) or OBP0.
    pub open spec fn sprite_color(&self, n: int, h: int, x: int) -> u8 {
        let pal = if bit_set(self.oam@[n + 3], 4) { self.obp1.value_spec() } else { self.obp0.value_spec() };
        palette_color(pal, self.sprite_index(n, h, x) as int)
    }

    /// Draws the 8 pixels of the sprite at OAM offset `n` on the current line.
    /// Color index 0 is transparent; with the priority attribute set the
    /// sprite shows only over background color index 0.
    fn draw_sprite(&mut self, n: usize, height: i32)
        requires
            old(self).wf_moving(),
            old(self).ly < 144,
            n + 3 < 0xa0,
            height == 8 || height == 16,
            old(self).oam@[n as int] - 16 <= old(self).ly < old(self).oam@[n as int] - 16 + height,
        ensures
            final(self).wf_moving(),
            final(self).same_except_pixels(&*old(self)),
            final(self).tile_cache == old(self).tile_cache,
            final(self).screen_buffer_color@ == old(self).screen_buffer_color@,
            forall|i: int|
                0 <= i < final(self).screen_buffer@.len() && !(old(self).ly * 640 <= i < old(self).ly * 640 + 640)
                    ==> #[trigger] final(self).screen_buffer@[i] == old(self).screen_buffer@[i],
            forall|x: int, k: int|
                0 <= x < 160 && 0 <= k < 4 ==> #[trigger] final(self).screen_buffer@[(old(self).ly * 160 + x) * 4 + k]
                    == if old(self).sprite_shows(n as int, height as int, x) {
                    rgba_byte(old(self).sprite_color(n as int, height as int, x), k)
                } else {
                    old(self).screen_buffer@[(old(self).ly * 160 + x) * 4 + k]
                },
    {
        let y: i32 = self.oam[n] as i32 - 16;
        let sx: i32 = self.oam[n + 1] as i32 - 8;
        let mut tile_index = self.oam[n + 2] as usize;
        let attr = self.oam[n + 3];
        if height == 16 {
            tile_index = tile_index - tile_index % 2;
        }
        let yflip = test_bit(attr, 6);
        let xflip = test_bit(attr, 5);
        let prio = test_bit(attr, 7);
        let high_palette = test_bit(attr, 4);
        let mut line = self.ly as i32 - y;
        if yflip {
            line = height - line - 1;
        }
        assert(0 <= line < height);
        let row = tile_index * 16 + (line as usize) * 2;
        let byte1 = self.vram[row];
        let byte2 = self.vram[row + 1];
        let mut i: u8 = 0;
        while i < 8
            invariant
                i <= 8,
                -8 <= sx <= 247,
                self.wf_moving(),
                self.same_except_pixels(&*old(self)),
                self.ly < 144,
                self.tile_cache == old(self).tile_cache,
                self.screen_buffer_color@ == old(self).screen_buffer_color@,
                forall|k: int|
                    0 <= k < self.screen_buffer@.len() && !(old(self).ly * 640 <= k < old(self).ly * 640 + 640)
                        ==> #[trigger] self.screen_buffer@[k] == old(self).screen_buffer@[k],
                sx == old(self).oam@[n + 1] - 8,
                n + 3 < 0xa0,
                row + 1 < 0x2000,
                yflip == bit_set(old(self).oam@[n + 3], 6),
                xflip == bit_set(old(self).oam@[n + 3], 5),
                prio == bit_set(old(self).oam@[n + 3], 7),
                high_palette == bit_set(old(self).oam@[n + 3], 4),
                byte1 == old(self).vram@[row as int],
                byte2 == old(self).vram@[row + 1],
                row == (if height == 16 { old(self).oam@[n + 2] - old(self).oam@[n + 2] % 2 } else {
                    old(self).oam@[n + 2] as int
                }) * 16 + (if yflip {
                    height - (old(self).ly - (old(self).oam@[n as int] - 16)) - 1
                } else {
                    old(self).ly - (old(self).oam@[n as int] - 16)
                }) * 2,
                forall|x: int, k: int|
                    0 <= x < 160 && 0 <= k < 4 ==> #[trigger] self.screen_buffer@[(old(self).ly * 160 + x) * 4 + k]
                        == if x >= sx + 8 - i && old(self).sprite_shows(n as int, height as int, x) {
                        rgba_byte(old(self).sprite_color(n as int, height as int, x), k)
                    } else {
                        old(self).screen_buffer@[(old(self).ly * 160 + x) * 4 + k]
                    },
            decreases 8 - i,
        {
            let ghost pre = *self;
            let index = if xflip { 7 - i } else { i };
            let xpixel: i32 = sx + 7 - i as i32;
            let color_index: u8 = (if test_bit(byte2, index) { 2 } else { 0 }) + (if test_bit(byte1, index) { 1 } else { 0 });
            if color_index != 0 && 0 <= xpixel && xpixel < 160 {
                let color = if high_palette {
                    self.obp1.get_color(color_index)
                } else {
                    self.obp0.get_color(color_index)
                };
                let ly = self.ly;
                let under = self.screen_buffer_color[ly as usize * 160 + xpixel as usize];
                if !prio || under == 0 {
                    self.set_pixel_color(xpixel as u8, ly, color, None);
                }
            }
            proof {
                let xp = sx + 7 - i;
                assert(old(self).sprite_index(n as int, height as int, xp as int) == color_index);
                assert forall|x: int, k: int| 0 <= x < 160 && 0 <= k < 4 implies #[trigger] self.screen_buffer@[(old(
                    self).ly * 160 + x) * 4 + k] == if x >= sx + 8 - (i + 1) && old(self).sprite_shows(
                    n as int,
                    height as int,
                    x,
                ) {
                    rgba_byte(old(self).sprite_color(n as int, height as int, x), k)
                } else {
                    old(self).screen_buffer@[(old(self).ly * 160 + x) * 4 + k]
                } by {
                    if x != xp {
                        assert(self.screen_buffer@[(old(self).ly * 160 + x) * 4 + k] == pre.screen_buffer@[(old(self).ly
                            * 160 + x) * 4 + k]);
                    }
                }
            }
            i = i + 1;
        }
    }

    /// Sprite height in lines, by LCDC bit 2.
    pub open spec fn sprite_height_of(&self) -> int {
        if self.lcdc.sprite_height { 16 } else { 8 }
    }

    /// Whether the OAM entry at offset `n` covers the current line.
    pub open spec fn covers(&self, n: int, h: int) -> bool {
        self.oam@[n] - 16 <= self.ly < self.oam@[n] - 16 + h
    }

    /// The drawing priority of the sprite at OAM offset `n`: x first, then
    /// the offset; the smaller key ends on top.
    pub open spec fn sprite_key(&self, n: int) -> int {
        self.oam@[n + 1] * 256 + n
    }

    /// The sprites the pass takes among the first `cnt` OAM entries: in OAM
    /// order, those covering the line, at most ten (by OAM byte offset).
    pub open spec fn selection(&self, h: int, cnt: nat) -> Seq<usize>
        decreases cnt,
    {
        if cnt == 0 {
            Seq::<usize>::empty()
        } else {
            let prev = self.selection(h, (cnt - 1) as nat);
            if prev.len() < 10 && self.covers(4 * (cnt - 1), h) {
                prev.push((4 * (cnt - 1)) as usize)
            } else {
                prev
            }
        }
    }

    /// Whether a sprite of the line's selection paints column `x`.
    pub open spec fn selected_shows(&self, h: int, m: usize, x: int) -> bool {
        self.selection(h, 40).contains(m) && self.sprite_shows(m as int, h, x)
    }

    /// The selected sprite that ends on top at column `x`: the smallest key
    /// among those that paint it.
    pub open spec fn sprite_winner(&self, h: int, x: int) -> usize {
        choose|m: usize|
            #[trigger] self.selected_shows(h, m, x) && forall|m2: usize|
                #[trigger] self.selected_shows(h, m2, x) ==> self.sprite_key(m as int) <= self.sprite_key(m2 as int)
    }

    /// The OAM offsets of the first ten entries that cover the current line.
    fn select_sprites(&self, height: i32) -> (r: Vec<usize>)
        requires
            self.wf_moving(),
            height == 8 || height == 16,
        ensures
            r@ == self.selection(height as int, 40),
            forall|j: int| 0 <= j < r@.len() ==> #[trigger] r@[j] + 3 < 0xa0 && self.covers(r@[j] as int, height as int),
            forall|a: int, b: int| 0 <= a < b < r@.len() ==> r@[a] < r@[b],
    {
        let ghost h = height as int;
        let ly = self.ly as i32;
        let mut selected: Vec<usize> = Vec::new();
        let mut cnt: usize = 0;
        while cnt < 40 && selected.len() < 10
            invariant
                cnt <= 40,
                self.wf_moving(),
                ly == self.ly,
                height == 8 || height == 16,
                h == height,
                selected@ == self.selection(h, cnt as nat),
            decreases 40 - cnt,
        {
            let n = 4 * cnt;
            let y = self.oam[n] as i32 - 16;
            let ghost prev = selected@;
            if ly >= y && ly < y + height {
                selected.push(n);
            }
            proof {
                assert(self.covers(4 * cnt as int, h) == (ly >= y && ly < y + height));
                if ly >= y && ly < y + height {
                    assert(selected@ == prev.push((4 * cnt) as usize));
                }
                assert(selected@ == self.selection(h, (cnt + 1) as nat));
            }
            cnt = cnt + 1;
        }
        proof {
            lemma_selection_full(*self, h, cnt as nat, 40);
            lemma_selection_facts(*self, h, 40);
        }
        selected
    }

    /// The selected sprites ordered by key, largest first.
    #[verifier::rlimit(100)]
    fn sort_sprites(&self, selected: &Vec<usize>) -> (r: Vec<usize>)
        requires
            self.wf_moving(),
            forall|j: int| 0 <= j < selected@.len() ==> #[trigger] selected@[j] + 3 < 0xa0,
            forall|a: int, b: int| 0 <= a < b < selected@.len() ==> selected@[a] < selected@[b],
        ensures
            forall|a: int, b: int| 0 <= a < b < r@.len() ==> self.sprite_key(r@[a] as int) > self.sprite_key(r@[b] as int),
            forall|j: int| 0 <= j < r@.len() ==> selected@.contains(#[trigger] r@[j]),
            forall|q: int| 0 <= q < selected@.len() ==> r@.contains(#[trigger] selected@[q]),
    {
        let mut order: Vec<usize> = Vec::new();
        let mut k: usize = selected.len();
        while k > 0
            invariant
                k <= selected@.len(),
                order@.len() + k == selected@.len(),
                self.wf_moving(),
                forall|j: int| 0 <= j < selected@.len() ==> #[trigger] selected@[j] + 3 < 0xa0,
                forall|a: int, b: int| 0 <= a < b < selected@.len() ==> selected@[a] < selected@[b],
                forall|a: int, b: int|
                    0 <= a < b < order@.len() ==> self.sprite_key(order@[a] as int) > self.sprite_key(order@[b] as int),
                forall|j: int| 0 <= j < order@.len() ==> selected@.contains(#[trigger] order@[j]),
                k < selected@.len() ==> forall|j: int| 0 <= j < order@.len() ==> #[trigger] order@[j] >= selected@[k as int],
                forall|q: int| k <= q < selected@.len() ==> order@.contains(#[trigger] selected@[q]),
            decreases k,
        {
            k = k - 1;
            let cand = selected[k];
            let ckey = self.oam[cand + 1] as usize * 256 + cand;
            proof {
                assert forall|j: int| 0 <= j < order@.len() implies #[trigger] order@[j] > cand by {
                    assert(order@[j] >= selected@[k + 1]);
                    assert(selected@[k as int] < selected@[k + 1]);
                }
            }
            let mut pos: usize = 0;
            while pos < order.len() && self.oam[order[pos] + 1] as usize * 256 + order[pos] > ckey
                invariant
                    pos <= order@.len(),
                    self.wf_moving(),
                    cand + 3 < 0xa0,
                    ckey == self.sprite_key(cand as int),
                    forall|j: int| 0 <= j < order@.len() ==> selected@.contains(#[trigger] order@[j]),
                    forall|j: int| 0 <= j < pos ==> self.sprite_key(#[trigger] order@[j] as int) > ckey,
                    forall|j: int| 0 <= j < selected@.len() ==> #[trigger] selected@[j] + 3 < 0xa0,
                    forall|a: int, b: int|
                        0 <= a < b < order@.len() ==> self.sprite_key(order@[a] as int) > self.sprite_key(order@[b] as int),
                    forall|j: int| 0 <= j < order@.len() ==> #[trigger] order@[j] > cand,
                decreases order@.len() - pos,
            {
                proof {
                    assert(selected@.contains(order@[pos as int]));
                }
                pos = pos + 1;
            }
            proof {
                assert forall|j: int| pos <= j < order@.len() implies self.sprite_key(#[trigger] order@[j] as int) < ckey by {
                    assert(order@[j] > cand);
                    if j > pos {
                        assert(self.sprite_key(order@[pos as int] as int) > self.sprite_key(order@[j] as int));
                    }
                    assert(order@[pos as int] > cand);
                }
            }
            let ghost before = order@;
            order.insert(pos, cand);
            proof {
                assert forall|j: int| 0 <= j < order@.len() implies selected@.contains(#[trigger] order@[j]) by {
                    if j < pos {
                        assert(order@[j] == before[j]);
                    } else if j == pos {
                        assert(order@[j] == selected@[k as int]);
                    } else {
                        assert(order@[j] == before[j - 1]);
                    }
                }
                assert forall|j: int| 0 <= j < order@.len() implies #[trigger] order@[j] >= selected@[k as int] by {
                    if j < pos {
                        assert(order@[j] == before[j]);
                    } else if j > pos {
                        assert(order@[j] == before[j - 1]);
                    }
                }
                assert forall|q: int| k <= q < selected@.len() implies order@.contains(#[trigger] selected@[q]) by {
                    if q == k {
                        assert(order@[pos as int] == cand);
                    } else {
                        let w = choose|w: int| 0 <= w < before.len() && before[w] == selected@[q];
                        if w < pos {
                            assert(order@[w] == selected@[q]);
                        } else {
                            assert(order@[w + 1] == selected@[q]);
                        }
                    }
                }
            }
        }
        order
    }

    /// Draws the sprites at the OAM offsets in `order`, first to last.
    fn draw_ordered(&mut self, order: &Vec<usize>, height: i32)
        requires
            old(self).wf_moving(),
            old(self).ly < 144,
            height == 8 || height == 16,
            forall|j: int|
                0 <= j < order@.len() ==> #[trigger] order@[j] + 3 < 0xa0 && old(self).covers(order@[j] as int, height as int),
        ensures
            final(self).wf_moving(),
            final(self).same_except_pixels(&*old(self)),
            final(self).tile_cache == old(self).tile_cache,
            final(self).screen_buffer_color@ == old(self).screen_buffer_color@,
            forall|q: int|
                0 <= q < final(self).screen_buffer@.len() && !(old(self).ly * 640 <= q < old(self).ly * 640 + 640)
                    ==> #[trigger] final(self).screen_buffer@[q] == old(self).screen_buffer@[q],
            forall|x: int, k: int|
                0 <= x < 160 && 0 <= k < 4 ==> #[trigger] final(self).screen_buffer@[(old(self).ly * 160 + x) * 4 + k]
                    == if last_showing(*old(self), order@, height as int, order@.len() as int, x) >= 0 {
                    rgba_byte(
                        old(self).sprite_color(
                            order@[last_showing(*old(self), order@, height as int, order@.len() as int, x)] as int,
                            height as int,
                            x,
                        ),
                        k,
                    )
                } else {
                    old(self).screen_buffer@[(old(self).ly * 160 + x) * 4 + k]
                },
    {
        let ghost h = height as int;
        let ly = self.ly as i32;
        let mut i: usize = 0;
        while i < order.len()
            invariant
                i <= order@.len(),
                height == 8 || height == 16,
                h == height,
                self.wf_moving(),
                self.same_except_pixels(&*old(self)),
                ly == self.ly,
                self.ly < 144,
                self.tile_cache == old(self).tile_cache,
                self.screen_buffer_color@ == old(self).screen_buffer_color@,
                forall|j: int|
                    0 <= j < order@.len() ==> #[trigger] order@[j] + 3 < 0xa0 && old(self).covers(order@[j] as int, h),
                forall|q: int|
                    0 <= q < self.screen_buffer@.len() && !(old(self).ly * 640 <= q < old(self).ly * 640 + 640)
                        ==> #[trigger] self.screen_buffer@[q] == old(self).screen_buffer@[q],
                forall|x: int, k: int|
                    0 <= x < 160 && 0 <= k < 4 ==> #[trigger] self.screen_buffer@[(old(self).ly * 160 + x) * 4 + k]
                        == if last_showing(*old(self), order@, h, i as int, x) >= 0 {
                        rgba_byte(old(self).sprite_color(order@[last_showing(*old(self), order@, h, i as int, x)] as int, h, x), k)
                    } else {
                        old(self).screen_buffer@[(old(self).ly * 160 + x) * 4 + k]
                    },
            decreases order@.len() - i,
        {
            let ghost pre = *self;
            self.draw_sprite(order[i], height);
            proof {
                assert forall|x: int, k: int| 0 <= x < 160 && 0 <= k < 4 implies #[trigger] self.screen_buffer@[(old(
                    self).ly * 160 + x) * 4 + k] == if last_showing(*old(self), order@, h, i + 1, x) >= 0 {
                    rgba_byte(old(self).sprite_color(order@[last_showing(*old(self), order@, h, i + 1, x)] as int, h, x), k)
                } else {
                    old(self).screen_buffer@[(old(self).ly * 160 + x) * 4 + k]
                } by {
                    lemma_same_sprite_view(pre, *old(self), order@[i as int] as int, h, x);
                }
            }
            i = i + 1;
        }
    }

    /// Byte `k` of the RGBA pixel that the sprite pass leaves at column `x`
    /// of the current line: the winning selected sprite's grey level (alpha
    /// 255) where one paints, else the byte as it was.
    pub open spec fn sprite_pass_byte(&self, x: int, k: int) -> u8 {
        let h = self.sprite_height_of();
        if exists|m: usize| #[trigger] self.selected_shows(h, m, x) {
            rgba_byte(self.sprite_color(self.sprite_winner(h, x) as int, h, x), k)
        } else {
            self.screen_buffer@[(self.ly * 160 + x) * 4 + k]
        }
    }

    /// The sprite pass of the current line: the first ten OAM entries that
    /// cover the line are drawn from the largest key to the smallest, so at
    /// each column the covering sprite with the smallest x, and among equal
    /// x the earliest OAM entry, ends on top.
    #[verifier::rlimit(100)]
    fn draw_sprite_scanline(&mut self)
        requires
            old(self).wf_moving(),
            old(self).ly < 144,
        ensures
            final(self).wf_moving(),
            final(self).same_except_pixels(&*old(self)),
            final(self).tile_cache == old(self).tile_cache,
            final(self).screen_buffer_color@ == old(self).screen_buffer_color@,
            forall|i: int|
                0 <= i < final(self).screen_buffer@.len() && !(old(self).ly * 640 <= i < old(self).ly * 640 + 640)
                    ==> #[trigger] final(self).screen_buffer@[i] == old(self).screen_buffer@[i],
            forall|x: int, k: int|
                0 <= x < 160 && 0 <= k < 4 ==> #[trigger] final(self).screen_buffer@[(old(self).ly * 160 + x) * 4 + k]
                    == old(self).sprite_pass_byte(x, k),
    {
        let height: i32 = if self.lcdc.sprite_height { 16 } else { 8 };
        let ghost h = height as int;
        let selected = self.select_sprites(height);
        let order = self.sort_sprites(&selected);
        self.draw_ordered(&order, height);
        proof {
            assert forall|x: int, k: int| 0 <= x < 160 && 0 <= k < 4 implies #[trigger] self.screen_buffer@[(old(
                self).ly * 160 + x) * 4 + k] == old(self).sprite_pass_byte(x, k) by {
                lemma_winner(*old(self), order@, h, x, k);
            }
        }
    }

    /// Renders the current line: window line counter, background (or blank),
    /// then sprites.
    fn draw_scanline(&mut self)
        requires
            old(self).wf_moving(),
            old(self).ly < 144,
        ensures
            final(self).wf_moving(),
            final(self).vram@ == old(self).vram@ && final(self).oam@ == old(self).oam@,
            final(self).lcdc == old(self).lcdc && final(self).stat == old(self).stat,
            final(self).pos() == old(self).pos() && final(self).scan_counter == old(self).scan_counter,
            final(self).frame_done == old(self).frame_done,
            final(self).scy == old(self).scy && final(self).scx == old(self).scx,
            final(self).wy == old(self).wy && final(self).wx == old(self).wx && final(self).lyc == old(self).lyc,
            final(self).bgp == old(self).bgp && final(self).obp0 == old(self).obp0 && final(self).obp1
                == old(self).obp1,
    {
        if self.lcdc.window_enable && self.wy <= self.ly && (self.wx as i32) - 7 < 160 {
            self.wy_counter = if self.wy_counter == 255 { 0 } else { self.wy_counter + 1 };
        }
        if self.lcdc.background_enable {
            self.draw_background_scanline();
        } else {
            self.draw_blank_scanline();
        }
        if self.lcdc.sprite_enable {
            self.draw_sprite_scanline();
        }
        if self.ly == 143 {
            self.wy_counter = 255;
        }
    }


    /// Compares LY with LYC; returns whether the STAT interrupt is raised.
    fn check_lyc(&mut self) -> (r: bool)
        requires
            old(self).wf_moving(),
        ensures
            final(self).wf_moving(),
            final(self).stat.mode == old(self).stat.mode,
            final(self).same_except_stat(&*old(self)),
    {
        let lyc = self.lyc;
        let ly = self.ly;
        self.stat.update_lyc(lyc, ly)
    }

    /// Enters `mode`; returns whether the STAT interrupt is raised.
    fn set_mode(&mut self, mode: u8) -> (r: bool)
        requires
            old(self).wf_moving(),
            mode <= 3,
            pos_ok(PpuPos { ly: old(self).ly, mode: mode, next_mode: old(self).next_mode }),
        ensures
            final(self).wf_moving(),
            final(self).stat.mode == mode,
            final(self).same_except_stat(&*old(self)),
    {
        self.stat.set_mode(mode)
    }

    /// Everything but STAT is as in `other`.
    pub open spec fn same_except_stat(&self, other: &Screen) -> bool {
        &&& self.vram@ == other.vram@
        &&& self.oam@ == other.oam@
        &&& self.lcdc == other.lcdc
        &&& self.scy == other.scy && self.scx == other.scx
        &&& self.wy == other.wy && self.wx == other.wx && self.wy_counter == other.wy_counter
        &&& self.ly == other.ly && self.lyc == other.lyc
        &&& self.scan_counter == other.scan_counter && self.next_mode == other.next_mode
        &&& self.bgp == other.bgp && self.obp0 == other.obp0 && self.obp1 == other.obp1
        &&& self.frame_done == other.frame_done
        &&& self.screen_buffer@ == other.screen_buffer@
        &&& self.screen_buffer_color@ == other.screen_buffer_color@
        &&& self.tile_cache == other.tile_cache
    }

    /// One mode transition, taken when the dot budget has run out. Returns
    /// whether it starts the vertical blank and whether it raises STAT.
    fn advance(&mut self) -> (r: (bool, bool))
        requires
            old(self).wf_moving(),
            old(self).scan_counter <= 0,
        ensures
            final(self).wf_moving(),
            final(self).pos() == ppu_step(old(self).pos()),
            final(self).scan_counter == old(self).scan_counter + mode_dots(final(self).stat.mode),
            r.0 == enters_vblank(old(self).pos()),
            final(self).frame_done == (old(self).frame_done || r.0),
            final(self).vram@ == old(self).vram@ && final(self).oam@ == old(self).oam@,
            final(self).lcdc == old(self).lcdc,
    {
        proof {
            lemma_step_ok(self.pos());
        }
        let mut stat_irq = false;
        let mut vblank = false;
        if self.ly == 153 {
            self.ly = 0;
            self.next_mode = 3;
            stat_irq = self.set_mode(2);
            self.scan_counter = self.scan_counter + 80;
            if self.check_lyc() {
                stat_irq = true;
            }
        } else {
            let m = self.next_mode;
            if m == 2 {
                self.ly = self.ly + 1;
                self.next_mode = 3;
                stat_irq = self.set_mode(2);
                self.scan_counter = self.scan_counter + 80;
                if self.check_lyc() {
                    stat_irq = true;
                }
            } else if m == 3 {
                self.next_mode = 0;
                stat_irq = self.set_mode(3);
                self.scan_counter = self.scan_counter + 172;
                self.draw_scanline();
            } else if m == 0 {
                self.next_mode = if self.ly < 143 { 2 } else { 1 };
                stat_irq = self.set_mode(0);
                self.scan_counter = self.scan_counter + 204;
            } else {
                self.ly = self.ly + 1;
                stat_irq = self.set_mode(1);
                self.scan_counter = self.scan_counter + 456;
                if self.check_lyc() {
                    stat_irq = true;
                }
                if self.ly == 144 {
                    vblank = true;
                    self.frame_done = true;
                }
            }
        }
        (vblank, stat_irq)
    }

    /// `after` is `before` advanced by `cycles` dots, raising interrupt bits `r`.
    pub open spec fn updated(before: Screen, after: Screen, cycles: u8, r: u8) -> bool {
        &&& after.wf()
        &&& r < 4
        &&& cycles == 0 || !before.lcdc.lcd_enable ==> after == before && r == 0
        &&& cycles > 0 && before.lcdc.lcd_enable ==> ({
            let s = settle(before.pos(), before.scan_counter - cycles, 4);
            &&& after.pos() == s.0
            &&& after.scan_counter == s.1
            &&& (r % 2 == 1) == s.2
            &&& after.frame_done == (before.frame_done || s.2)
        })
        &&& after.vram@ == before.vram@ && after.oam@ == before.oam@
        &&& after.lcdc == before.lcdc
    }

    /// Advances the scanline state machine by `cycles` dots while the LCD is
    /// on. Returns the interrupt bits raised: bit 0 VBlank, bit 1 STAT. The
    /// STAT line is sampled at each mode change and each LY=LYC comparison
    /// and raises the interrupt whenever an enabled condition is met there;
    /// there is no filtering against the line's previous level.
    pub fn update(&mut self, cycles: u8) -> (r: u8)
        requires
            old(self).wf(),
        ensures
            Screen::updated(*old(self), *final(self), cycles, r),
            final(self).wf(),
            r < 4,
            cycles == 0 || !old(self).lcdc.lcd_enable ==> *final(self) == *old(self) && r == 0,
            cycles > 0 && old(self).lcdc.lcd_enable ==> ({
                let s = settle(old(self).pos(), old(self).scan_counter - cycles, 4);
                &&& final(self).pos() == s.0
                &&& final(self).scan_counter == s.1
                &&& (r % 2 == 1) == s.2
                &&& final(self).frame_done == (old(self).frame_done || s.2)
            }),
            final(self).vram@ == old(self).vram@ && final(self).oam@ == old(self).oam@,
            final(self).lcdc == old(self).lcdc,
    {
        if cycles == 0 || !self.lcdc.lcd_enable {
            return 0;
        }
        let ghost start = self.pos();
        let ghost c0 = self.scan_counter - cycles;
        self.scan_counter = self.scan_counter - cycles as i32;
        let mut vblank = false;
        let mut stat = false;
        let ghost mut k: nat = 0;
        while self.scan_counter <= 0
            invariant
                self.wf_moving(),
                k <= 4,
                self.scan_counter >= c0 + 80 * k,
                c0 > -256,
                self.vram@ == old(self).vram@ && self.oam@ == old(self).oam@,
                self.lcdc == old(self).lcdc,
                self.frame_done == (old(self).frame_done || vblank),
                ({
                    let s = settle(start, c0, 4);
                    let t = settle(self.pos(), self.scan_counter as int, (4 - k) as nat);
                    s.0 == t.0 && s.1 == t.1 && s.2 == (vblank || t.2)
                }),
            decreases 456 * 8 - self.scan_counter,
        {
            let ghost before = self.pos();
            let (v, st) = self.advance();
            if v {
                vblank = true;
            }
            if st {
                stat = true;
            }
            proof {
                k = k + 1;
            }
        }
        (if vblank { 1 } else { 0 }) + (if stat { 2 } else { 0 })
    }

}

/// Byte `k` of an RGBA pixel of grey level `grey`: the grey in R, G and B,
/// 255 in A.
pub open spec fn rgba_byte(grey: u8, k: int) -> u8 {
    if k < 3 {
        grey
    } else {
        255
    }
}

/// The index among the first `i` sprites of `order` of the last one that
/// paints column `x`, or -1.
pub open spec fn last_showing(s: Screen, order: Seq<usize>, h: int, i: int, x: int) -> int
    decreases i,
{
    if i <= 0 {
        -1
    } else if s.sprite_shows(order[i - 1] as int, h, x) {
        i - 1
    } else {
        last_showing(s, order, h, i - 1, x)
    }
}

proof fn lemma_same_sprite_view(a: Screen, b: Screen, n: int, h: int, x: int)
    requires
        a.same_except_pixels(&b),
        a.screen_buffer_color@ == b.screen_buffer_color@,
    ensures
        a.sprite_shows(n, h, x) == b.sprite_shows(n, h, x),
        a.sprite_color(n, h, x) == b.sprite_color(n, h, x),
{
}

proof fn lemma_selection_full(s: Screen, h: int, n: nat, m: nat)
    requires
        n <= m,
        n == m || s.selection(h, n).len() >= 10,
    ensures
        s.selection(h, m) == s.selection(h, n),
    decreases m - n,
{
    if n < m {
        lemma_selection_full(s, h, n, (m - 1) as nat);
    }
}

proof fn lemma_selection_facts(s: Screen, h: int, cnt: nat)
    requires
        cnt <= 40,
    ensures
        forall|j: int| 0 <= j < s.selection(h, cnt).len() ==> #[trigger] s.selection(h, cnt)[j] + 4 <= 4 * cnt
            && s.selection(h, cnt)[j] % 4 == 0 && s.covers(s.selection(h, cnt)[j] as int, h),
        forall|a: int, b: int| 0 <= a < b < s.selection(h, cnt).len() ==> s.selection(h, cnt)[a] < s.selection(h, cnt)[b],
    decreases cnt,
{
    if cnt > 0 {
        lemma_selection_facts(s, h, (cnt - 1) as nat);
        let prev = s.selection(h, (cnt - 1) as nat);
        let cur = s.selection(h, cnt);
        if prev.len() < 10 && s.covers(4 * (cnt - 1), h) {
            let v = (4 * (cnt - 1)) as usize;
            assert(cur == prev.push(v));
            assert forall|j: int| 0 <= j < cur.len() implies #[trigger] cur[j] + 4 <= 4 * cnt && cur[j] % 4 == 0
                && s.covers(cur[j] as int, h) by {
                if j < prev.len() {
                    assert(cur[j] == prev[j]);
                }
            }
            assert forall|a: int, b: int| 0 <= a < b < cur.len() implies cur[a] < cur[b] by {
                assert(cur[a] == prev[a]);
                if b < prev.len() {
                    assert(cur[b] == prev[b]);
                }
            }
        } else {
            assert(cur == prev);
        }
    }
}

proof fn lemma_last_is_min(s: Screen, order: Seq<usize>, h: int, i: int, x: int)
    requires
        0 <= i <= order.len(),
        forall|a: int, b: int| 0 <= a < b < order.len() ==> s.sprite_key(order[a] as int) > s.sprite_key(order[b] as int),
    ensures
        last_showing(s, order, h, i, x) < i,
        last_showing(s, order, h, i, x) >= 0 ==> s.sprite_shows(order[last_showing(s, order, h, i, x)] as int, h, x),
        forall|j: int|
            0 <= j < i && s.sprite_shows(order[j] as int, h, x) ==> last_showing(s, order, h, i, x) >= j,
    decreases i,
{
    if i > 0 {
        lemma_last_is_min(s, order, h, i - 1, x);
    }
}

proof fn lemma_winner(s: Screen, order: Seq<usize>, h: int, x: int, k: int)
    requires
        h == s.sprite_height_of(),
        forall|a: int, b: int| 0 <= a < b < order.len() ==> s.sprite_key(order[a] as int) > s.sprite_key(order[b] as int),
        forall|j: int| 0 <= j < order.len() ==> s.selection(h, 40).contains(#[trigger] order[j]),
        forall|q: int| 0 <= q < s.selection(h, 40).len() ==> order.contains(#[trigger] s.selection(h, 40)[q]),
        s.oam@.len() == 0xa0,
    ensures
        ({
            let l = last_showing(s, order, h, order.len() as int, x);
            &&& (exists|m: usize| #[trigger] s.selected_shows(h, m, x)) <==> l >= 0
            &&& l >= 0 ==> s.sprite_winner(h, x) == order[l]
            &&& s.sprite_pass_byte(x, k) == if l >= 0 {
                rgba_byte(s.sprite_color(order[l] as int, h, x), k)
            } else {
                s.screen_buffer@[(s.ly * 160 + x) * 4 + k]
            }
        }),
{
    let sel = s.selection(h, 40);
    let l = last_showing(s, order, h, order.len() as int, x);
    lemma_last_is_min(s, order, h, order.len() as int, x);
    if l >= 0 {
        let w = order[l];
        assert(sel.contains(w));
        assert(s.selected_shows(h, w, x));
        assert forall|m2: usize| #[trigger] s.selected_shows(h, m2, x) implies s.sprite_key(w as int) <= s.sprite_key(m2 as int) by {
            let q = choose|q: int| 0 <= q < sel.len() && sel[q] == m2;
            assert(order.contains(sel[q]));
            let j = choose|j: int| 0 <= j < order.len() && order[j] == m2;
            if j != l {
                assert(j < l);
            }
        }
        let c = s.sprite_winner(h, x);
        assert(s.selected_shows(h, c, x));
        assert(s.sprite_key(c as int) <= s.sprite_key(w as int));
        assert(s.sprite_key(w as int) <= s.sprite_key(c as int));
        assert(c == w) by {
            assert(s.oam@[c + 1] * 256 + c == s.oam@[w + 1] * 256 + w);
        }
    } else {
        assert forall|m: usize| !#[trigger] s.selected_shows(h, m, x) by {
            if s.selected_shows(h, m, x) {
                let q = choose|q: int| 0 <= q < sel.len() && sel[q] == m;
                assert(order.contains(sel[q]));
                let j = choose|j: int| 0 <= j < order.len() && order[j] == m;
            }
        }
    }
}

} // verus!
