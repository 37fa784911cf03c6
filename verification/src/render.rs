//! The scanline renderer: once per H-blank entry one full line is
//! composited into the frame buffer from the background, window and sprite
//! layers, consulting the decoded tile cache, the registers and the sprite
//! attribute table.

use vstd::prelude::*;

use crate::gpu::Gpu;
use crate::gpu::spec_bgbase;
use crate::palette::Color;
use crate::tile::tile_pix_in_vram;
use crate::tile::resolve_tile;
use crate::tile::decode_pix;
use crate::tile::lemma_tile_pix_bound;

verus! {

/// Byte offset of color byte `b` of pixel (`line`, `x`) in the frame
/// buffer.
pub open spec fn frame_idx(line: int, x: int, b: int) -> int {
    (line * 160 + x) * 4 + b
}

/// Flag test on a packed byte.
pub open spec fn bit_u8(f: u8, mask: u8) -> bool {
    f & mask != 0
}

/// Everything one scanline's rendering reads: the raw video memory, the
/// sprite table, the compiled palettes and the layer configuration. Two
/// device states that agree on these render identically.
pub ghost struct RenderCfg {
    pub vram: Seq<u8>,
    pub oam: Seq<u8>,
    pub pal_bg: Seq<Color>,
    pub pal_obp0: Seq<Color>,
    pub pal_obp1: Seq<Color>,
    pub tiledata: bool,
    pub bgmap: bool,
    pub winmap: bool,
    pub bgon: bool,
    pub winon: bool,
    pub objon: bool,
    pub objsize: bool,
    pub scx: u8,
    pub scy: u8,
    pub wx: u8,
    pub wy: u8,
}

impl Gpu {
    /// The slice of the device state the scanline renderer depends on.
    pub open spec fn cfg(self) -> RenderCfg {
        RenderCfg {
            vram: self.vrambank@,
            oam: self.oam@,
            pal_bg: self.pal.bg@,
            pal_obp0: self.pal.obp0@,
            pal_obp1: self.pal.obp1@,
            tiledata: self.tiledata,
            bgmap: self.bgmap,
            winmap: self.winmap,
            bgon: self.bgon,
            winon: self.winon,
            objon: self.objon,
            objsize: self.objsize,
            scx: self.scx,
            scy: self.scy,
            wx: self.wx,
            wy: self.wy,
        }
    }
}

/// The whole tile cache matches a decode of video memory.
#[verifier::opaque]
pub open spec fn decoded_tiles(data: Seq<u8>, vram: Seq<u8>) -> bool {
    forall|t: int, r: int, c: int|
        0 <= t < 384 && 0 <= r < 8 && 0 <= c < 8 ==> data[t * 64 + r * 8 + c]
            == #[trigger] tile_pix_in_vram(vram, t, r, c)
}

/// Read one pixel out of a fully decoded cache.
pub proof fn lemma_decoded_pixel(data: Seq<u8>, vram: Seq<u8>, t: int, r: int, c: int)
    requires
        decoded_tiles(data, vram),
        0 <= t < 384,
        0 <= r < 8,
        0 <= c < 8,
    ensures
        data[t * 64 + r * 8 + c] == tile_pix_in_vram(vram, t, r, c),
{
    reveal(decoded_tiles);
}

/// The background pixel's 2-bit color index at (`line`, `x`): map row and
/// column wrap modulo 256 after adding the scroll registers, the fetched
/// map byte resolves through the active addressing scheme, and the pixel
/// comes from the decoded tile.
pub open spec fn spec_bg_color_at(c: RenderCfg, line: int, x: int) -> u8 {
    let mapbase = spec_bgbase(c.bgmap) + (((line + c.scy) % 256) / 8) * 32;
    let mapoff = ((x + c.scx) % 256) / 8;
    let tilei = c.vram[mapbase + mapoff];
    tile_pix_in_vram(
        c.vram,
        resolve_tile(c.tiledata, tilei),
        (line + c.scy) % 8,
        (x + c.scx) % 8,
    )
}

/// Whether the window overlays the pixel at (`line`, `x`): at and below its
/// Y position, and right of its X position minus 7.
pub open spec fn spec_win_covers(c: RenderCfg, line: int, x: int) -> bool {
    &&& c.winon
    &&& line >= c.wy
    &&& x + 7 >= c.wx
}

/// The window pixel's 2-bit color index, fetched like the background but
/// from the window's own map, without wrapping, in window-local
/// coordinates.
pub open spec fn spec_win_color_at(c: RenderCfg, line: int, x: int) -> u8 {
    let wline = line - c.wy;
    let wcol = x + 7 - c.wx;
    let mapbase = (if c.winmap {
        0x1c00int
    } else {
        0x1800int
    }) + (wline / 8) * 32;
    let tilei = c.vram[mapbase + wcol / 8];
    tile_pix_in_vram(c.vram, resolve_tile(c.tiledata, tilei), wline % 8, wcol % 8)
}

/// The per-line priority buffer's entry at `x`: the window's color index
/// where the window covers, else the background's where it is enabled,
/// else zero.
pub open spec fn spec_scan_at(c: RenderCfg, line: int, x: int) -> u8 {
    if spec_win_covers(c, line, x) {
        spec_win_color_at(c, line, x)
    } else if c.bgon {
        spec_bg_color_at(c, line, x)
    } else {
        0
    }
}

/// Whether the background or window layer wrote the pixel at (`line`, `x`).
pub open spec fn spec_base_written(c: RenderCfg, line: int, x: int) -> bool {
    spec_win_covers(c, line, x) || c.bgon
}

/// A sprite's on-screen top row: the stored Y minus 16.
pub open spec fn spec_sprite_y0(c: RenderCfg, s: int) -> int {
    c.oam[4 * s] - 16
}

/// A sprite's on-screen left column: the stored X minus 8.
pub open spec fn spec_sprite_x0(c: RenderCfg, s: int) -> int {
    c.oam[4 * s + 1] - 8
}

/// A sprite's flag byte.
pub open spec fn spec_sprite_flags(c: RenderCfg, s: int) -> u8 {
    c.oam[4 * s + 3]
}

/// Sprite height in pixels: 8, or 16 in tall mode.
pub open spec fn spec_sprite_height(c: RenderCfg) -> int {
    if c.objsize {
        16
    } else {
        8
    }
}

/// Whether sprite `s` intersects `line` and is not wholly off-screen.
pub open spec fn spec_sprite_on_line(c: RenderCfg, line: int, s: int) -> bool {
    &&& spec_sprite_y0(c, s) <= line < spec_sprite_y0(c, s) + spec_sprite_height(c)
    &&& spec_sprite_x0(c, s) > -8
    &&& spec_sprite_x0(c, s) < 160
}

/// The tile a sprite fetches on `line`: in tall mode the stored index's low
/// bit is forced to pick the upper or lower half of the adjacent pair.
pub open spec fn spec_sprite_tile(c: RenderCfg, line: int, s: int) -> u8 {
    let t = c.oam[4 * s + 2];
    if c.objsize {
        if line - spec_sprite_y0(c, s) >= 8 {
            (t & 0xfe) | 1
        } else {
            t & 0xfe
        }
    } else {
        t
    }
}

/// The row within the fetched tile, after the tall-mode adjustment and the
/// vertical-flip flag.
pub open spec fn spec_sprite_row(c: RenderCfg, line: int, s: int) -> int {
    let r0 = line - spec_sprite_y0(c, s);
    let r1 = if c.objsize && r0 >= 8 {
        r0 - 8
    } else {
        r0
    };
    if bit_u8(spec_sprite_flags(c, s), 0x40) {
        7 - r1
    } else {
        r1
    }
}

/// The sprite's 2-bit color index at column `x`, after the horizontal-flip
/// flag.
pub open spec fn spec_sprite_pix(c: RenderCfg, line: int, x: int, s: int) -> u8 {
    let col = x - spec_sprite_x0(c, s);
    let cc = if bit_u8(spec_sprite_flags(c, s), 0x20) {
        7 - col
    } else {
        col
    };
    tile_pix_in_vram(c.vram, spec_sprite_tile(c, line, s) as int, spec_sprite_row(c, line, s), cc)
}

/// Whether sprite `s` draws the pixel at (`line`, `x`): it covers the
/// column, its color there is not the transparent index 0, the priority
/// buffer does not mark background priority, and its behind-background
/// flag does not meet a non-zero base pixel.
pub open spec fn spec_sprite_draws(c: RenderCfg, line: int, x: int, s: int) -> bool {
    &&& spec_sprite_on_line(c, line, s)
    &&& spec_sprite_x0(c, s) <= x < spec_sprite_x0(c, s) + 8
    &&& 0 <= x < 160
    &&& spec_scan_at(c, line, x) <= 3
    &&& spec_sprite_pix(c, line, x, s) != 0
    &&& !(bit_u8(spec_sprite_flags(c, s), 0x80) && spec_scan_at(c, line, x) != 0)
}

/// The first sprite at or after table slot `s` that draws (`line`, `x`),
/// or 40 when none does. Table order alone decides which of two
/// overlapping sprites wins.
pub open spec fn spec_sprite_first(c: RenderCfg, line: int, x: int, s: int) -> int
    decreases 40 - s,
{
    if s >= 40 {
        40
    } else if spec_sprite_draws(c, line, x, s) {
        s
    } else {
        spec_sprite_first(c, line, x, s + 1)
    }
}

/// The winning sprite, if any, does draw, and nothing before it does.
pub proof fn lemma_sprite_first_draws(c: RenderCfg, line: int, x: int, s: int)
    requires
        0 <= s <= 40,
    ensures
        spec_sprite_first(c, line, x, s) <= 40,
        s <= spec_sprite_first(c, line, x, s),
        spec_sprite_first(c, line, x, s) < 40 ==> spec_sprite_draws(
            c,
            line,
            x,
            spec_sprite_first(c, line, x, s),
        ),
        forall|k: int|
            s <= k < spec_sprite_first(c, line, x, s) ==> !spec_sprite_draws(c, line, x, k),
    decreases 40 - s,
{
    if s < 40 && !spec_sprite_draws(c, line, x, s) {
        lemma_sprite_first_draws(c, line, x, s + 1);
    }
}

/// The resolved color the winning sprite writes: its flag bit 4 picks
/// sprite palette 1 over 0, and the 2-bit index picks the compiled entry.
pub open spec fn spec_sprite_color(c: RenderCfg, line: int, x: int, s: int) -> Color {
    let pal = if bit_u8(spec_sprite_flags(c, s), 0x10) {
        c.pal_obp1
    } else {
        c.pal_obp0
    };
    pal[spec_sprite_pix(c, line, x, s) as int]
}

/// One byte of the composited pixel at (`line`, `x`): the first drawing
/// sprite wins when sprites are enabled; else the window or background
/// color where one of them wrote; else the frame keeps its old byte.
pub open spec fn spec_row_pixel_byte(
    c: RenderCfg,
    frame0: Seq<u8>,
    line: int,
    x: int,
    b: int,
) -> u8 {
    let w = spec_sprite_first(c, line, x, 0);
    if c.objon && w < 40 {
        spec_sprite_color(c, line, x, w)@[b]
    } else if spec_base_written(c, line, x) {
        c.pal_bg[spec_scan_at(c, line, x) as int]@[b]
    } else {
        frame0[(line * 160 + x) * 4 + b]
    }
}

/// Write the 4 RGBA bytes of the palette entry `colori` at byte offset
/// `first_byte` of the frame buffer.
pub fn set_pixel_index(image_data: &mut Vec<u8>, first_byte: usize, colori: usize, pal: &Vec<Color>)
    requires
        first_byte + 4 <= old(image_data).len(),
        colori < 4,
        pal.len() == 4,
    ensures
        final(image_data)@.len() == old(image_data)@.len(),
        forall|j: int|
            0 <= j < old(image_data)@.len() && !(first_byte <= j < first_byte + 4)
                ==> final(image_data)@[j] == old(image_data)@[j],
        forall|b: int|
            0 <= b < 4 ==> final(image_data)@[first_byte + b] == pal@[colori as int]@[b],
{
    let e = pal[colori];
    image_data.set(first_byte, e[0]);
    image_data.set(first_byte + 1, e[1]);
    image_data.set(first_byte + 2, e[2]);
    image_data.set(first_byte + 3, e[3]);
}

/// Write one raw RGB color (alpha 255) at pixel (`x`, `y`) of the frame
/// buffer.
pub fn set_pixel(image_data: &mut Vec<u8>, x: usize, y: usize, r: u8, g: u8, b: u8)
    requires
        old(image_data).len() == 160 * 144 * 4,
        x < 160,
        y < 144,
    ensures
        final(image_data)@.len() == old(image_data)@.len(),
        forall|j: int|
            0 <= j < old(image_data)@.len() && !(4 * (x + y * 160) <= j < 4 * (x + y * 160) + 4)
                ==> final(image_data)@[j] == old(image_data)@[j],
        final(image_data)@[4 * (x + y * 160)] == r,
        final(image_data)@[4 * (x + y * 160) + 1] == g,
        final(image_data)@[4 * (x + y * 160) + 2] == b,
        final(image_data)@[4 * (x + y * 160) + 3] == 255,
{
    let first_byte = 4 * (x + y * 160);
    image_data.set(first_byte, r);
    image_data.set(first_byte + 1, g);
    image_data.set(first_byte + 2, b);
    image_data.set(first_byte + 3, 255);
}

impl Gpu {
    /// Re-decode every dirty tile from video memory and clear its flag;
    /// clean tiles are left alone. Afterwards the whole cache matches
    /// video memory.
    /// Decode the 16 bytes of tile `t` into its 8x8 color-index grid and
    /// clear its dirty flag. Only that tile's 64 cache bytes change.
    #[verifier::rlimit(100)]
    fn decode_tile(&mut self, t: usize)
        requires
            old(self).wf_sizes(),
            t < 384,
        ensures
            final(self).wf_sizes(),
            crate::gpu::same_except_vram_tiles(*final(self), *old(self)),
            final(self).vrambank == old(self).vrambank,
            final(self).tiles.need_update == old(self).tiles.need_update,
            final(self).tiles.to_update@ == old(self).tiles.to_update@.update(t as int, false),
            final(self).tiles.data@.len() == old(self).tiles.data@.len(),
            forall|j: int|
                0 <= j < old(self).tiles.data@.len() && !(t * 64 <= j < t * 64 + 64)
                    ==> final(self).tiles.data@[j] == old(self).tiles.data@[j],
            forall|r: int, c: int|
                0 <= r < 8 && 0 <= c < 8 ==> final(self).tiles.data@[t * 64 + r * 8 + c]
                    == #[trigger] tile_pix_in_vram(final(self).vrambank@, t as int, r, c),
    {
        self.tiles.to_update.set(t, false);
        let ghost pre = *self;
        let mut r: usize = 0;
        while r < 8
            invariant
                self.wf_sizes(),
                crate::gpu::same_except_vram_tiles(*self, pre),
                self.vrambank == pre.vrambank,
                self.tiles.need_update == pre.tiles.need_update,
                self.tiles.to_update == pre.tiles.to_update,
                t < 384,
                r <= 8,
                self.tiles.data@.len() == pre.tiles.data@.len(),
                forall|j: int|
                    0 <= j < self.tiles.data@.len() && !(t * 64 <= j < t * 64 + r * 8)
                        ==> self.tiles.data@[j] == pre.tiles.data@[j],
                forall|rr: int, cc: int|
                    0 <= rr < r && 0 <= cc < 8 ==> self.tiles.data@[t * 64 + rr * 8 + cc]
                        == #[trigger] tile_pix_in_vram(self.vrambank@, t as int, rr, cc),
            decreases 8 - r,
        {
            let lsb = self.vrambank[t * 16 + 2 * r];
            let msb = self.vrambank[t * 16 + 2 * r + 1];
            let mut c: usize = 0;
            while c < 8
                invariant
                    self.wf_sizes(),
                    crate::gpu::same_except_vram_tiles(*self, pre),
                    self.vrambank == pre.vrambank,
                    self.tiles.need_update == pre.tiles.need_update,
                    self.tiles.to_update == pre.tiles.to_update,
                    t < 384,
                    r < 8,
                    c <= 8,
                    lsb == self.vrambank@[t * 16 + 2 * r],
                    msb == self.vrambank@[t * 16 + 2 * r + 1],
                    self.tiles.data@.len() == pre.tiles.data@.len(),
                    forall|j: int|
                        0 <= j < self.tiles.data@.len() && !(t * 64 <= j < t * 64 + r * 8 + c)
                            ==> self.tiles.data@[j] == pre.tiles.data@[j],
                    forall|rr: int, cc: int|
                        0 <= rr < r && 0 <= cc < 8 ==> self.tiles.data@[t * 64 + rr * 8 + cc]
                            == #[trigger] tile_pix_in_vram(self.vrambank@, t as int, rr, cc),
                    forall|cc: int|
                        0 <= cc < c ==> self.tiles.data@[t * 64 + r * 8 + cc]
                            == #[trigger] tile_pix_in_vram(self.vrambank@, t as int, r as int, cc),
                decreases 8 - c,
            {
                let px = decode_pix(lsb, msb, c as u8);
                self.tiles.data.set(t * 64 + r * 8 + c, px);
                c += 1;
            }
            r += 1;
        }
    }

    /// Re-decode every dirty tile from video memory and clear its flag;
    /// clean tiles are left alone. Afterwards the whole cache matches
    /// video memory.
    #[verifier::rlimit(100)]
    pub fn update_tileset(&mut self)
        requires
            old(self).wf(),
        ensures
            final(self).wf(),
            crate::gpu::same_except_vram_tiles(*final(self), *old(self)),
            final(self).vrambank == old(self).vrambank,
            final(self).tiles.need_update == old(self).tiles.need_update,
            decoded_tiles(final(self).tiles.data@, final(self).vrambank@),
            forall|t: int| 0 <= t < 384 ==> !final(self).tiles.to_update@[t],
    {
        proof {
            reveal(Gpu::cache_ok);
        }
        let mut t: usize = 0;
        while t < 384
            invariant
                self.wf_sizes(),
                crate::gpu::same_except_vram_tiles(*self, *old(self)),
                self.vrambank == old(self).vrambank,
                self.tiles.need_update == old(self).tiles.need_update,
                t <= 384,
                forall|tt: int| 0 <= tt < t ==> !self.tiles.to_update@[tt],
                forall|tt: int, r: int, c: int|
                    0 <= tt < t && 0 <= r < 8 && 0 <= c < 8 ==> self.tiles.data@[tt * 64 + r * 8
                        + c] == #[trigger] tile_pix_in_vram(self.vrambank@, tt, r, c),
                forall|tt: int, r: int, c: int|
                    t <= tt < 384 && 0 <= r < 8 && 0 <= c < 8 && !self.tiles.to_update@[tt]
                        ==> self.tiles.data@[tt * 64 + r * 8 + c] == #[trigger] tile_pix_in_vram(
                        self.vrambank@,
                        tt,
                        r,
                        c,
                    ),
                forall|tt: int|
                    t <= tt < 384 ==> self.tiles.to_update@[tt] == old(self).tiles.to_update@[tt],
            decreases 384 - t,
        {
            let ghost prev = *self;
            if self.tiles.to_update[t] {
                self.decode_tile(t);
                proof {
                    assert forall|tt: int, r: int, c: int|
                        0 <= tt < t + 1 && 0 <= r < 8 && 0 <= c < 8 implies self.tiles.data@[tt
                        * 64 + r * 8 + c] == #[trigger] tile_pix_in_vram(
                        self.vrambank@,
                        tt,
                        r,
                        c,
                    ) by {
                        if tt < t {
                            assert(tt * 64 + r * 8 + c < t * 64);
                            assert(self.tiles.data@[tt * 64 + r * 8 + c] == prev.tiles.data@[tt
                                * 64 + r * 8 + c]);
                        }
                    };
                    assert forall|tt: int, r: int, c: int|
                        t + 1 <= tt < 384 && 0 <= r < 8 && 0 <= c < 8
                            && !self.tiles.to_update@[tt] implies self.tiles.data@[tt * 64 + r * 8
                        + c] == #[trigger] tile_pix_in_vram(self.vrambank@, tt, r, c) by {
                        assert(!prev.tiles.to_update@[tt]);
                        assert(tt * 64 + r * 8 + c >= t * 64 + 64);
                        assert(self.tiles.data@[tt * 64 + r * 8 + c] == prev.tiles.data@[tt * 64
                            + r * 8 + c]);
                    };
                }
            }
            t += 1;
        }
        proof {
            assert(decoded_tiles(self.tiles.data@, self.vrambank@)) by {
                reveal(decoded_tiles);
            }
            assert(self.cache_ok()) by {
                reveal(Gpu::cache_ok);
            }
        }
    }

    /// Paint the background layer of line `ly` and record each pixel's
    /// raw color index in the per-line priority buffer.
    #[verifier::rlimit(100)]
    fn render_background(&mut self, scanline: &mut Vec<u8>)
        requires
            old(self).wf(),
            decoded_tiles(old(self).tiles.data@, old(self).vrambank@),
            old(self).ly < 144,
            old(scanline)@.len() == 160,
        ensures
            final(self).wf(),
            crate::gpu::same_except_frame(*final(self), *old(self)),
            final(scanline)@.len() == 160,
            forall|x: int|
                0 <= x < 160 ==> final(scanline)@[x] == spec_bg_color_at(
                    old(self).cfg(),
                    old(self).ly as int,
                    x,
                ) && final(scanline)@[x] < 4,
            final(self).image_data@.len() == old(self).image_data@.len(),
            forall|j: int|
                0 <= j < old(self).image_data@.len() && !(old(self).ly * 640 <= j < old(self).ly
                    * 640 + 640) ==> final(self).image_data@[j] == old(self).image_data@[j],
            forall|x: int, b: int|
                0 <= x < 160 && 0 <= b < 4 ==> final(self).image_data@[frame_idx(
                    old(self).ly as int,
                    x,
                    b,
                )] == old(self).pal.bg@[spec_bg_color_at(
                    old(self).cfg(),
                    old(self).ly as int,
                    x,
                ) as int]@[b],
    {
        let ly = self.ly as usize;
        let scy = self.scy as usize;
        let scx = self.scx as usize;
        let row = (ly + scy) % 8;
        let mapbase = self.bgbase() + (((ly + scy) % 256) / 8) * 32;
        let tilebase: usize = if self.tiledata {
            0
        } else {
            256
        };
        let mut i: usize = 0;
        while i < 160
            invariant
                self.wf_sizes(),
                crate::gpu::same_except_frame(*self, *old(self)),
                decoded_tiles(old(self).tiles.data@, old(self).vrambank@),
                old(self).ly < 144,
                ly == self.ly,
                scy == self.scy,
                scx == self.scx,
                row == (ly + scy) % 8,
                mapbase == spec_bgbase(self.bgmap) + (((ly + scy) % 256) / 8) * 32,
                self.tiledata ==> tilebase == 0,
                !self.tiledata ==> tilebase == 256,
                i <= 160,
                scanline@.len() == 160,
                forall|x: int|
                    0 <= x < i ==> scanline@[x] == spec_bg_color_at(
                        old(self).cfg(),
                        old(self).ly as int,
                        x,
                    ) && scanline@[x] < 4,
                self.image_data@.len() == old(self).image_data@.len(),
                forall|j: int|
                    0 <= j < old(self).image_data@.len() && !(ly * 640 <= j < ly * 640 + 4 * i)
                        ==> self.image_data@[j] == old(self).image_data@[j],
                forall|x: int, b: int|
                    0 <= x < i && 0 <= b < 4 ==> self.image_data@[frame_idx(
                        old(self).ly as int,
                        x,
                        b,
                    )] == old(self).pal.bg@[spec_bg_color_at(
                        old(self).cfg(),
                        old(self).ly as int,
                        x,
                    ) as int]@[b],
            decreases 160 - i,
        {
            let mapoff = ((i + scx) % 256) / 8;
            let tilei = self.vrambank[mapbase + mapoff];
            let tile = self.add_tilei(tilebase, tilei);
            let col = (i + scx) % 8;
            let colori = self.tiles.data[tile * 64 + row * 8 + col];
            proof {
                lemma_decoded_pixel(
                    self.tiles.data@,
                    self.vrambank@,
                    tile as int,
                    row as int,
                    col as int,
                );
                assert(colori == spec_bg_color_at(old(self).cfg(), old(self).ly as int, i as int));
            }
            scanline.set(i, colori);
            set_pixel_index(&mut self.image_data, (ly * 160 + i) * 4, colori as usize, &self.pal.bg);
            i += 1;
        }
        proof {
            crate::gpu::lemma_cache_ok_views(*old(self), *self);
        }
    }

    /// The window pixel fetch for one covered column: window-local
    /// coordinates, the window's own map, the active addressing scheme.
    fn win_pixel(&self, x: usize) -> (p: u8)
        requires
            self.wf_sizes(),
            decoded_tiles(self.tiles.data@, self.vrambank@),
            self.winon,
            self.ly < 144,
            self.wy <= self.ly,
            x < 160,
            x + 7 >= self.wx,
        ensures
            p == spec_win_color_at(self.cfg(), self.ly as int, x as int),
            p < 4,
    {
        let ly = self.ly as usize;
        let wline = ly - self.wy as usize;
        let wcol = x + 7 - self.wx as usize;
        let mapbase = (if self.winmap {
            0x1c00
        } else {
            0x1800
        }) + (wline / 8) * 32;
        let tilebase: usize = if self.tiledata {
            0
        } else {
            256
        };
        let tilei = self.vrambank[mapbase + wcol / 8];
        let tile = self.add_tilei(tilebase, tilei);
        let p = self.tiles.data[tile * 64 + (wline % 8) * 8 + wcol % 8];
        proof {
            lemma_decoded_pixel(
                self.tiles.data@,
                self.vrambank@,
                tile as int,
                (wline % 8) as int,
                (wcol % 8) as int,
            );
        }
        p
    }

    /// Paint the window layer of line `ly`: where the window covers, its
    /// pixels supersede the background in both the frame and the priority
    /// buffer.
    #[verifier::rlimit(100)]
    fn render_window(&mut self, scanline: &mut Vec<u8>)
        requires
            old(self).wf(),
            decoded_tiles(old(self).tiles.data@, old(self).vrambank@),
            old(self).ly < 144,
            old(self).winon,
            old(scanline)@.len() == 160,
        ensures
            final(self).wf(),
            crate::gpu::same_except_frame(*final(self), *old(self)),
            final(scanline)@.len() == 160,
            forall|x: int|
                0 <= x < 160 && spec_win_covers(old(self).cfg(), old(self).ly as int, x)
                    ==> final(scanline)@[x] == spec_win_color_at(
                    old(self).cfg(),
                    old(self).ly as int,
                    x,
                ) && final(scanline)@[x] < 4,
            forall|x: int|
                0 <= x < 160 && !spec_win_covers(old(self).cfg(), old(self).ly as int, x)
                    ==> final(scanline)@[x] == old(scanline)@[x],
            final(self).image_data@.len() == old(self).image_data@.len(),
            forall|j: int|
                0 <= j < old(self).image_data@.len() && !(old(self).ly * 640 <= j < old(self).ly
                    * 640 + 640) ==> final(self).image_data@[j] == old(self).image_data@[j],
            forall|x: int, b: int|
                0 <= x < 160 && 0 <= b < 4 && spec_win_covers(old(self).cfg(), old(self).ly as int, x)
                    ==> final(self).image_data@[frame_idx(old(self).ly as int, x, b)] == old(
                    self,
                ).pal.bg@[spec_win_color_at(old(self).cfg(), old(self).ly as int, x) as int]@[b],
            forall|x: int, b: int|
                0 <= x < 160 && 0 <= b < 4 && !spec_win_covers(old(self).cfg(), old(self).ly as int, x)
                    ==> final(self).image_data@[frame_idx(old(self).ly as int, x, b)] == old(
                    self,
                ).image_data@[frame_idx(old(self).ly as int, x, b)],
    {
        let ly = self.ly as usize;
        if (self.wy as usize) > ly {
            return ;
        }
        let wline = ly - self.wy as usize;
        let wx = self.wx as usize;
        let startx: usize = if wx >= 7 {
            wx - 7
        } else {
            0
        };
        if startx >= 160 {
            return ;
        }
        let mut x: usize = startx;
        while x < 160
            invariant
                self.wf_sizes(),
                crate::gpu::same_except_frame(*self, *old(self)),
                decoded_tiles(old(self).tiles.data@, old(self).vrambank@),
                old(self).ly < 144,
                ly == self.ly,
                self.winon,
                self.wy <= ly,
                wline == ly - self.wy,
                wx == self.wx,
                startx <= x <= 160,
                startx < 160,
                wx >= 7 ==> startx == wx - 7,
                wx < 7 ==> startx == 0,
                decoded_tiles(self.tiles.data@, self.vrambank@),
                scanline@.len() == 160,
                forall|xx: int| 0 <= xx < startx ==> scanline@[xx] == old(scanline)@[xx],
                forall|xx: int| x <= xx < 160 ==> scanline@[xx] == old(scanline)@[xx],
                forall|xx: int|
                    startx <= xx < x ==> scanline@[xx] == spec_win_color_at(
                        old(self).cfg(),
                        old(self).ly as int,
                        xx,
                    ) && scanline@[xx] < 4,
                self.image_data@.len() == old(self).image_data@.len(),
                forall|j: int|
                    0 <= j < old(self).image_data@.len() && !(ly * 640 + 4 * startx <= j < ly * 640
                        + 4 * x) ==> self.image_data@[j] == old(self).image_data@[j],
                forall|xx: int, b: int|
                    startx <= xx < x && 0 <= b < 4 ==> self.image_data@[frame_idx(
                        old(self).ly as int,
                        xx,
                        b,
                    )] == old(self).pal.bg@[spec_win_color_at(
                        old(self).cfg(),
                        old(self).ly as int,
                        xx,
                    ) as int]@[b],
            decreases 160 - x,
        {
            let colori = self.win_pixel(x);
            proof {
                assert(colori == spec_win_color_at(old(self).cfg(), old(self).ly as int, x as int));
            }
            scanline.set(x, colori);
            set_pixel_index(&mut self.image_data, (ly * 160 + x) * 4, colori as usize, &self.pal.bg);
            x += 1;
        }
        proof {
            crate::gpu::lemma_cache_ok_views(*old(self), *self);
        }
    }

    /// Evaluate sprite `s` at column `x` of the current line: whether it
    /// draws there and, if so, its color index and which sprite palette
    /// its flag bit 4 selects.
    #[verifier::rlimit(100)]
    fn sprite_test(&self, s: usize, x: usize, scan_v: u8) -> (r: (bool, u8, bool))
        requires
            self.wf_sizes(),
            decoded_tiles(self.tiles.data@, self.vrambank@),
            self.ly < 144,
            x < 160,
            s < 40,
            scan_v == spec_scan_at(self.cfg(), self.ly as int, x as int),
        ensures
            r.0 == spec_sprite_draws(self.cfg(), self.ly as int, x as int, s as int),
            r.0 ==> r.1 == spec_sprite_pix(self.cfg(), self.ly as int, x as int, s as int) && 0
                < r.1 < 4 && r.2 == bit_u8(spec_sprite_flags(self.cfg(), s as int), 0x10),
    {
        let li: i32 = self.ly as i32;
        let ysize: i32 = if self.objsize {
            16
        } else {
            8
        };
        let sy = self.oam[4 * s];
        let sx = self.oam[4 * s + 1];
        let tb = self.oam[4 * s + 2];
        let flags = self.oam[4 * s + 3];
        let yoff: i32 = sy as i32 - 16;
        let xoff: i32 = sx as i32 - 8;
        let xi: i32 = x as i32;
        if !(yoff <= li && li < yoff + ysize && xoff > -8 && xoff < 160 && xoff <= xi && xi < xoff
            + 8) {
            return (false, 0, false);
        }
        let mut tile: u8 = tb;
        let r0: i32 = li - yoff;
        let mut r1: i32 = r0;
        if self.objsize {
            tile = tb & 0xfe;
            if r0 >= 8 {
                tile = tile | 1;
                r1 = r0 - 8;
            }
        }
        let rr: usize = if flags & 0x40 != 0 {
            (7 - r1) as usize
        } else {
            r1 as usize
        };
        let col: i32 = xi - xoff;
        let cc: usize = if flags & 0x20 != 0 {
            (7 - col) as usize
        } else {
            col as usize
        };
        let colori = self.tiles.data[(tile as usize) * 64 + rr * 8 + cc];
        proof {
            lemma_decoded_pixel(
                self.tiles.data@,
                self.vrambank@,
                tile as int,
                rr as int,
                cc as int,
            );
            assert(colori == spec_sprite_pix(self.cfg(), self.ly as int, x as int, s as int));
        }
        if scan_v <= 3 && colori != 0 && !(flags & 0x80 != 0 && scan_v != 0) {
            (true, colori, flags & 0x10 != 0)
        } else {
            (false, 0, false)
        }
    }

    /// Paint the sprite layer of line `ly`: walk each column's sprites in
    /// table order and let the first that draws there win, so one write at
    /// most reaches each pixel.
    #[verifier::rlimit(100)]
    fn render_sprites(&mut self, scanline: &Vec<u8>)
        requires
            old(self).wf(),
            decoded_tiles(old(self).tiles.data@, old(self).vrambank@),
            old(self).ly < 144,
            scanline@.len() == 160,
            forall|x: int|
                0 <= x < 160 ==> scanline@[x] == spec_scan_at(
                    old(self).cfg(),
                    old(self).ly as int,
                    x,
                ),
        ensures
            final(self).wf(),
            crate::gpu::same_except_frame(*final(self), *old(self)),
            final(self).image_data@.len() == old(self).image_data@.len(),
            forall|j: int|
                0 <= j < old(self).image_data@.len() && !(old(self).ly * 640 <= j < old(self).ly
                    * 640 + 640) ==> final(self).image_data@[j] == old(self).image_data@[j],
            forall|x: int, b: int|
                0 <= x < 160 && 0 <= b < 4 && spec_sprite_first(
                    old(self).cfg(),
                    old(self).ly as int,
                    x,
                    0,
                ) < 40 ==> final(self).image_data@[frame_idx(old(self).ly as int, x, b)]
                    == spec_sprite_color(
                    old(self).cfg(),
                    old(self).ly as int,
                    x,
                    spec_sprite_first(old(self).cfg(), old(self).ly as int, x, 0),
                )@[b],
            forall|x: int, b: int|
                0 <= x < 160 && 0 <= b < 4 && spec_sprite_first(
                    old(self).cfg(),
                    old(self).ly as int,
                    x,
                    0,
                ) == 40 ==> final(self).image_data@[frame_idx(old(self).ly as int, x, b)] == old(
                    self,
                ).image_data@[frame_idx(old(self).ly as int, x, b)],
    {
        let ly = self.ly as usize;
        let mut x: usize = 0;
        while x < 160
            invariant
                self.wf_sizes(),
                crate::gpu::same_except_frame(*self, *old(self)),
                decoded_tiles(old(self).tiles.data@, old(self).vrambank@),
                old(self).ly < 144,
                ly == self.ly,
                x <= 160,
                scanline@.len() == 160,
                forall|xx: int|
                    0 <= xx < 160 ==> scanline@[xx] == spec_scan_at(
                        old(self).cfg(),
                        old(self).ly as int,
                        xx,
                    ),
                self.image_data@.len() == old(self).image_data@.len(),
                forall|j: int|
                    0 <= j < old(self).image_data@.len() && !(ly * 640 <= j < ly * 640 + 4 * x)
                        ==> self.image_data@[j] == old(self).image_data@[j],
                forall|xx: int, b: int|
                    0 <= xx < x && 0 <= b < 4 && spec_sprite_first(
                        old(self).cfg(),
                        old(self).ly as int,
                        xx,
                        0,
                    ) < 40 ==> self.image_data@[frame_idx(old(self).ly as int, xx, b)]
                        == spec_sprite_color(
                        old(self).cfg(),
                        old(self).ly as int,
                        xx,
                        spec_sprite_first(old(self).cfg(), old(self).ly as int, xx, 0),
                    )@[b],
                forall|xx: int, b: int|
                    0 <= xx < x && 0 <= b < 4 && spec_sprite_first(
                        old(self).cfg(),
                        old(self).ly as int,
                        xx,
                        0,
                    ) == 40 ==> self.image_data@[frame_idx(old(self).ly as int, xx, b)] == old(
                        self,
                    ).image_data@[frame_idx(old(self).ly as int, xx, b)],
            decreases 160 - x,
        {
            let scan_v = scanline[x];
            let mut s: usize = 0;
            let mut drawn = false;
            proof {
                assert(self.cfg() == old(self).cfg());
                lemma_sprite_first_draws(old(self).cfg(), old(self).ly as int, x as int, 0);
            }
            while s < 40 && !drawn
                invariant
                    self.wf_sizes(),
                    crate::gpu::same_except_frame(*self, *old(self)),
                    self.cfg() == old(self).cfg(),
                    decoded_tiles(old(self).tiles.data@, old(self).vrambank@),
                    old(self).ly < 144,
                    ly == self.ly,
                    x < 160,
                    s <= 40,
                    scanline@.len() == 160,
                    forall|xx: int|
                        0 <= xx < 160 ==> scanline@[xx] == spec_scan_at(
                            old(self).cfg(),
                            old(self).ly as int,
                            xx,
                        ),
                    scan_v == spec_scan_at(old(self).cfg(), old(self).ly as int, x as int),
                    self.image_data@.len() == old(self).image_data@.len(),
                    forall|j: int|
                        0 <= j < old(self).image_data@.len() && !(ly * 640 <= j < ly * 640 + 4 * x
                            + 4) ==> self.image_data@[j] == old(self).image_data@[j],
                    forall|xx: int, b: int|
                        0 <= xx < x && 0 <= b < 4 && spec_sprite_first(
                            old(self).cfg(),
                            old(self).ly as int,
                            xx,
                            0,
                        ) < 40 ==> self.image_data@[frame_idx(old(self).ly as int, xx, b)]
                            == spec_sprite_color(
                            old(self).cfg(),
                            old(self).ly as int,
                            xx,
                            spec_sprite_first(old(self).cfg(), old(self).ly as int, xx, 0),
                        )@[b],
                    forall|xx: int, b: int|
                        0 <= xx < x && 0 <= b < 4 && spec_sprite_first(
                            old(self).cfg(),
                            old(self).ly as int,
                            xx,
                            0,
                        ) == 40 ==> self.image_data@[frame_idx(old(self).ly as int, xx, b)] == old(
                            self,
                        ).image_data@[frame_idx(old(self).ly as int, xx, b)],
                    !drawn ==> spec_sprite_first(old(self).cfg(), old(self).ly as int, x as int, 0)
                        >= s,
                    !drawn ==> forall|b: int|
                        0 <= b < 4 ==> self.image_data@[frame_idx(old(self).ly as int, x as int, b)]
                            == old(self).image_data@[frame_idx(old(self).ly as int, x as int, b)],
                    drawn ==> spec_sprite_first(old(self).cfg(), old(self).ly as int, x as int, 0)
                        < 40,
                    drawn ==> forall|b: int|
                        0 <= b < 4 ==> self.image_data@[frame_idx(old(self).ly as int, x as int, b)]
                            == spec_sprite_color(
                            old(self).cfg(),
                            old(self).ly as int,
                            x as int,
                            spec_sprite_first(old(self).cfg(), old(self).ly as int, x as int, 0),
                        )@[b],
                decreases 40 - s + (if drawn {
                    0int
                } else {
                    1int
                }),
            {
                let t = self.sprite_test(s, x, scan_v);
                if t.0 {
                    let colori = t.1;
                    proof {
                        lemma_sprite_first_draws(old(self).cfg(), old(self).ly as int, x as int, 0);
                        assert(spec_sprite_draws(old(self).cfg(), old(self).ly as int, x as int, s as int));
                        assert(spec_sprite_first(old(self).cfg(), old(self).ly as int, x as int, 0)
                            == s);
                    }
                    let pal_sel = if t.2 {
                        &self.pal.obp1
                    } else {
                        &self.pal.obp0
                    };
                    set_pixel_index(
                        &mut self.image_data,
                        (ly * 160 + x) * 4,
                        colori as usize,
                        pal_sel,
                    );
                    proof {
                        assert forall|b: int| 0 <= b < 4 implies self.image_data@[frame_idx(
                            old(self).ly as int,
                            x as int,
                            b,
                        )] == spec_sprite_color(
                            old(self).cfg(),
                            old(self).ly as int,
                            x as int,
                            s as int,
                        )@[b] by {
                            assert(frame_idx(old(self).ly as int, x as int, b) == (ly * 160 + x) * 4
                                + b);
                        };
                    }
                    drawn = true;
                } else {
                    proof {
                        assert(!spec_sprite_draws(
                            old(self).cfg(),
                            old(self).ly as int,
                            x as int,
                            s as int,
                        ));
                        lemma_sprite_first_draws(old(self).cfg(), old(self).ly as int, x as int, 0);
                        assert(spec_sprite_first(old(self).cfg(), old(self).ly as int, x as int, 0)
                            != s);
                    }
                    s += 1;
                }
            }
            proof {
                if !drawn {
                    assert(spec_sprite_first(old(self).cfg(), old(self).ly as int, x as int, 0)
                        == 40) by {
                        lemma_sprite_first_draws(old(self).cfg(), old(self).ly as int, x as int, 0);
                    }
                }
            }
            x += 1;
        }
        proof {
            crate::gpu::lemma_cache_ok_views(*old(self), *self);
        }
    }

    /// Composite one full scanline into the frame buffer: re-decode dirty
    /// tiles, then paint the enabled layers in order. A disabled display
    /// halts all rendering; a disabled layer leaves its contribution out.
    #[verifier::rlimit(100)]
    pub fn render_line(&mut self)
        requires
            old(self).wf(),
            old(self).ly < 144,
        ensures
            final(self).wf(),
            !old(self).lcdon ==> *final(self) == *old(self),
            old(self).lcdon ==> crate::gpu::same_except_frame_and_cache(*final(self), *old(self)),
            old(self).lcdon ==> decoded_tiles(final(self).tiles.data@, final(self).vrambank@)
                && !final(self).tiles.need_update,
            old(self).lcdon ==> final(self).image_data@.len() == old(self).image_data@.len(),
            old(self).lcdon ==> forall|j: int|
                0 <= j < old(self).image_data@.len() && !(old(self).ly * 640 <= j < old(self).ly
                    * 640 + 640) ==> final(self).image_data@[j] == old(self).image_data@[j],
            old(self).lcdon ==> forall|x: int, b: int|
                0 <= x < 160 && 0 <= b < 4 ==> final(self).image_data@[frame_idx(
                    old(self).ly as int,
                    x,
                    b,
                )] == spec_row_pixel_byte(
                    old(self).cfg(),
                    old(self).image_data@,
                    old(self).ly as int,
                    x,
                    b,
                ),
    {
        if !self.lcdon {
            return ;
        }
        let ghost g0 = *old(self);
        let ghost line = old(self).ly as int;
        let mut scanline = crate::gpu::filled_u8(160, 0);
        if self.tiles.need_update {
            self.update_tileset();
            let ghost mid = *self;
            self.tiles.need_update = false;
            proof {
                crate::gpu::lemma_cache_ok_views(mid, *self);
            }
        } else {
            proof {
                assert(decoded_tiles(self.tiles.data@, self.vrambank@)) by {
                    reveal(decoded_tiles);
                    reveal(Gpu::cache_ok);
                }
            }
        }
        let ghost frame0 = self.image_data@;
        proof {
            assert(self.cfg() == g0.cfg());
            assert(frame0 == g0.image_data@);
        }
        if self.bgon {
            self.render_background(&mut scanline);
        }
        proof {
            assert(self.cfg() == g0.cfg());
            assert forall|x: int| 0 <= x < 160 && !g0.winon implies scanline@[x] == spec_scan_at(
                g0.cfg(),
                line,
                x,
            ) by {};
        }
        if self.winon {
            self.render_window(&mut scanline);
        }
        proof {
            assert(self.cfg() == g0.cfg());
            assert forall|x: int| 0 <= x < 160 implies scanline@[x] == spec_scan_at(
                g0.cfg(),
                line,
                x,
            ) by {};
            assert forall|x: int, b: int| 0 <= x < 160 && 0 <= b < 4 implies self.image_data@[
                frame_idx(line, x, b)] == (if spec_base_written(g0.cfg(), line, x) {
                g0.pal.bg@[spec_scan_at(g0.cfg(), line, x) as int]@[b]
            } else {
                frame0[frame_idx(line, x, b)]
            }) by {};
        }
        let ghost base_frame = self.image_data@;
        if self.objon {
            self.render_sprites(&scanline);
        }
        proof {
            assert forall|x: int, b: int| 0 <= x < 160 && 0 <= b < 4 implies self.image_data@[
                frame_idx(line, x, b)] == spec_row_pixel_byte(g0.cfg(), g0.image_data@, line, x, b)
                by {
                lemma_sprite_first_draws(g0.cfg(), line, x, 0);
                assert(frame_idx(line, x, b) == (line * 160 + x) * 4 + b);
            };
        }
    }

    /// Read one decoded pixel of the tile cache.
    pub fn tile_pixel(&self, t: usize, r: usize, c: usize) -> (p: u8)
        requires
            self.wf(),
            t < 384,
            r < 8,
            c < 8,
        ensures
            p == self.tiles.data@[t * 64 + r * 8 + c],
            p < 4,
    {
        self.tiles.data[t * 64 + r * 8 + c]
    }
}

} // verus!
