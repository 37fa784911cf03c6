//! The device itself: video memory, the sprite attribute table, the
//! register bank, the decoded-tile cache with its dirty tracking, and the
//! RGBA frame buffer, all owned by one `Gpu` value.

use vstd::prelude::*;

use crate::palette::Color;
use crate::palette::pal_compiled;
use crate::palette::update_pal;
use crate::tile::tile_pix_in_vram;
use crate::tile::signed_tile_offset;

verus! {

/// Bytes of one bank of video memory.
pub const VRAM_SIZE: usize = 0x2000;

/// Bytes of the sprite attribute table: 40 entries of 4 bytes each.
pub const OAM_SIZE: usize = 160;

/// Visible scanlines per frame.
pub const HEIGHT: usize = 144;

/// Visible pixels per scanline.
pub const WIDTH: usize = 160;

/// Bytes of the RGBA frame buffer.
pub const FRAME_BYTES: usize = 160 * 144 * 4;

/// Bytes of the decoded tile cache: 384 tiles of 8x8 color indices.
pub const TILE_DATA_LEN: usize = 384 * 64;

/// Interrupt-flag bit the device raises on entry to the vertical blank.
pub const INT_VBLANK: u8 = 0x01;

/// Interrupt-flag bit shared by the status interrupts: mode entry and
/// line-coincidence events.
pub const INT_LCDSTAT: u8 = 0x02;

/// The mode the picture unit is in, a strict function of the cycle counter
/// and the line index. Its numeric encoding in the status register is a
/// wire-format concern, kept apart in `mode_bits`.
#[derive(PartialEq, Eq, Structural, Copy, Clone, Debug)]
pub enum Mode {
    HBlank,
    VBlank,
    RdOam,
    RdVram,
}

/// How a `Mode` shows up in the low two bits of the status register.
pub open spec fn spec_mode_bits(m: Mode) -> u8 {
    match m {
        Mode::HBlank => 0,
        Mode::VBlank => 1,
        Mode::RdOam => 2,
        Mode::RdVram => 3,
    }
}

/// Wire encoding of the mode for the status register's low two bits.
pub fn mode_bits(m: Mode) -> (r: u8)
    ensures
        r == spec_mode_bits(m),
{
    match m {
        Mode::HBlank => 0,
        Mode::VBlank => 1,
        Mode::RdOam => 2,
        Mode::RdVram => 3,
    }
}

/// The three compiled palettes: background, sprite palette 0, sprite
/// palette 1. Each is 4 resolved RGBA colors, recomputed on every write to
/// the corresponding packed register.
pub struct Palettes {
    pub bg: Vec<Color>,
    pub obp0: Vec<Color>,
    pub obp1: Vec<Color>,
}

/// The decoded tile cache: per-tile 8x8 color-index grids stored flat, one
/// dirty flag per tile, and an aggregate flag that says whether any tile is
/// dirty.
pub struct Tiles {
    pub data: Vec<u8>,
    pub need_update: bool,
    pub to_update: Vec<bool>,
}

/// The picture processing unit.
pub struct Gpu {
    /// Sprite attribute table, 40 entries of (Y, X, tile, flags).
    pub oam: Vec<u8>,
    /// RGBA frame buffer, row-major, 4 bytes per pixel.
    pub image_data: Vec<u8>,
    /// Extended (color) mode; never entered here, kept as a stub.
    pub is_cgb: bool,
    /// Super variant flag; never consulted, kept as a stub.
    pub is_sgb: bool,
    /// Current mode of the state machine.
    pub mode: Mode,
    /// Cycles elapsed within the current scanline.
    pub clock: u32,
    /// Video memory, one 8 KiB bank.
    pub vrambank: Vec<u8>,
    /// Bank-select register; writable only in extended mode.
    pub vrambank_sel: u8,
    /// LCD control, bit 7: display enable.
    pub lcdon: bool,
    /// LCD control, bit 6: window map select.
    pub winmap: bool,
    /// LCD control, bit 5: window enable.
    pub winon: bool,
    /// LCD control, bit 4: tile-data addressing (1 = unsigned from base 0).
    pub tiledata: bool,
    /// LCD control, bit 3: background map select.
    pub bgmap: bool,
    /// LCD control, bit 2: sprite size (1 = 8x16).
    pub objsize: bool,
    /// LCD control, bit 1: sprite enable.
    pub objon: bool,
    /// LCD control, bit 0: background enable.
    pub bgon: bool,
    /// Status, bit 6: line-coincidence interrupt enable.
    pub lycly: bool,
    /// Status, bit 5: OAM-scan-entry interrupt enable.
    pub mode2int: bool,
    /// Status, bit 4: V-blank-entry status interrupt enable.
    pub mode1int: bool,
    /// Status, bit 3: H-blank-entry interrupt enable.
    pub mode0int: bool,
    /// Scroll Y.
    pub scy: u8,
    /// Scroll X.
    pub scx: u8,
    /// Current line, read-only to the host.
    pub ly: u8,
    /// Line-compare register.
    pub lyc: u8,
    /// Packed background palette register.
    pub bgp: u8,
    /// Packed sprite palette 0 register.
    pub obp0: u8,
    /// Packed sprite palette 1 register.
    pub obp1: u8,
    /// Window Y position.
    pub wy: u8,
    /// Window X position plus 7.
    pub wx: u8,
    /// Compiled palettes.
    pub pal: Palettes,
    /// Decoded tile cache.
    pub tiles: Tiles,
    /// The injected base color table the compiled palettes draw from.
    pub base: Vec<Color>,
}

impl Gpu {
    /// Every clean tile's decoded grid matches the raw bytes now in video
    /// memory. Kept opaque so that only the cache's own lemmas unfold it.
    #[verifier::opaque]
    pub open spec fn cache_ok(self) -> bool {
        forall|t: int, r: int, c: int|
            0 <= t < 384 && 0 <= r < 8 && 0 <= c < 8 && !self.tiles.to_update@[t]
                ==> self.tiles.data@[t * 64 + r * 8 + c] == #[trigger] tile_pix_in_vram(
                self.vrambank@,
                t,
                r,
                c,
            )
    }

    /// The sizes and ranges of the device's buffers and counters.
    pub open spec fn wf_sizes(self) -> bool {
        &&& self.vrambank@.len() == VRAM_SIZE
        &&& self.oam@.len() == OAM_SIZE
        &&& self.image_data@.len() == FRAME_BYTES
        &&& self.tiles.data@.len() == TILE_DATA_LEN
        &&& self.tiles.to_update@.len() == 384
        &&& (forall|i: int| 0 <= i < self.tiles.data@.len() ==> self.tiles.data@[i] < 4)
        &&& self.base@.len() == 4
        &&& self.pal.bg@.len() == 4
        &&& self.pal.obp0@.len() == 4
        &&& self.pal.obp1@.len() == 4
        &&& self.ly < 154
        &&& self.clock < 456
    }

    /// Well-formedness: buffer sizes, register ranges, and the tile-cache
    /// coherence invariant.
    pub open spec fn wf(self) -> bool {
        &&& self.wf_sizes()
        &&& (!self.tiles.need_update ==> forall|t: int| 0 <= t < 384 ==> !self.tiles.to_update@[t])
        &&& self.cache_ok()
    }

    /// The documented power-on state: blank frame, zeroed memories, every
    /// cache tile pending, registers cleared, and the compiled palettes
    /// preloaded with the identity mapping.
    pub open spec fn power_on(self, base: Seq<Color>) -> bool {
        &&& (forall|i: int| 0 <= i < FRAME_BYTES ==> self.image_data@[i] == 0)
        &&& (forall|i: int| 0 <= i < VRAM_SIZE ==> self.vrambank@[i] == 0)
        &&& (forall|i: int| 0 <= i < OAM_SIZE ==> self.oam@[i] == 0)
        &&& (forall|i: int| 0 <= i < TILE_DATA_LEN ==> self.tiles.data@[i] == 0)
        &&& (forall|t: int| 0 <= t < 384 ==> self.tiles.to_update@[t])
        &&& self.tiles.need_update == true
        &&& self.is_cgb == false
        &&& self.is_sgb == false
        &&& self.mode == Mode::RdOam
        &&& self.clock == 204
        &&& self.vrambank_sel == 0
        &&& self.lcdon == false
        &&& self.winmap == false
        &&& self.winon == false
        &&& self.tiledata == false
        &&& self.bgmap == false
        &&& self.objsize == false
        &&& self.objon == false
        &&& self.bgon == false
        &&& self.lycly == false
        &&& self.mode2int == false
        &&& self.mode1int == false
        &&& self.mode0int == false
        &&& self.scy == 0
        &&& self.scx == 0
        &&& self.ly == 0
        &&& self.lyc == 0
        &&& self.bgp == 0
        &&& self.obp0 == 0
        &&& self.obp1 == 0
        &&& self.wy == 0
        &&& self.wx == 0
        &&& self.base@ == base
        &&& pal_compiled(self.pal.bg@, base, 0xE4)
        &&& pal_compiled(self.pal.obp0@, base, 0xE4)
        &&& pal_compiled(self.pal.obp1@, base, 0xE4)
    }

    /// Power the device on. The base color table is injected here so output
    /// themes can be swapped without touching the renderer.
    pub fn new(base: Vec<Color>) -> (g: Gpu)
        requires
            base@.len() == 4,
        ensures
            g.wf(),
            g.power_on(base@),
    {
        let mut pal_bg = color_quad();
        let mut pal_obp0 = color_quad();
        let mut pal_obp1 = color_quad();
        update_pal(&mut pal_bg, &base, 0xE4);
        update_pal(&mut pal_obp0, &base, 0xE4);
        update_pal(&mut pal_obp1, &base, 0xE4);
        let g = Gpu {
            oam: filled_u8(OAM_SIZE, 0),
            image_data: filled_u8(FRAME_BYTES, 0),
            is_cgb: false,
            is_sgb: false,
            mode: Mode::RdOam,
            // skip past the boot sequence: the cycle counter's offset into
            // the current line after the boot ROM has run
            clock: 0xABCC % 456,
            vrambank: filled_u8(VRAM_SIZE, 0),
            vrambank_sel: 0,
            lcdon: false,
            winmap: false,
            winon: false,
            tiledata: false,
            bgmap: false,
            objsize: false,
            objon: false,
            bgon: false,
            lycly: false,
            mode2int: false,
            mode1int: false,
            mode0int: false,
            scy: 0,
            scx: 0,
            ly: 0,
            lyc: 0,
            bgp: 0,
            obp0: 0,
            obp1: 0,
            wy: 0,
            wx: 0,
            pal: Palettes { bg: pal_bg, obp0: pal_obp0, obp1: pal_obp1 },
            tiles: Tiles {
                data: filled_u8(TILE_DATA_LEN, 0),
                need_update: true,
                to_update: filled_bool(384, true),
            },
            base,
        };
        proof {
            reveal(Gpu::cache_ok);
            assert(g.cache_ok());
        }
        g
    }

    /// Reserved per-frame hook; the device has no work to do outside `step`
    /// and the bus entry points.
    pub fn update(&mut self)
        ensures
            *final(self) == *old(self),
    {
    }

    /// Read one byte of video memory through the bus window.
    pub fn rb_vram(&self, addr: u16) -> (r: u8)
        requires
            self.wf(),
            0x8000 <= addr < 0xA000,
        ensures
            r == self.vrambank@[addr - 0x8000],
    {
        self.vrambank[(addr - 0x8000) as usize]
    }

    /// Write one byte of video memory through the bus window. A write into
    /// the tile-data region marks the covered tile dirty so the cache
    /// re-decodes it before the next scanline render.
    #[verifier::spinoff_prover]
    #[verifier::rlimit(100)]
    pub fn wb_vram(&mut self, addr: u16, data: u8)
        requires
            old(self).wf(),
            0x8000 <= addr < 0xA000,
        ensures
            final(self).wf(),
            same_except_vram_tiles(*final(self), *old(self)),
            final(self).vrambank@ == old(self).vrambank@.update(addr - 0x8000, data),
            final(self).tiles.data == old(self).tiles.data,
            addr < 0x9800 ==> final(self).tiles.to_update@ == old(self).tiles.to_update@.update(
                (addr - 0x8000) / 16,
                true,
            ) && final(self).tiles.need_update == true,
            addr >= 0x9800 ==> final(self).tiles == old(self).tiles,
    {
        let off = (addr - 0x8000) as usize;
        if addr < 0x9800 {
            let tilei = off / 16;
            self.tiles.to_update.set(tilei, true);
            self.tiles.need_update = true;
        }
        self.vrambank.set(off, data);
        proof {
            lemma_cache_ok_after_vram_write(*old(self), *self, (addr - 0x8000) as int, data);
        }
    }

    /// The byte offset into video memory of the active background map: two
    /// candidate 32x32 maps, selected by the map-select bit.
    pub fn bgbase(&self) -> (r: usize)
        ensures
            r == spec_bgbase(self.bgmap),
    {
        if self.bgmap {
            0x1c00
        } else {
            0x1800
        }
    }

    /// Resolve a map's tile index byte against a table base: an unsigned
    /// offset when the alternate-table flag is set, otherwise a signed one.
    pub fn add_tilei(&self, base: usize, tilei: u8) -> (r: usize)
        requires
            base + 256 <= usize::MAX,
            !self.tiledata ==> base >= 128,
        ensures
            self.tiledata ==> r == base + tilei,
            !self.tiledata ==> r == base + signed_tile_offset(tilei),
    {
        if self.tiledata {
            base + tilei as usize
        } else {
            if tilei < 128 {
                base + tilei as usize
            } else {
                base + tilei as usize - 256
            }
        }
    }
}

/// Both states carry the same registers, palettes, sprite table and frame
/// buffer: everything but video memory and the tile cache.
#[verifier::inline]
pub open spec fn same_except_vram_tiles(a: Gpu, b: Gpu) -> bool {
    &&& a.oam == b.oam
    &&& a.image_data == b.image_data
    &&& a.is_cgb == b.is_cgb
    &&& a.is_sgb == b.is_sgb
    &&& a.mode == b.mode
    &&& a.clock == b.clock
    &&& a.vrambank_sel == b.vrambank_sel
    &&& a.lcdon == b.lcdon
    &&& a.winmap == b.winmap
    &&& a.winon == b.winon
    &&& a.tiledata == b.tiledata
    &&& a.bgmap == b.bgmap
    &&& a.objsize == b.objsize
    &&& a.objon == b.objon
    &&& a.bgon == b.bgon
    &&& a.lycly == b.lycly
    &&& a.mode2int == b.mode2int
    &&& a.mode1int == b.mode1int
    &&& a.mode0int == b.mode0int
    &&& a.scy == b.scy
    &&& a.scx == b.scx
    &&& a.ly == b.ly
    &&& a.lyc == b.lyc
    &&& a.bgp == b.bgp
    &&& a.obp0 == b.obp0
    &&& a.obp1 == b.obp1
    &&& a.wy == b.wy
    &&& a.wx == b.wx
    &&& a.pal == b.pal
    &&& a.base == b.base
}

/// Both states agree on everything but the frame buffer.
#[verifier::inline]
pub open spec fn same_except_frame(a: Gpu, b: Gpu) -> bool {
    &&& a.vrambank == b.vrambank
    &&& a.tiles == b.tiles
    &&& same_except_frame_and_cache(a, b)
}

/// Both states agree on everything but the frame buffer and the tile
/// cache.
#[verifier::inline]
pub open spec fn same_except_frame_and_cache(a: Gpu, b: Gpu) -> bool {
    &&& a.vrambank == b.vrambank
    &&& a.oam == b.oam
    &&& a.is_cgb == b.is_cgb
    &&& a.is_sgb == b.is_sgb
    &&& a.mode == b.mode
    &&& a.clock == b.clock
    &&& a.vrambank_sel == b.vrambank_sel
    &&& a.lcdon == b.lcdon
    &&& a.winmap == b.winmap
    &&& a.winon == b.winon
    &&& a.tiledata == b.tiledata
    &&& a.bgmap == b.bgmap
    &&& a.objsize == b.objsize
    &&& a.objon == b.objon
    &&& a.bgon == b.bgon
    &&& a.lycly == b.lycly
    &&& a.mode2int == b.mode2int
    &&& a.mode1int == b.mode1int
    &&& a.mode0int == b.mode0int
    &&& a.scy == b.scy
    &&& a.scx == b.scx
    &&& a.ly == b.ly
    &&& a.lyc == b.lyc
    &&& a.bgp == b.bgp
    &&& a.obp0 == b.obp0
    &&& a.obp1 == b.obp1
    &&& a.wy == b.wy
    &&& a.wx == b.wx
    &&& a.pal == b.pal
    &&& a.base == b.base
}

/// Cache coherence depends only on the tile cache and video memory: two
/// states that agree on those agree on it.
pub proof fn lemma_cache_ok_views(a: Gpu, b: Gpu)
    requires
        a.cache_ok(),
        b.tiles.to_update@ == a.tiles.to_update@,
        b.tiles.data@ == a.tiles.data@,
        b.vrambank@ == a.vrambank@,
    ensures
        b.cache_ok(),
{
    reveal(Gpu::cache_ok);
}

/// A single byte written into video memory leaves every tile coherent
/// except, inside the tile-data region, the one tile that spans the byte
/// and is marked dirty.
proof fn lemma_cache_ok_after_vram_write(pre: Gpu, post: Gpu, offi: int, data: u8)
    requires
        pre.cache_ok(),
        pre.tiles.to_update@.len() == 384,
        pre.vrambank@.len() == 0x2000,
        0 <= offi < 0x2000,
        post.vrambank@ == pre.vrambank@.update(offi, data),
        post.tiles.data == pre.tiles.data,
        offi < 0x1800 ==> post.tiles.to_update@ == pre.tiles.to_update@.update(offi / 16, true),
        offi >= 0x1800 ==> post.tiles.to_update == pre.tiles.to_update,
    ensures
        post.cache_ok(),
{
    reveal(Gpu::cache_ok);
    let ti = offi / 16;
    assert(16 * (offi / 16) <= offi && offi < 16 * (offi / 16) + 16) by (nonlinear_arith)
        requires
            0 <= offi,
    ;
    assert forall|t: int, r: int, c: int|
        0 <= t < 384 && 0 <= r < 8 && 0 <= c < 8 && !post.tiles.to_update@[t]
            implies post.tiles.data@[t * 64 + r * 8 + c] == #[trigger] tile_pix_in_vram(
        post.vrambank@,
        t,
        r,
        c,
    ) by {
        assert(!pre.tiles.to_update@[t]);
        let i0 = t * 16 + 2 * r;
        if offi < 0x1800 {
            assert(t != ti);
            assert(i0 != offi && i0 + 1 != offi);
        } else {
            assert(i0 + 1 < 0x1800);
        }
        assert(post.vrambank@[i0] == pre.vrambank@[i0]);
        assert(post.vrambank@[i0 + 1] == pre.vrambank@[i0 + 1]);
        assert(pre.tiles.data@[t * 64 + r * 8 + c] == tile_pix_in_vram(pre.vrambank@, t, r, c));
    };
}

/// The selected background map's byte offset into video memory.
pub open spec fn spec_bgbase(bgmap: bool) -> int {
    if bgmap {
        0x1c00
    } else {
        0x1800
    }
}

/// A vector of `n` copies of byte `v`.
pub fn filled_u8(n: usize, v: u8) -> (r: Vec<u8>)
    ensures
        r@.len() == n,
        forall|i: int| 0 <= i < n ==> r@[i] == v,
{
    let mut r: Vec<u8> = Vec::new();
    let mut i: usize = 0;
    while i < n
        invariant
            i <= n,
            r@.len() == i,
            forall|j: int| 0 <= j < i ==> r@[j] == v,
        decreases n - i,
    {
        r.push(v);
        i += 1;
    }
    r
}

/// A vector of `n` copies of flag `v`.
pub fn filled_bool(n: usize, v: bool) -> (r: Vec<bool>)
    ensures
        r@.len() == n,
        forall|i: int| 0 <= i < n ==> r@[i] == v,
{
    let mut r: Vec<bool> = Vec::new();
    let mut i: usize = 0;
    while i < n
        invariant
            i <= n,
            r@.len() == i,
            forall|j: int| 0 <= j < i ==> r@[j] == v,
        decreases n - i,
    {
        r.push(v);
        i += 1;
    }
    r
}

/// Four zeroed colors, the shape a compiled palette has before its first
/// compilation.
fn color_quad() -> (r: Vec<Color>)
    ensures
        r@.len() == 4,
{
    let mut r: Vec<Color> = Vec::new();
    r.push([0u8, 0u8, 0u8, 0u8]);
    r.push([0u8, 0u8, 0u8, 0u8]);
    r.push([0u8, 0u8, 0u8, 0u8]);
    r.push([0u8, 0u8, 0u8, 0u8]);
    r
}

} // verus!
