//! Tile decoding: a tile is 16 bytes of video memory, 8 rows of 2 bytes.
//! In each row the first byte carries the least significant bit of every
//! pixel's 2-bit color index and the second byte the most significant bit;
//! bit 7 of each byte is the leftmost pixel.

use vstd::prelude::*;

verus! {

/// Number of tiles the cache decodes: the whole 0x1800-byte tile-data
/// region, 16 bytes per tile, covering both addressing schemes.
pub const NUM_TILES: usize = 384;

/// The 2-bit color index of pixel `k` (0 = leftmost) of a tile row whose
/// bit planes are `lsb` and `msb`. Kept opaque: the renderer's proofs care
/// only that equal bytes decode to equal pixels.
#[verifier::opaque]
pub open spec fn tile_pix(lsb: u8, msb: u8, k: int) -> u8 {
    let sh = (7 - k) as u8;
    (((msb >> sh) & 1) << 1) | ((lsb >> sh) & 1)
}

/// A decoded pixel is a 2-bit color index.
pub proof fn lemma_tile_pix_bound(lsb: u8, msb: u8, k: int)
    requires
        0 <= k < 8,
    ensures
        tile_pix(lsb, msb, k) < 4,
{
    reveal(tile_pix);
    let sh = (7 - k) as u8;
    assert((((msb >> sh) & 1) << 1) | ((lsb >> sh) & 1) < 4) by (bit_vector);
}

/// The color index of pixel (`row`, `col`) of tile `t`, decoded straight
/// from the raw bytes of video memory.
pub open spec fn tile_pix_in_vram(vram: Seq<u8>, t: int, row: int, col: int) -> u8 {
    tile_pix(vram[t * 16 + 2 * row], vram[t * 16 + 2 * row + 1], col)
}

/// Decode one pixel from a tile row's two bit-plane bytes.
pub fn decode_pix(lsb: u8, msb: u8, k: u8) -> (r: u8)
    requires
        k < 8,
    ensures
        r == tile_pix(lsb, msb, k as int),
        r < 4,
{
    proof {
        reveal(tile_pix);
        lemma_tile_pix_bound(lsb, msb, k as int);
    }
    let sh = 7 - k;
    (((msb >> sh) & 1) << 1) | ((lsb >> sh) & 1)
}

/// A tile index byte read under the signed addressing scheme: values of 128
/// and above stand for negative offsets.
pub open spec fn signed_tile_offset(tilei: u8) -> int {
    if tilei < 128 {
        tilei as int
    } else {
        tilei - 256
    }
}

/// The flat cache index a map's tile index byte resolves to. With the
/// alternate-table flag set the byte is an unsigned offset from table base
/// 0; with it unset the byte is a signed offset from a base at flat index
/// 256, so the table spans flat tiles 128 to 383.
pub open spec fn resolve_tile(tiledata: bool, tilei: u8) -> int {
    if tiledata {
        tilei as int
    } else {
        256 + signed_tile_offset(tilei)
    }
}

/// The resolved flat index always lands inside the decoded cache.
pub proof fn lemma_resolve_tile_bound(tiledata: bool, tilei: u8)
    ensures
        0 <= resolve_tile(tiledata, tilei) < 384,
{
}

} // verus!
