//! Palette compiler: a packed 8-bit palette register resolves, two bits per
//! slot, into four RGBA colors drawn from a fixed 4-entry base color table.

use vstd::prelude::*;

verus! {

/// One RGBA color, in byte order red, green, blue, alpha.
pub type Color = [u8; 4];

/// The 2-bit base-table index that slot `i` of a packed palette register
/// selects: bits `2i` and `2i+1` of the register byte.
pub open spec fn pal_slot(val: u8, i: int) -> int {
    if i == 0 {
        (((val >> 0) & 0x3) as int)
    } else if i == 1 {
        (((val >> 2) & 0x3) as int)
    } else if i == 2 {
        (((val >> 4) & 0x3) as int)
    } else {
        (((val >> 6) & 0x3) as int)
    }
}

/// Every 2-bit slot of a packed palette register is below 4, so it always
/// indexes into a 4-entry base table.
pub proof fn lemma_pal_slot_bound(val: u8, i: int)
    ensures
        0 <= pal_slot(val, i) < 4,
{
    assert((val >> 0) & 0x3 < 4) by (bit_vector);
    assert((val >> 2) & 0x3 < 4) by (bit_vector);
    assert((val >> 4) & 0x3 < 4) by (bit_vector);
    assert((val >> 6) & 0x3 < 4) by (bit_vector);
}

/// `pal` holds the compilation of register byte `val` against `base`.
pub open spec fn pal_compiled(pal: Seq<Color>, base: Seq<Color>, val: u8) -> bool {
    &&& pal.len() == 4
    &&& forall|i: int| 0 <= i < 4 ==> pal[i] == base[pal_slot(val, i)]
}

/// Recompile one 4-color palette from the packed register byte `val` and the
/// base color table; called on every write to a palette register.
pub fn update_pal(pal: &mut Vec<Color>, base: &Vec<Color>, val: u8)
    requires
        old(pal).len() == 4,
        base.len() == 4,
    ensures
        pal_compiled(final(pal)@, base@, val),
{
    proof {
        lemma_pal_slot_bound(val, 0);
        lemma_pal_slot_bound(val, 1);
        lemma_pal_slot_bound(val, 2);
        lemma_pal_slot_bound(val, 3);
    }
    let e0 = base[((val >> 0) & 0x3) as usize];
    let e1 = base[((val >> 2) & 0x3) as usize];
    let e2 = base[((val >> 4) & 0x3) as usize];
    let e3 = base[((val >> 6) & 0x3) as usize];
    pal.set(0, e0);
    pal.set(1, e1);
    pal.set(2, e2);
    pal.set(3, e3);
}

/// The plain black-and-white base color table.
pub fn palette_bw() -> (p: Vec<Color>)
    ensures
        p@.len() == 4,
        p@[0] == [255u8, 255u8, 255u8, 255u8],
        p@[1] == [148u8, 148u8, 148u8, 255u8],
        p@[2] == [86u8, 86u8, 86u8, 255u8],
        p@[3] == [0u8, 0u8, 0u8, 255u8],
{
    let mut p: Vec<Color> = Vec::new();
    p.push([255u8, 255u8, 255u8, 255u8]);
    p.push([148u8, 148u8, 148u8, 255u8]);
    p.push([86u8, 86u8, 86u8, 255u8]);
    p.push([0u8, 0u8, 0u8, 255u8]);
    p
}

/// A green-tinted base color table.
pub fn palette_green() -> (p: Vec<Color>)
    ensures
        p@.len() == 4,
        p@[0] == [225u8, 247u8, 207u8, 255u8],
        p@[1] == [136u8, 193u8, 107u8, 255u8],
        p@[2] == [49u8, 106u8, 74u8, 255u8],
        p@[3] == [7u8, 24u8, 31u8, 255u8],
{
    let mut p: Vec<Color> = Vec::new();
    p.push([225u8, 247u8, 207u8, 255u8]);
    p.push([136u8, 193u8, 107u8, 255u8]);
    p.push([49u8, 106u8, 74u8, 255u8]);
    p.push([7u8, 24u8, 31u8, 255u8]);
    p
}

/// The murkier green base color table of the original hardware's screen.
pub fn palette_puke_green() -> (p: Vec<Color>)
    ensures
        p@.len() == 4,
        p@[0] == [157u8, 188u8, 7u8, 255u8],
        p@[1] == [122u8, 156u8, 107u8, 255u8],
        p@[2] == [53u8, 99u8, 56u8, 255u8],
        p@[3] == [13u8, 58u8, 8u8, 255u8],
{
    let mut p: Vec<Color> = Vec::new();
    p.push([157u8, 188u8, 7u8, 255u8]);
    p.push([122u8, 156u8, 107u8, 255u8]);
    p.push([53u8, 99u8, 56u8, 255u8]);
    p.push([13u8, 58u8, 8u8, 255u8]);
    p
}

} // verus!
