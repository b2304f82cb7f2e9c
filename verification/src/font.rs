//! The font: one glyph of eight rows of eight pixels for each printable
//! ASCII character, from the space (0x20) to the tilde (0x7e).
//!
//! A glyph is a 64-bit number. Its most significant byte is the top row; in a
//! row the least significant bit is the leftmost pixel.

use vstd::prelude::*;

verus! {

/// The first character that has a glyph.
pub const FONT_FIRST: u8 = 0x20;

/// The last character that has a glyph.
pub const FONT_LAST: u8 = 0x7e;

/// Number of glyphs.
pub const FONT_GLYPHS: usize = 95;

/// The glyphs, in the order of their characters.
pub open spec fn font() -> Seq<u64> {
    seq![
        0x0000_0000_0000_0000u64,
        0x183c_3c18_1800_1800u64,
        0x3636_0000_0000_0000u64,
        0x3636_7f36_7f36_3600u64,
        0x0c3e_031e_301f_0c00u64,
        0x0063_3318_0c66_6300u64,
        0x1c36_1c6e_3b33_6e00u64,
        0x0606_0300_0000_0000u64,
        0x180c_0606_060c_1800u64,
        0x060c_1818_180c_0600u64,
        0x0066_3cff_3c66_0000u64,
        0x000c_0c3f_0c0c_0000u64,
        0x0000_0000_000c_0c06u64,
        0x0000_003f_0000_0000u64,
        0x0000_0000_000c_0c00u64,
        0x6030_180c_0603_0100u64,
        0x3e63_737b_6f67_3e00u64,
        0x0c0e_0c0c_0c0c_3f00u64,
        0x1e33_301c_0633_3f00u64,
        0x1e33_301c_3033_1e00u64,
        0x383c_3633_7f30_7800u64,
        0x3f03_1f30_3033_1e00u64,
        0x1c06_031f_3333_1e00u64,
        0x3f33_3018_0c0c_0c00u64,
        0x1e33_331e_3333_1e00u64,
        0x1e33_333e_3018_0e00u64,
        0x000c_0c00_000c_0c00u64,
        0x000c_0c00_000c_0c06u64,
        0x180c_0603_060c_1800u64,
        0x0000_3f00_003f_0000u64,
        0x060c_1830_180c_0600u64,
        0x1e33_3018_0c00_0c00u64,
        0x3e63_7b7b_7b03_1e00u64,
        0x0c1e_3333_3f33_3300u64,
        0x3f66_663e_6666_3f00u64,
        0x3c66_0303_0366_3c00u64,
        0x1f36_6666_6636_1f00u64,
        0x7f46_161e_1646_7f00u64,
        0x7f46_161e_1606_0f00u64,
        0x3c66_0303_7366_7c00u64,
        0x3333_333f_3333_3300u64,
        0x1e0c_0c0c_0c0c_1e00u64,
        0x7830_3030_3333_1e00u64,
        0x6766_361e_3666_6700u64,
        0x0f06_0606_4666_7f00u64,
        0x6377_7f7f_6b63_6300u64,
        0x6367_6f7b_7363_6300u64,
        0x1c36_6363_6336_1c00u64,
        0x3f66_663e_0606_0f00u64,
        0x1e33_3333_3b1e_3800u64,
        0x3f66_663e_3666_6700u64,
        0x1e33_070e_3833_1e00u64,
        0x3f2d_0c0c_0c0c_1e00u64,
        0x3333_3333_3333_3f00u64,
        0x3333_3333_331e_0c00u64,
        0x6363_636b_7f77_6300u64,
        0x6363_361c_1c36_6300u64,
        0x3333_331e_0c0c_1e00u64,
        0x7f63_3118_4c66_7f00u64,
        0x1e06_0606_0606_1e00u64,
        0x0306_0c18_3060_4000u64,
        0x1e18_1818_1818_1e00u64,
        0x081c_3663_0000_0000u64,
        0x0000_0000_0000_00ffu64,
        0x0c0c_1800_0000_0000u64,
        0x0000_1e30_3e33_6e00u64,
        0x0706_063e_6666_3b00u64,
        0x0000_1e33_0333_1e00u64,
        0x3830_303e_3333_6e00u64,
        0x0000_1e33_3f03_1e00u64,
        0x1c36_060f_0606_0f00u64,
        0x0000_6e33_333e_301fu64,
        0x0706_366e_6666_6700u64,
        0x0c00_0e0c_0c0c_1e00u64,
        0x3000_3030_3033_331eu64,
        0x0706_6636_1e36_6700u64,
        0x0e0c_0c0c_0c0c_1e00u64,
        0x0000_337f_7f6b_6300u64,
        0x0000_1f33_3333_3300u64,
        0x0000_1e33_3333_1e00u64,
        0x0000_3b66_663e_060fu64,
        0x0000_6e33_333e_3078u64,
        0x0000_3b6e_6606_0f00u64,
        0x0000_3e03_1e30_1f00u64,
        0x080c_3e0c_0c2c_1800u64,
        0x0000_3333_3333_6e00u64,
        0x0000_3333_331e_0c00u64,
        0x0000_636b_7f7f_3600u64,
        0x0000_6336_1c36_6300u64,
        0x0000_3333_333e_301fu64,
        0x0000_3f19_0c26_3f00u64,
        0x380c_0c07_0c0c_3800u64,
        0x1818_1800_1818_1800u64,
        0x070c_0c38_0c0c_0700u64,
        0x6e3b_0000_0000_0000u64,
    ]
}

/// Whether the character has a glyph.
pub open spec fn in_font(c: u8) -> bool {
    FONT_FIRST <= c <= FONT_LAST
}

/// Row `row` of a glyph, the top row being row 0: bit `n` of it says whether
/// the pixel in column `n` is set. A glyph has eight rows; any further row is
/// empty.
pub open spec fn spec_glyph_row(glyph: u64, row: u8) -> u8 {
    if row < 8 {
        ((glyph >> ((8 * (7 - row)) as u64)) & 0xff) as u8
    } else {
        0
    }
}

/// The glyphs, in the order of their characters.
pub fn glyphs() -> (table: [u64; 95])
    ensures
        table@ == font(),
{
    let table: [u64; 95] = [
        0x0000_0000_0000_0000,
        0x183c_3c18_1800_1800,
        0x3636_0000_0000_0000,
        0x3636_7f36_7f36_3600,
        0x0c3e_031e_301f_0c00,
        0x0063_3318_0c66_6300,
        0x1c36_1c6e_3b33_6e00,
        0x0606_0300_0000_0000,
        0x180c_0606_060c_1800,
        0x060c_1818_180c_0600,
        0x0066_3cff_3c66_0000,
        0x000c_0c3f_0c0c_0000,
        0x0000_0000_000c_0c06,
        0x0000_003f_0000_0000,
        0x0000_0000_000c_0c00,
        0x6030_180c_0603_0100,
        0x3e63_737b_6f67_3e00,
        0x0c0e_0c0c_0c0c_3f00,
        0x1e33_301c_0633_3f00,
        0x1e33_301c_3033_1e00,
        0x383c_3633_7f30_7800,
        0x3f03_1f30_3033_1e00,
        0x1c06_031f_3333_1e00,
        0x3f33_3018_0c0c_0c00,
        0x1e33_331e_3333_1e00,
        0x1e33_333e_3018_0e00,
        0x000c_0c00_000c_0c00,
        0x000c_0c00_000c_0c06,
        0x180c_0603_060c_1800,
        0x0000_3f00_003f_0000,
        0x060c_1830_180c_0600,
        0x1e33_3018_0c00_0c00,
        0x3e63_7b7b_7b03_1e00,
        0x0c1e_3333_3f33_3300,
        0x3f66_663e_6666_3f00,
        0x3c66_0303_0366_3c00,
        0x1f36_6666_6636_1f00,
        0x7f46_161e_1646_7f00,
        0x7f46_161e_1606_0f00,
        0x3c66_0303_7366_7c00,
        0x3333_333f_3333_3300,
        0x1e0c_0c0c_0c0c_1e00,
        0x7830_3030_3333_1e00,
        0x6766_361e_3666_6700,
        0x0f06_0606_4666_7f00,
        0x6377_7f7f_6b63_6300,
        0x6367_6f7b_7363_6300,
        0x1c36_6363_6336_1c00,
        0x3f66_663e_0606_0f00,
        0x1e33_3333_3b1e_3800,
        0x3f66_663e_3666_6700,
        0x1e33_070e_3833_1e00,
        0x3f2d_0c0c_0c0c_1e00,
        0x3333_3333_3333_3f00,
        0x3333_3333_331e_0c00,
        0x6363_636b_7f77_6300,
        0x6363_361c_1c36_6300,
        0x3333_331e_0c0c_1e00,
        0x7f63_3118_4c66_7f00,
        0x1e06_0606_0606_1e00,
        0x0306_0c18_3060_4000,
        0x1e18_1818_1818_1e00,
        0x081c_3663_0000_0000,
        0x0000_0000_0000_00ff,
        0x0c0c_1800_0000_0000,
        0x0000_1e30_3e33_6e00,
        0x0706_063e_6666_3b00,
        0x0000_1e33_0333_1e00,
        0x3830_303e_3333_6e00,
        0x0000_1e33_3f03_1e00,
        0x1c36_060f_0606_0f00,
        0x0000_6e33_333e_301f,
        0x0706_366e_6666_6700,
        0x0c00_0e0c_0c0c_1e00,
        0x3000_3030_3033_331e,
        0x0706_6636_1e36_6700,
        0x0e0c_0c0c_0c0c_1e00,
        0x0000_337f_7f6b_6300,
        0x0000_1f33_3333_3300,
        0x0000_1e33_3333_1e00,
        0x0000_3b66_663e_060f,
        0x0000_6e33_333e_3078,
        0x0000_3b6e_6606_0f00,
        0x0000_3e03_1e30_1f00,
        0x080c_3e0c_0c2c_1800,
        0x0000_3333_3333_6e00,
        0x0000_3333_331e_0c00,
        0x0000_636b_7f7f_3600,
        0x0000_6336_1c36_6300,
        0x0000_3333_333e_301f,
        0x0000_3f19_0c26_3f00,
        0x380c_0c07_0c0c_3800,
        0x1818_1800_1818_1800,
        0x070c_0c38_0c0c_0700,
        0x6e3b_0000_0000_0000,
    ];
    assert(table@ =~= font());
    table
}

/// Row `row` of a glyph, the top row being row 0.
pub fn glyph_row(glyph: u64, row: u8) -> (bits: u8)
    ensures
        bits == spec_glyph_row(glyph, row),
{
    if row >= 8 {
        return 0;
    }
    let shift: u64 = (8 * (7 - row)) as u64;
    assert((glyph >> shift) & 0xff <= 0xff) by (bit_vector);
    ((glyph >> shift) & 0xff) as u8
}

} // verus!
