use vstd::prelude::*;
use vstd::string::{StringExecFns, StringSliceAdditionalSpecFns};

use crate::fixed::{scale, Fixed};

verus! {

/// The place of cell `(x, y)` in a row-major grid `width` cells wide.
pub open spec fn row_major(width: int, x: int, y: int) -> int {
    y * width + x
}

/// Distinct cells of a `width` by `height` grid have distinct places, all of
/// them below `width * height`, and a place gives its cell back.
pub proof fn lemma_row_major(width: int, height: int, x: int, y: int)
    requires
        0 <= x < width,
        0 <= y < height,
    ensures
        0 <= y * width <= row_major(width, x, y) < width * height,
        row_major(width, x, y) / width == y,
        row_major(width, x, y) % width == x,
{
    assert(0 <= y * width && y * width + x < width * height && y * width == width * y)
        by (nonlinear_arith)
        requires
            0 <= x < width,
            0 <= y < height,
    ;
    vstd::arithmetic::div_mod::lemma_fundamental_div_mod_converse(width * y + x, width, y, x);
}

/// A place below `width * height` belongs to a cell of the grid.
pub proof fn lemma_row_major_inverse(width: int, height: int, i: int)
    requires
        0 <= i < width * height,
        0 <= width,
        0 <= height,
    ensures
        0 < width,
        0 <= i % width < width,
        0 <= i / width < height,
        row_major(width, i % width, i / width) == i,
{
    assert(0 < width) by (nonlinear_arith)
        requires
            0 <= i < width * height,
            0 <= width,
    ;
    vstd::arithmetic::div_mod::lemma_fundamental_div_mod(i, width);
    vstd::arithmetic::div_mod::lemma_mod_bound(i, width);
    let q = i / width;
    assert(width * q == q * width) by (nonlinear_arith);
    assert(0 <= q < height) by (nonlinear_arith)
        requires
            0 <= i < width * height,
            0 < width,
            i == width * q + i % width,
            0 <= i % width < width,
    ;
}

/// One channel of a blend between the values `a` and `b`: `a + (b - a) *
/// factor`, rounded to the nearest whole number and kept within a byte.
pub open spec fn lerp_channel(a: int, b: int, factor: int) -> int {
    let blended = (a * scale() + (b - a) * factor + scale() / 2) / scale();
    if blended < 0 {
        0
    } else if blended > 255 {
        255
    } else {
        blended
    }
}

/// One channel of a blend.
fn blend(a: u8, b: u8, factor: Fixed) -> (c: u8)
    ensures
        c == lerp_channel(a as int, b as int, factor@),
{
    let diff: i128 = b as i128 - a as i128;
    assert(-255 * 0x1_0000_0000_0000_0000 <= diff * factor.raw <= 255 * 0x1_0000_0000_0000_0000)
        by (nonlinear_arith)
        requires
            -255 <= diff <= 255,
            0 <= factor.raw <= u64::MAX,
    ;
    let numerator: i128 = (a as i128) * 0x1_0000_0000 + diff * (factor.raw as i128) + 0x8000_0000;
    if numerator < 0 {
        0
    } else {
        let blended: i128 = numerator / 0x1_0000_0000;
        if blended > 255 {
            255
        } else {
            blended as u8
        }
    }
}

/// An opaque 24-bit colour.
#[derive(Clone, Copy, Debug)]
pub struct Color {
    r: u8,
    g: u8,
    b: u8,
}

impl View for Color {
    type V = (u8, u8, u8);

    /// The red, green and blue channels, in that order.
    closed spec fn view(&self) -> (u8, u8, u8) {
        (self.r, self.g, self.b)
    }
}

impl Color {
    /// The colour with the given channels.
    pub fn rgb(r: u8, g: u8, b: u8) -> (c: Self)
        ensures
            c@ == (r, g, b),
    {
        Self { r, g, b }
    }

    /// The colour as one `0x00RRGGBB` word.
    pub open spec fn packed(self) -> int {
        self@.0 * 65536 + self@.1 * 256 + self@.2
    }

    /// Packs the colour into the low 24 bits of a word, red highest.
    pub fn as_u32(&self) -> (word: u32)
        ensures
            word == self.packed(),
    {
        let r: u8 = self.r;
        let g: u8 = self.g;
        let b: u8 = self.b;
        assert(((r as u32) << 16 | (g as u32) << 8 | (b as u32)) == r * 65536 + g * 256 + b)
            by (bit_vector);
        (r as u32) << 16 | (g as u32) << 8 | (b as u32)
    }

    /// The blend of this colour and another, channel by channel.
    pub open spec fn spec_lerp(self, other: Color, factor: Fixed) -> (u8, u8, u8) {
        (
            lerp_channel(self@.0 as int, other@.0 as int, factor@) as u8,
            lerp_channel(self@.1 as int, other@.1 as int, factor@) as u8,
            lerp_channel(self@.2 as int, other@.2 as int, factor@) as u8,
        )
    }

    /// The colour on the way from this colour to `other`: this colour at a
    /// factor of zero, `other` at one, and in between each channel in
    /// proportion, rounded. Beyond one the channels stop at their limits.
    pub fn lerp(&self, other: &Color, factor: Fixed) -> (c: Color)
        ensures
            c@ == self.spec_lerp(*other, factor),
    {
        Color {
            r: blend(self.r, other.r, factor),
            g: blend(self.g, other.g, factor),
            b: blend(self.b, other.b, factor),
        }
    }
}

/// `s` followed by as many spaces as it takes to make it `len` bytes long;
/// `s` itself where it is that long already.
pub open spec fn spec_pad(s: &str, len: int) -> Seq<char> {
    if s.spec_bytes().len() >= len {
        s@
    } else {
        s@ + Seq::new((len - s.spec_bytes().len()) as nat, |i: int| ' ')
    }
}

/// Pads `s` with spaces on the right to a length of `len` bytes.
pub fn pad(s: &str, len: usize) -> (padded: String)
    ensures
        padded@ == spec_pad(s, len as int),
{
    let mut padded = String::from_str(s);
    let have: usize = s.as_bytes().len();
    if have >= len {
        return padded;
    }
    let missing: usize = len - have;
    let mut i: usize = 0;
    proof {
        reveal_strlit(" ");
    }
    while i < missing
        invariant
            i <= missing,
            " "@ == seq![' '],
            missing == len - s.spec_bytes().len(),
            padded@ == s@ + Seq::new(i as nat, |j: int| ' '),
        decreases missing - i,
    {
        padded.append(" ");
        assert(padded@ =~= s@ + Seq::new((i + 1) as nat, |j: int| ' '));
        i += 1;
    }
    padded
}

} // verus!
