//! A color packed into a single `u32` word, laid out as `0x00RRGGBB`.

use vstd::prelude::*;

verus! {

/// A color stored in the low 24 bits of a `u32`: red in bits 16..24,
/// green in bits 8..16, blue in bits 0..8, and the top byte zero whenever
/// the value was built by `from_rgb`.
#[derive(Clone, Copy, Debug, PartialEq, Eq, Structural)]
pub struct Color(pub u32);

/// The word that packs three 8-bit channels as `0x00RRGGBB`.
pub open spec fn pack_rgb(r: u8, g: u8, b: u8) -> u32 {
    ((r as u32) << 16) | ((g as u32) << 8) | (b as u32)
}

/// Packing three channels and then extracting any of them gives the
/// channel back, and the packed word never exceeds 24 bits.
proof fn lemma_pack_unpack(r: u8, g: u8, b: u8)
    by (bit_vector)
    ensures
        (pack_rgb(r, g, b) >> 16) & 0xFF == r as u32,
        (pack_rgb(r, g, b) >> 8) & 0xFF == g as u32,
        pack_rgb(r, g, b) & 0xFF == b as u32,
        pack_rgb(r, g, b) <= 0x00FF_FFFF,
{
}

impl Color {
    /// The red channel of the packed word.
    pub open spec fn red(self) -> u8 {
        (((self.0 >> 16) & 0xFF) as u8)
    }

    /// The green channel of the packed word.
    pub open spec fn green(self) -> u8 {
        (((self.0 >> 8) & 0xFF) as u8)
    }

    /// The blue channel of the packed word.
    pub open spec fn blue(self) -> u8 {
        ((self.0 & 0xFF) as u8)
    }

    /// Packs three channels into one word; each channel can be read back
    /// unchanged with `r`, `g` and `b`.
    pub fn from_rgb(r: u8, g: u8, b: u8) -> (c: Color)
        ensures
            c.0 == pack_rgb(r, g, b),
            c.red() == r,
            c.green() == g,
            c.blue() == b,
    {
        proof {
            lemma_pack_unpack(r, g, b);
        }
        Color(((r as u32) << 16) | ((g as u32) << 8) | (b as u32))
    }

    /// Extracts the red channel.
    pub fn r(&self) -> (r: u8)
        ensures
            r == self.red(),
    {
        let w = self.0;
        assert((w & 0x00FF_0000) >> 16 == (w >> 16) & 0xFF) by (bit_vector);
        ((w & 0x00FF_0000) >> 16) as u8
    }

    /// Extracts the green channel.
    pub fn g(&self) -> (g: u8)
        ensures
            g == self.green(),
    {
        let w = self.0;
        assert((w & 0x0000_FF00) >> 8 == (w >> 8) & 0xFF) by (bit_vector);
        ((w & 0x0000_FF00) >> 8) as u8
    }

    /// Extracts the blue channel.
    pub fn b(&self) -> (b: u8)
        ensures
            b == self.blue(),
    {
        (self.0 & 0x0000_00FF) as u8
    }

    /// Channel-wise sum of two colors. Each channel is 8 bits wide, so the
    /// sums must stay within a byte.
    pub fn add(self, rhs: Color) -> (c: Color)
        requires
            self.red() + rhs.red() <= 255,
            self.green() + rhs.green() <= 255,
            self.blue() + rhs.blue() <= 255,
        ensures
            c.red() == self.red() + rhs.red(),
            c.green() == self.green() + rhs.green(),
            c.blue() == self.blue() + rhs.blue(),
    {
        Color::from_rgb(self.r() + rhs.r(), self.g() + rhs.g(), self.b() + rhs.b())
    }
}

} // verus!
