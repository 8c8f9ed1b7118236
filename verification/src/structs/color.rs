//! A color with three signed integer channels.
//!
//! Channels are byte-ranged (`0 ..= 255`) at the sink boundary, but during
//! sampling a pixel accumulates many ray colors before averaging, so the
//! channels are kept wide and no range invariant is imposed here.

use vstd::prelude::*;
use vstd::string::StringExecFns;
use crate::decimal::{int_string, i32_string};

verus! {

/// An additive, scalable color triple.
#[derive(Clone, Copy, Debug, PartialEq, Eq, Structural)]
pub struct Color {
    pub r: i32,
    pub g: i32,
    pub b: i32,
}

/// Division rounding toward zero by a positive scalar: the rounding that
/// channel averaging uses.
pub open spec fn div_toward_zero(a: int, n: int) -> int {
    if a >= 0 {
        a / n
    } else {
        -((-a) / n)
    }
}

/// Channel-wise color addition on the mathematical model, defined where
/// every channel sum stays within its machine range.
pub open spec fn spec_sum(a: Color, b: Color) -> Color {
    Color { r: (a.r + b.r) as i32, g: (a.g + b.g) as i32, b: (a.b + b.b) as i32 }
}

/// True when every channel sum of the two colors fits its machine range.
pub open spec fn sum_fits(a: Color, b: Color) -> bool {
    &&& i32::MIN <= a.r + b.r <= i32::MAX
    &&& i32::MIN <= a.g + b.g <= i32::MAX
    &&& i32::MIN <= a.b + b.b <= i32::MAX
}

/// Law: color addition is commutative.
pub proof fn lemma_sum_commutative(a: Color, b: Color)
    ensures
        spec_sum(a, b) == spec_sum(b, a),
{
}

/// Law: color addition is associative, on colors whose partial and total
/// sums stay within the channels' machine range.
pub proof fn lemma_sum_associative(a: Color, b: Color, c: Color)
    requires
        sum_fits(a, b),
        sum_fits(b, c),
        sum_fits(spec_sum(a, b), c),
    ensures
        spec_sum(spec_sum(a, b), c) == spec_sum(a, spec_sum(b, c)),
{
}

/// The text form of a color: the three channel values in decimal,
/// separated by single spaces.
pub open spec fn color_string(c: Color) -> Seq<char> {
    int_string(c.r as int) + " "@ + int_string(c.g as int) + " "@ + int_string(c.b as int)
}

impl Color {
    /// Builds a color from its three channels.
    pub fn new(r: i32, g: i32, b: i32) -> (c: Color)
        ensures
            c == (Color { r, g, b }),
    {
        Color { r, g, b }
    }

    /// The red channel.
    pub fn r(&self) -> (r: i32)
        ensures
            r == self.r,
    {
        self.r
    }

    /// The green channel.
    pub fn g(&self) -> (g: i32)
        ensures
            g == self.g,
    {
        self.g
    }

    /// The blue channel.
    pub fn b(&self) -> (b: i32)
        ensures
            b == self.b,
    {
        self.b
    }

    /// Renders the three channels as space-separated decimal values.
    pub fn as_string(&self) -> (s: String)
        ensures
            s@ == color_string(*self),
    {
        let mut s = i32_string(self.r);
        s.append(" ");
        s.append(i32_string(self.g).as_str());
        s.append(" ");
        s.append(i32_string(self.b).as_str());
        s
    }

    /// Channel-wise sum, used to accumulate sample colors.
    pub fn add(self, rhs: Color) -> (c: Color)
        requires
            i32::MIN <= self.r + rhs.r <= i32::MAX,
            i32::MIN <= self.g + rhs.g <= i32::MAX,
            i32::MIN <= self.b + rhs.b <= i32::MAX,
        ensures
            c.r == self.r + rhs.r,
            c.g == self.g + rhs.g,
            c.b == self.b + rhs.b,
            c == spec_sum(self, rhs),
    {
        Color { r: self.r + rhs.r, g: self.g + rhs.g, b: self.b + rhs.b }
    }

    /// Channel-wise sum in place.
    pub fn add_assign(&mut self, rhs: Color)
        requires
            i32::MIN <= old(self).r + rhs.r <= i32::MAX,
            i32::MIN <= old(self).g + rhs.g <= i32::MAX,
            i32::MIN <= old(self).b + rhs.b <= i32::MAX,
        ensures
            final(self).r == old(self).r + rhs.r,
            final(self).g == old(self).g + rhs.g,
            final(self).b == old(self).b + rhs.b,
    {
        self.r = self.r + rhs.r;
        self.g = self.g + rhs.g;
        self.b = self.b + rhs.b;
    }

    /// Channel-wise product, used to attenuate a bounced ray's color by a
    /// material's albedo.
    pub fn mul(self, rhs: Color) -> (c: Color)
        requires
            i32::MIN <= self.r * rhs.r <= i32::MAX,
            i32::MIN <= self.g * rhs.g <= i32::MAX,
            i32::MIN <= self.b * rhs.b <= i32::MAX,
        ensures
            c.r == self.r * rhs.r,
            c.g == self.g * rhs.g,
            c.b == self.b * rhs.b,
    {
        Color { r: self.r * rhs.r, g: self.g * rhs.g, b: self.b * rhs.b }
    }

    /// Channel-wise division by a positive scalar, rounding toward zero;
    /// averages a pixel's accumulated samples and rescales attenuation.
    pub fn div(self, scalar: i32) -> (c: Color)
        requires
            scalar >= 1,
        ensures
            c.r == div_toward_zero(self.r as int, scalar as int),
            c.g == div_toward_zero(self.g as int, scalar as int),
            c.b == div_toward_zero(self.b as int, scalar as int),
    {
        Color { r: self.r / scalar, g: self.g / scalar, b: self.b / scalar }
    }
}

} // verus!
