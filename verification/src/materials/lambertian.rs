//! An ideal matte surface.

use vstd::prelude::*;
use crate::structs::color::{Color, div_toward_zero};

verus! {

/// A matte surface.
///
/// `albedo` is the effective color of the surface: every time a ray
/// bounces off the material, each channel of the ray's color is scaled by
/// a factor of `albedo / 255`.
pub struct Lambertian {
    pub albedo: Color,
}

impl Lambertian {
    /// A matte material with the given effective surface color.
    pub fn new(albedo: Color) -> (m: Lambertian)
        ensures
            m.albedo == albedo,
    {
        Lambertian { albedo }
    }

    /// The color a bounced ray keeps after striking this surface: each
    /// channel of the incoming color scaled by `albedo / 255`, rounded
    /// toward zero.
    pub fn attenuate(&self, incoming: Color) -> (c: Color)
        requires
            i32::MIN <= self.albedo.r * incoming.r <= i32::MAX,
            i32::MIN <= self.albedo.g * incoming.g <= i32::MAX,
            i32::MIN <= self.albedo.b * incoming.b <= i32::MAX,
        ensures
            c.r == div_toward_zero(self.albedo.r * incoming.r, 255),
            c.g == div_toward_zero(self.albedo.g * incoming.g, 255),
            c.b == div_toward_zero(self.albedo.b * incoming.b, 255),
    {
        self.albedo.mul(incoming).div(255)
    }
}

} // verus!
