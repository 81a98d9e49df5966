//! Spectral color carried in fixed-point form.

use vstd::prelude::*;

verus! {

/// Scale of the fixed-point color channels: a channel value `c`
/// stands for the real intensity `c / COLOR_SCALE`.
pub const COLOR_SCALE: i64 = 1_000_000;

/// An RGB radiometric quantity (emission, transmittance factor,
/// scattering coefficient).  Each channel is a fixed-point number in
/// units of `1 / COLOR_SCALE`.
#[derive(PartialEq, Eq, Structural, Clone, Copy, Debug)]
pub struct Color {
    pub r: i64,
    pub g: i64,
    pub b: i64,
}

impl Color {
    /// The gray color with all three channels equal to `v`.
    pub fn value(v: i64) -> (c: Color)
        ensures
            c.r == v,
            c.g == v,
            c.b == v,
    {
        Color { r: v, g: v, b: v }
    }

    /// True exactly when every channel is zero.
    pub fn is_zero(&self) -> (z: bool)
        ensures
            z == (self.r == 0 && self.g == 0 && self.b == 0),
    {
        self.r == 0 && self.g == 0 && self.b == 0
    }
}

} // verus!
