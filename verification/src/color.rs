//! Linear colors and the distance-based light transport.

use crate::fixed::fx_att;
use crate::fixed::fx_div;
use crate::fixed::fx_mul;
use crate::fixed::spec_att;
use crate::fixed::spec_fx_div;
use crate::fixed::spec_fx_mul;
use crate::fixed::tdiv;
use crate::fixed::FX_ONE;
use vstd::prelude::*;

verus! {

/// A color with three fixed-point channels (red, green, blue) in linear
/// space. `FX_ONE` per channel is full intensity; channels are not
/// clamped to that range while colors are combined.
#[derive(Clone, Copy, Debug, PartialEq, Eq, Structural)]
pub struct Color(pub i64, pub i64, pub i64);

/// One channel mapped to an 8-bit display value: the channel is scaled
/// by 255 and truncated toward zero, and anything outside `0..=255`
/// saturates at the nearer end. Full intensity maps to exactly 255 and
/// zero to 0.
pub open spec fn spec_channel_byte(c: int) -> int {
    let v = tdiv(c * 255, FX_ONE as int);
    if v < 0 {
        0
    } else if v > 255 {
        255
    } else {
        v
    }
}

fn channel_byte(c: i64) -> (r: u8)
    ensures
        r as int == spec_channel_byte(c as int),
{
    let p: i128 = (c as i128) * 255;
    let v: i128 = crate::fixed::tdiv128(p, FX_ONE as i128);
    if v < 0 {
        0
    } else if v > 255 {
        255
    } else {
        v as u8
    }
}

impl Color {
    /// The divisor actually applied at distance `dist`: the falloff
    /// `dist` to the power 1/32, except that a zero falloff (which only
    /// a non-positive distance produces) is replaced by one, so that
    /// degenerate distances pass light through unattenuated instead of
    /// failing.
    pub open spec fn spec_falloff(dist: int) -> int {
        if spec_att(dist) == 0 {
            FX_ONE as int
        } else {
            spec_att(dist)
        }
    }

    /// Light transport: each channel of `self` is tinted by the matching
    /// channel of `light` and divided by the distance falloff.
    pub open spec fn spec_light(self, light: Color, dist: int) -> Color {
        let f = Self::spec_falloff(dist);
        Color(
            spec_fx_div(spec_fx_mul(self.0 as int, light.0 as int), f) as i64,
            spec_fx_div(spec_fx_mul(self.1 as int, light.1 as int), f) as i64,
            spec_fx_div(spec_fx_mul(self.2 as int, light.2 as int), f) as i64,
        )
    }

    /// A new color, black.
    pub fn new() -> (r: Color)
        ensures
            r == Color(0i64, 0i64, 0i64),
    {
        Color(0, 0, 0)
    }

    /// The color as an 8-bit triple for display, one saturating
    /// conversion per channel.
    pub fn val(&self) -> (r: (u8, u8, u8))
        ensures
            r.0 as int == spec_channel_byte(self.0 as int),
            r.1 as int == spec_channel_byte(self.1 as int),
            r.2 as int == spec_channel_byte(self.2 as int),
    {
        (channel_byte(self.0), channel_byte(self.1), channel_byte(self.2))
    }

    /// The color of `light` carried over distance `dist` onto this
    /// surface color.
    pub fn light(&self, light: Color, dist: i64) -> (r: Color)
        ensures
            r == self.spec_light(light, dist as int),
    {
        let a = fx_att(dist);
        let distf = if a == 0 {
            FX_ONE
        } else {
            a
        };
        Color(
            fx_div(fx_mul(self.0, light.0), distf),
            fx_div(fx_mul(self.1, light.1), distf),
            fx_div(fx_mul(self.2, light.2), distf),
        )
    }
}

} // verus!
