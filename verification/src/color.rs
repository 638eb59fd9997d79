//! An RGB color with three 8-bit channels.
//!
//! Colors support saturating addition, scaling by a fixed-point factor
//! (used for the per-fragment light intensity) and linear interpolation by
//! a fixed-point factor clamped to `[0, 1]`, and pack into the `0xRRGGBB`
//! integer form the framebuffer stores.

use vstd::prelude::*;
use vstd::arithmetic::div_mod::lemma_div_is_ordered;
use vstd::arithmetic::div_mod::lemma_div_multiples_vanish;
use vstd::arithmetic::mul::lemma_mul_inequality;
use crate::fixed::FX_ONE;
use crate::fixed::clamp_s;
use crate::fixed::dtz;

verus! {

/// An RGB color; each channel ranges over `0..=255`.
#[derive(Debug, Clone, Copy, PartialEq, Eq, Structural)]
pub struct Color {
    pub r: u8,
    pub g: u8,
    pub b: u8,
}

/// The packed `0xRRGGBB` form of a color.
pub open spec fn hex_s(c: Color) -> int {
    c.r * 0x10000 + c.g * 0x100 + c.b
}

/// One channel of a saturating color addition.
pub open spec fn add_ch_s(a: int, b: int) -> int {
    if a + b > 255 {
        255
    } else {
        a + b
    }
}

/// One channel scaled by a fixed-point factor and clamped to the channel
/// range; a negative factor darkens to zero.
pub open spec fn scale_ch_s(c: int, t: int) -> int {
    clamp_s(dtz(c * t, FX_ONE as int), 0, 255)
}

/// One channel interpolated from `a` toward `b` by a factor clamped to
/// `[0, 1]`.
pub open spec fn lerp_ch_s(a: int, b: int, t: int) -> int {
    let tc = clamp_s(t, 0, FX_ONE as int);
    a + dtz((b - a) * tc, FX_ONE as int)
}

/// A color added channel-wise, saturating at white.
pub open spec fn addc_s(a: Color, b: Color) -> Color {
    Color { r: add_ch_s(a.r as int, b.r as int) as u8, g: add_ch_s(a.g as int, b.g as int) as u8, b: add_ch_s(
        a.b as int,
        b.b as int,
    ) as u8 }
}

/// A color scaled channel-wise.
pub open spec fn scale_s(c: Color, t: int) -> Color {
    Color { r: scale_ch_s(c.r as int, t) as u8, g: scale_ch_s(c.g as int, t) as u8, b: scale_ch_s(
        c.b as int,
        t,
    ) as u8 }
}

/// A color interpolated channel-wise.
pub open spec fn lerp_s(a: Color, b: Color, t: int) -> Color {
    Color { r: lerp_ch_s(a.r as int, b.r as int, t) as u8, g: lerp_ch_s(
        a.g as int,
        b.g as int,
        t,
    ) as u8, b: lerp_ch_s(a.b as int, b.b as int, t) as u8 }
}

/// One channel of `scale_s`, executable.
fn scale_ch(c: u8, t: i64) -> (r: u8)
    ensures
        r == scale_ch_s(c as int, t as int),
{
    if t <= 0 {
        proof {
            if c as int * t as int > 0 {
                assert(false) by (nonlinear_arith)
                    requires
                        c as int >= 0,
                        t as int <= 0,
                        c as int * t as int > 0,
                ;
            }
        }
        0
    } else {
        proof {
            assert(c as int * t as int <= 255 * 0x7fff_ffff_ffff_ffff) by (nonlinear_arith)
                requires
                    0 <= c as int <= 255,
                    0 < t as int <= 0x7fff_ffff_ffff_ffff,
            ;
        }
        let p: u128 = (c as u128) * (t as u128);
        let q: u128 = p / 65536;
        proof {
            lemma_div_is_ordered(0, p as int, 65536);
        }
        if q > 255 {
            255
        } else {
            q as u8
        }
    }
}

/// One channel of `lerp_s`, executable.
fn lerp_ch(a: u8, b: u8, t: i64) -> (r: u8)
    ensures
        r == lerp_ch_s(a as int, b as int, t as int),
{
    let tc: u64 = if t <= 0 {
        0
    } else if t >= FX_ONE {
        65536
    } else {
        t as u64
    };
    if b >= a {
        let d: u64 = (b - a) as u64;
        proof {
            lemma_mul_inequality(d as int, 255, tc as int);
        }
        let p: u64 = d * tc;
        let q: u64 = p / 65536;
        proof {
            assert(p as int <= d as int * 65536) by (nonlinear_arith)
                requires
                    p == d as int * tc as int,
                    0 <= tc as int <= 65536,
                    d as int >= 0,
            ;
            lemma_div_is_ordered(p as int, d as int * 65536, 65536);
            lemma_div_multiples_vanish(d as int, 65536);
        }
        a + (q as u8)
    } else {
        let d: u64 = (a - b) as u64;
        proof {
            lemma_mul_inequality(d as int, 255, tc as int);
        }
        let p: u64 = d * tc;
        let q: u64 = p / 65536;
        proof {
            assert(p as int <= d as int * 65536) by (nonlinear_arith)
                requires
                    p == d as int * tc as int,
                    0 <= tc as int <= 65536,
                    d as int >= 0,
            ;
            lemma_div_is_ordered(p as int, d as int * 65536, 65536);
            lemma_div_multiples_vanish(d as int, 65536);
            assert((b as int - a as int) * tc == -(d as int * tc)) by (nonlinear_arith)
                requires
                    d == a as int - b as int,
            ;
        }
        a - (q as u8)
    }
}

impl Color {
    /// A color from its three channels.
    pub fn new(r: u8, g: u8, b: u8) -> (c: Color)
        ensures
            c == (Color { r, g, b }),
    {
        Color { r, g, b }
    }

    /// The packed `0xRRGGBB` pixel value.
    pub fn to_hex(&self) -> (h: u32)
        ensures
            h == hex_s(*self),
    {
        (self.r as u32) * 0x10000 + (self.g as u32) * 0x100 + (self.b as u32)
    }

    /// Channel-wise addition, saturating at white.
    pub fn saturating_add(&self, other: &Color) -> (c: Color)
        ensures
            c == addc_s(*self, *other),
    {
        let r: u16 = self.r as u16 + other.r as u16;
        let g: u16 = self.g as u16 + other.g as u16;
        let b: u16 = self.b as u16 + other.b as u16;
        Color {
            r: if r > 255 {
                255
            } else {
                r as u8
            },
            g: if g > 255 {
                255
            } else {
                g as u8
            },
            b: if b > 255 {
                255
            } else {
                b as u8
            },
        }
    }

    /// The color scaled by a fixed-point factor (brightness multiply).
    pub fn scale(&self, t: i64) -> (c: Color)
        ensures
            c == scale_s(*self, t as int),
    {
        Color { r: scale_ch(self.r, t), g: scale_ch(self.g, t), b: scale_ch(self.b, t) }
    }

    /// Linear interpolation from `self` toward `other` by a fixed-point
    /// factor; the factor is clamped to `[0, 1]`, so a factor at or below
    /// zero returns `self` and one at or above one returns `other`.
    pub fn lerp(&self, other: &Color, t: i64) -> (c: Color)
        ensures
            c == lerp_s(*self, *other, t as int),
            t <= 0 ==> c == *self,
            t >= FX_ONE ==> c == *other,
    {
        let c = Color {
            r: lerp_ch(self.r, other.r, t),
            g: lerp_ch(self.g, other.g, t),
            b: lerp_ch(self.b, other.b, t),
        };
        proof {
            lemma_lerp_endpoints(*self, *other, t as int);
        }
        c
    }
}

/// Interpolation hits its endpoints: factor zero (or less) keeps the
/// first color, factor one (or more) gives the second.
pub proof fn lemma_lerp_endpoints(a: Color, b: Color, t: int)
    ensures
        t <= 0 ==> lerp_s(a, b, t) == a,
        t >= FX_ONE ==> lerp_s(a, b, t) == b,
{
    if t <= 0 {
        lemma_lerp_ch_zero(a.r as int, b.r as int, t);
        lemma_lerp_ch_zero(a.g as int, b.g as int, t);
        lemma_lerp_ch_zero(a.b as int, b.b as int, t);
    }
    if t >= FX_ONE {
        lemma_lerp_ch_one(a.r as int, b.r as int, t);
        lemma_lerp_ch_one(a.g as int, b.g as int, t);
        lemma_lerp_ch_one(a.b as int, b.b as int, t);
    }
}

proof fn lemma_lerp_ch_zero(a: int, b: int, t: int)
    requires
        t <= 0,
    ensures
        lerp_ch_s(a, b, t) == a,
{
    assert((b - a) * 0 == 0) by (nonlinear_arith);
}

proof fn lemma_lerp_ch_one(a: int, b: int, t: int)
    requires
        0 <= a <= 255,
        0 <= b <= 255,
        t >= FX_ONE,
    ensures
        lerp_ch_s(a, b, t) == b,
{
    let d = b - a;
    if d >= 0 {
        lemma_div_multiples_vanish(d, 65536);
    } else {
        assert(d * 65536 == -((-d) * 65536)) by (nonlinear_arith);
        lemma_div_multiples_vanish(-d, 65536);
    }
}

} // verus!
