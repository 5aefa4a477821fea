//! Fixed-point geometry.
//!
//! The boundary carries coordinates as 24.8 fixed-point numbers: `raw` is the
//! coordinate in units of 1/256 pixel. An adapter converts between this and
//! whatever scalar type its rendering engine expects. A coordinate that lies
//! on the pixel grid (`aligned`) has an exact pixel value `px`, which is what
//! the pixel model in `model` reasons about.

use vstd::prelude::*;
use vstd::arithmetic::div_mod::{
    lemma_div_multiples_vanish_fancy, lemma_fundamental_div_mod, lemma_mod_bound,
    lemma_mod_multiples_vanish,
};

verus! {

/// One pixel, in raw fixed-point units.
pub const FX_ONE: i32 = 256;

/// A 24.8 fixed-point coordinate: `raw` counts 1/256ths of a pixel.
#[derive(Clone, Copy, PartialEq, Eq, Structural, Debug)]
pub struct Fx {
    pub raw: i32,
}

impl Fx {
    /// The coordinate lies exactly on the pixel grid.
    pub open spec fn aligned(self) -> bool {
        self.raw % 256 == 0
    }

    /// The whole-pixel value of an aligned coordinate.
    pub open spec fn px(self) -> int {
        self.raw / 256
    }
}

/// Builds the fixed-point coordinate of a whole pixel count.
pub fn fx_from_px(px: i32) -> (r: Fx)
    requires
        -0x400000 <= px <= 0x3FFFFF,
    ensures
        r.raw == px * 256,
        r.aligned(),
        r.px() == px,
{
    proof {
        assert(px * 256 % 256 == 0 && px * 256 / 256 == px) by (nonlinear_arith);
        assert(-0x400000 * 256 <= px * 256 <= 0x3FFFFF * 256) by (nonlinear_arith)
            requires -0x400000 <= px <= 0x3FFFFF;
    }
    Fx { raw: px * 256 }
}

/// Tells whether the coordinate lies exactly on the pixel grid.
pub fn fx_aligned(v: Fx) -> (r: bool)
    ensures
        r == v.aligned(),
{
    if v.raw >= 0 {
        (v.raw as u32) % 256 == 0
    } else {
        let s: i64 = v.raw as i64 + 0x100000000;
        proof {
            lemma_mod_multiples_vanish(0x1000000, v.raw as int, 256);
        }
        (s as u64) % 256 == 0
    }
}

/// The whole-pixel value of the coordinate, rounding down.
pub fn fx_px(v: Fx) -> (r: i32)
    ensures
        r == v.px(),
{
    if v.raw >= 0 {
        ((v.raw as u32) / 256) as i32
    } else {
        let s: i64 = v.raw as i64 + 0x100000000;
        proof {
            lemma_fundamental_div_mod(v.raw as int, 256);
            lemma_mod_bound(v.raw as int, 256);
            lemma_div_multiples_vanish_fancy(
                (v.raw as int) / 256 + 0x1000000,
                (v.raw as int) % 256,
                256,
            );
        }
        (((s as u64) / 256) as i64 - 0x1000000) as i32
    }
}

/// A point in fixed-point coordinates.
#[derive(Clone, Copy, PartialEq, Eq, Structural, Debug)]
pub struct Point {
    pub x: Fx,
    pub y: Fx,
}

/// Builds a point from whole pixel counts.
pub fn point_from_px(x: i32, y: i32) -> (r: Point)
    requires
        -0x400000 <= x <= 0x3FFFFF,
        -0x400000 <= y <= 0x3FFFFF,
    ensures
        r.x.raw == x * 256 && r.y.raw == y * 256,
        r.x.aligned() && r.y.aligned(),
        r.x.px() == x && r.y.px() == y,
{
    Point { x: fx_from_px(x), y: fx_from_px(y) }
}

} // verus!
