//! Solid paint colors and the packed pixel format of the boundary.
//!
//! Callers hand colors across the boundary as straight (non-premultiplied)
//! 8-bit channels. Pixels are read back as one packed 32-bit word per pixel:
//! premultiplied ARGB, alpha in the highest byte, blue in the lowest. Each
//! color channel is premultiplied by the alpha with the usual rounding
//! division by 255 (`(t + t/256) / 256` for `t = a*c + 128`), so an opaque
//! color packs its channels unchanged.

use vstd::prelude::*;

verus! {

/// A straight (non-premultiplied) color, one byte per channel.
#[derive(Clone, Copy, PartialEq, Eq, Structural, Debug)]
pub struct Rgba {
    pub r: u8,
    pub g: u8,
    pub b: u8,
    pub a: u8,
}

/// A channel `c` premultiplied by alpha `a`: the standard rounding
/// approximation of `c * a / 255`.
pub open spec fn premul_spec(a: int, c: int) -> int {
    ((a * c + 128) + (a * c + 128) / 256) / 256
}

/// The packed pixel word for a straight color: premultiplied ARGB,
/// `0xAARRGGBB`.
pub open spec fn packed_spec(c: Rgba) -> int {
    (c.a as int) * 0x1000000 + premul_spec(c.a as int, c.r as int) * 0x10000
        + premul_spec(c.a as int, c.g as int) * 0x100 + premul_spec(c.a as int, c.b as int)
}

/// Premultiplication stays within one byte, and an opaque alpha leaves the
/// channel unchanged.
pub proof fn lemma_premul_bounds(a: int, c: int)
    requires
        0 <= a <= 255,
        0 <= c <= 255,
    ensures
        0 <= premul_spec(a, c) <= 255,
        a == 255 ==> premul_spec(a, c) == c,
{
    assert(a * c <= 255 * 255) by (nonlinear_arith)
        requires 0 <= a <= 255 && 0 <= c <= 255;
    assert(0 <= a * c) by (nonlinear_arith)
        requires 0 <= a && 0 <= c;
    if a == 255 {
        assert(premul_spec(255, c) == c) by (nonlinear_arith)
            requires 0 <= c <= 255;
    }
}

/// The packed word fits in 32 bits.
pub proof fn lemma_packed_bounds(c: Rgba)
    ensures
        0 <= packed_spec(c) < 0x100000000,
{
    lemma_premul_bounds(c.a as int, c.r as int);
    lemma_premul_bounds(c.a as int, c.g as int);
    lemma_premul_bounds(c.a as int, c.b as int);
}

/// Premultiplies one channel by the alpha.
pub fn premul_channel(a: u8, c: u8) -> (r: u8)
    ensures
        r == premul_spec(a as int, c as int),
{
    proof {
        lemma_premul_bounds(a as int, c as int);
    }
    let t: u32 = (a as u32) * (c as u32) + 128;
    ((t + t / 256) / 256) as u8
}

/// Packs a straight color into the boundary's pixel word:
/// premultiplied ARGB, `0xAARRGGBB`.
pub fn pack(c: Rgba) -> (r: u32)
    ensures
        r == packed_spec(c),
{
    proof {
        lemma_premul_bounds(c.a as int, c.r as int);
        lemma_premul_bounds(c.a as int, c.g as int);
        lemma_premul_bounds(c.a as int, c.b as int);
    }
    let pr = premul_channel(c.a, c.r);
    let pg = premul_channel(c.a, c.g);
    let pb = premul_channel(c.a, c.b);
    (c.a as u32) * 0x1000000 + (pr as u32) * 0x10000 + (pg as u32) * 0x100 + (pb as u32)
}

/// The packed word of an opaque color carries its channels unchanged.
pub proof fn lemma_pack_opaque(c: Rgba)
    requires
        c.a == 255,
    ensures
        packed_spec(c) == 0xFF000000 + (c.r as int) * 0x10000 + (c.g as int) * 0x100 + (c.b as int),
{
    lemma_premul_bounds(255, c.r as int);
    lemma_premul_bounds(255, c.g as int);
    lemma_premul_bounds(255, c.b as int);
}

} // verus!
