//! Fixed-point normalized fractions and the pixel-space conversions of the
//! timeline track.
//!
//! A position on the timeline is a fraction of the total duration, held as an
//! integer number of parts per [`FRAC_UNIT`] (so `0` is the left edge and
//! `FRAC_UNIT` the right edge). A track of pixel width `w` maps the fraction
//! `f` to the pixel offset `w * f / FRAC_UNIT`, and a pixel offset back to a
//! fraction by the inverse division, clamped to the valid range.

use vstd::prelude::*;
use vstd::arithmetic::div_mod::{
    lemma_div_is_ordered, lemma_div_multiples_vanish, lemma_div_pos_is_pos,
    lemma_fundamental_div_mod, lemma_mod_bound,
};
use vstd::arithmetic::mul::{
    lemma_mul_is_commutative, lemma_mul_left_inequality, lemma_mul_upper_bound,
};

verus! {

/// One whole duration, in fraction units: a normalized position lies in
/// `0 ..= FRAC_UNIT`.
pub const FRAC_UNIT: u32 = 1_000_000;

/// A fraction is valid when it does not exceed one whole duration.
pub open spec fn valid_frac(f: u32) -> bool {
    f <= FRAC_UNIT
}

/// Pixel offset of the fraction `f` on a track `width` pixels wide.
pub open spec fn spec_pixel_for(f: int, width: int) -> int {
    (width * f) / (FRAC_UNIT as int)
}

/// Fraction for the pixel offset `x` on a track `width` pixels wide, clamped
/// to the valid range `0 ..= FRAC_UNIT`.
pub open spec fn spec_frac_for(x: int, width: int) -> int {
    if x <= 0 {
        0
    } else if x >= width {
        FRAC_UNIT as int
    } else {
        (x * (FRAC_UNIT as int)) / width
    }
}

/// The floor division `x / d` of nonnegative `x` is the unique nonnegative
/// integer whose multiples of `d` bracket `x`.
proof fn lemma_floor_bounds(x: int, d: int)
    requires
        0 <= x,
        0 < d,
    ensures
        0 <= x / d,
        (x / d) * d <= x,
        x < (x / d + 1) * d,
{
    lemma_fundamental_div_mod(x, d);
    lemma_mod_bound(x, d);
    lemma_div_pos_is_pos(x, d);
    assert((x / d) * d <= x && x < (x / d + 1) * d) by (nonlinear_arith)
        requires
            x == d * (x / d) + x % d,
            0 <= x % d < d,
    ;
}

/// Pixel offset of the fraction `f` on a track `width` pixels wide.
pub fn pixel_for(f: u32, width: u32) -> (r: u32)
    requires
        valid_frac(f),
    ensures
        r == spec_pixel_for(f as int, width as int),
        r <= width,
{
    proof {
        let w = width as int;
        let u = FRAC_UNIT as int;
        lemma_mul_upper_bound(w, u32::MAX as int, f as int, u);
        lemma_mul_left_inequality(if w > 0 { w } else { 1 }, f as int, u);
        if w > 0 {
            lemma_div_is_ordered(w * (f as int), w * u, u);
            lemma_mul_is_commutative(w, u);
            lemma_div_multiples_vanish(w, u);
        }
        lemma_floor_bounds(w * (f as int), u);
    }
    let wide: u64 = (width as u64) * (f as u64) / (FRAC_UNIT as u64);
    wide as u32
}

/// Fraction for the pixel offset `x` (which may lie outside the track) on a
/// track `width` pixels wide.
pub fn frac_for(x: i64, width: u32) -> (r: u32)
    requires
        width > 0,
    ensures
        r == spec_frac_for(x as int, width as int),
        valid_frac(r),
{
    if x <= 0 {
        0
    } else if x >= width as i64 {
        FRAC_UNIT
    } else {
        proof {
            let w = width as int;
            let u = FRAC_UNIT as int;
            lemma_mul_upper_bound(x as int, u32::MAX as int, u, u);
            lemma_mul_left_inequality(u, x as int, w);
            lemma_mul_is_commutative(x as int, u);
            lemma_mul_is_commutative(w, u);
            lemma_div_is_ordered((x as int) * u, w * u, w);
            lemma_div_multiples_vanish(u, w);
            lemma_floor_bounds((x as int) * u, w);
        }
        let wide: u64 = (x as u64) * (FRAC_UNIT as u64) / (width as u64);
        wide as u32
    }
}

/// A clamped fraction always lies within one whole duration.
pub proof fn lemma_frac_for_bounds(x: int, width: int)
    requires
        0 < width,
    ensures
        0 <= spec_frac_for(x, width) <= FRAC_UNIT as int,
{
    let u = FRAC_UNIT as int;
    if 0 < x < width {
        lemma_floor_bounds(x * u, width);
        lemma_mul_left_inequality(u, x, width);
        lemma_mul_is_commutative(x, u);
        lemma_mul_is_commutative(width, u);
        lemma_div_is_ordered(x * u, width * u, width);
        lemma_div_multiples_vanish(u, width);
    }
}

/// Absolute milliseconds that the fraction `f` of a `duration_ms`-long
/// duration stands for.
pub open spec fn spec_frac_to_ms(f: int, duration_ms: int) -> int {
    (duration_ms * f) / (FRAC_UNIT as int)
}

/// Largest duration, in milliseconds, that the fixed-point conversions
/// accept without overflowing 64-bit intermediates.
pub const MAX_DURATION_MS: u64 = 0xFFFF_FFFF_FFFF_FFFFu64 / 1_000_000u64;

/// Absolute milliseconds that the fraction `f` of a `duration_ms`-long
/// duration stands for.
pub fn frac_to_ms(f: u32, duration_ms: u64) -> (r: u64)
    requires
        valid_frac(f),
        duration_ms <= MAX_DURATION_MS,
    ensures
        r == spec_frac_to_ms(f as int, duration_ms as int),
        r <= duration_ms,
{
    proof {
        let d = duration_ms as int;
        let u = FRAC_UNIT as int;
        lemma_mul_upper_bound(d, MAX_DURATION_MS as int, f as int, u);
        lemma_mul_left_inequality(if d > 0 { d } else { 1 }, f as int, u);
        if d > 0 {
            lemma_div_is_ordered(d * (f as int), d * u, u);
            lemma_mul_is_commutative(d, u);
            lemma_div_multiples_vanish(d, u);
        }
        lemma_floor_bounds(d * (f as int), u);
    }
    (duration_ms * (f as u64)) / (FRAC_UNIT as u64)
}

/// Law: converting a fraction to its pixel offset and back is the identity up
/// to the rounding of the two integer divisions — the recovered fraction never
/// exceeds the original, and falls short of it by at most one pixel's worth of
/// fraction units (`FRAC_UNIT / width`, plus one for the floors).
pub proof fn lemma_frac_pixel_round_trip(f: int, width: int)
    requires
        0 < width,
        0 <= f <= FRAC_UNIT as int,
    ensures
        spec_frac_for(spec_pixel_for(f, width), width) <= f,
        f - spec_frac_for(spec_pixel_for(f, width), width) <= (FRAC_UNIT as int) / width + 1,
{
    let u = FRAC_UNIT as int;
    let p = spec_pixel_for(f, width);
    lemma_floor_bounds(width * f, u);
    assert(p * u <= width * f < (p + 1) * u);
    lemma_floor_bounds(u, width);
    if p >= width {
        // Only possible when f is one whole duration: the round trip is exact.
        assert(f >= u) by (nonlinear_arith)
            requires
                width <= p,
                p * u <= width * f,
                0 < u,
                0 < width,
        ;
        assert(spec_frac_for(p, width) == u);
    } else if p <= 0 {
        // The recovered fraction is 0; f itself is under one pixel's worth.
        assert(width * f < u) by (nonlinear_arith)
            requires
                width * f < (p + 1) * u,
                p <= 0,
                0 < u,
        ;
        assert(f <= u / width + 1) by (nonlinear_arith)
            requires
                width * f < u,
                0 < width,
                u < (u / width + 1) * width,
        ;
        assert(spec_frac_for(p, width) == 0);
    } else {
        let f2 = (p * u) / width;
        assert(spec_frac_for(p, width) == f2);
        lemma_floor_bounds(p * u, width);
        assert(f2 * width <= p * u < (f2 + 1) * width);
        assert(f2 <= f) by (nonlinear_arith)
            requires
                f2 * width <= p * u,
                p * u <= width * f,
                0 < width,
        ;
        assert(f - f2 <= u / width + 1) by (nonlinear_arith)
            requires
                width * f < (p + 1) * u,
                p * u < (f2 + 1) * width,
                u < (u / width + 1) * width,
                0 < width,
                0 < u,
        ;
    }
}

/// Law: converting a pixel offset on the track to its fraction and back is
/// likewise the identity up to rounding — the recovered offset never exceeds
/// the original, and falls short of it by at most one fraction unit's worth
/// of pixels (`width / FRAC_UNIT`, plus one for the floors).
pub proof fn lemma_pixel_frac_round_trip(x: int, width: int)
    requires
        0 < width,
        0 <= x <= width,
    ensures
        spec_pixel_for(spec_frac_for(x, width), width) <= x,
        x - spec_pixel_for(spec_frac_for(x, width), width) <= width / (FRAC_UNIT as int) + 1,
{
    let u = FRAC_UNIT as int;
    let f = spec_frac_for(x, width);
    lemma_floor_bounds(width, u);
    if x <= 0 {
        assert(f == 0);
        assert(spec_pixel_for(0, width) == 0) by {
            assert(width * 0 == 0);
        }
    } else if x >= width {
        assert(f == u);
        assert(spec_pixel_for(u, width) == width) by {
            lemma_mul_is_commutative(width, u);
            lemma_div_multiples_vanish(width, u);
        }
    } else {
        lemma_floor_bounds(x * u, width);
        assert(f * width <= x * u < (f + 1) * width);
        lemma_floor_bounds(width * f, u);
        let p = spec_pixel_for(f, width);
        assert(p * u <= width * f < (p + 1) * u);
        assert(p <= x) by (nonlinear_arith)
            requires
                p * u <= width * f,
                f * width <= x * u,
                0 < u,
                0 < width,
        ;
        assert(x - p <= width / u + 1) by (nonlinear_arith)
            requires
                x * u < (f + 1) * width,
                width * f < (p + 1) * u,
                width < (width / u + 1) * u,
                0 < width,
                0 < u,
        ;
    }
}

} // verus!
