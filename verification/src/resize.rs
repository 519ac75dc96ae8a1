//! Dimension fitting: computing output width and height under the exact,
//! aspect-preserving, or aspect-preserving-even-divisible resize policies.

use vstd::prelude::*;

verus! {

/// Width and height as a tuple.
pub type Dims = (u32, u32);

/// The possible resize strategies.
#[derive(Debug, Copy, Clone, PartialEq, Eq, Structural)]
pub enum Resize {
    /// Resize each frame to exactly the given width and height, without
    /// taking the aspect ratio into account.
    Exact(u32, u32),
    /// Resize each frame to the biggest width and height possible within the
    /// given dimensions without changing the aspect ratio.
    Fit(u32, u32),
    /// As `Fit`, but both output dimensions are forced even. This can fail if
    /// no dimensions satisfy the constraints. It is useful because some
    /// encoders only accept frames with dimensions divisible by two.
    FitEven(u32, u32),
}

/// `n / d` rounded down; `d >= 1`.
pub open spec fn floor_div(n: int, d: int) -> int {
    n / d
}

/// `n / d` rounded to the nearest integer, halves up; `n >= 0`, `d >= 1`.
pub open spec fn round_half_up(n: int, d: int) -> int {
    (2 * n + d) / (2 * d)
}

/// The aspect-preserving fit of `dims` into `bound`.
///
/// Source dimensions already within the bound are returned unchanged (no
/// upscaling). Otherwise both dimensions are scaled by the exact rational
/// factor `min(bound.0 / dims.0, bound.1 / dims.1)` and truncated to whole
/// pixels; if either output dimension truncates to zero there is no fit.
pub open spec fn spec_fit_dims(dims: (u32, u32), bound: (u32, u32)) -> Option<(int, int)> {
    let w = dims.0 as int;
    let h = dims.1 as int;
    let bw = bound.0 as int;
    let bh = bound.1 as int;
    if bw >= w && bh >= h {
        Option::Some((w, h))
    } else if w == 0 || h == 0 || bw == 0 || bh == 0 {
        Option::None
    } else {
        let ow = if bw * h <= bh * w {
            bw
        } else {
            floor_div(w * bh, h)
        };
        let oh = if bw * h <= bh * w {
            floor_div(h * bw, w)
        } else {
            bh
        };
        if ow > 0 && oh > 0 {
            Option::Some((ow, oh))
        } else {
            Option::None
        }
    }
}

/// One trial of the even fit at the (possibly already shrunk) bound
/// `(bw, bh)`, followed by shrinking the tighter axis by one pixel while no
/// even pair exists. The scale factor is `min(bw / w, bh / h, 1)` and each
/// output dimension is rounded to the nearest whole pixel, halves up.
pub open spec fn spec_fit_even_loop(w: int, h: int, bw: int, bh: int) -> Option<(int, int)>
    decreases bw + bh,
    when bw >= 0 && bh >= 0
{
    if bw < 1 || bh < 1 {
        Option::None
    } else {
        let width_tighter = bw * h <= bh * w;
        let ow = if width_tighter && bw <= w {
            bw
        } else if !width_tighter && bh <= h {
            round_half_up(w * bh, h)
        } else {
            w
        };
        let oh = if width_tighter && bw <= w {
            round_half_up(h * bw, w)
        } else if !width_tighter && bh <= h {
            bh
        } else {
            h
        };
        if ow > 0 && oh > 0 {
            if ow % 2 == 0 && oh % 2 == 0 {
                Option::Some((ow, oh))
            } else if bw * h < bh * w {
                spec_fit_even_loop(w, h, bw - 1, bh)
            } else {
                spec_fit_even_loop(w, h, bw, bh - 1)
            }
        } else {
            Option::None
        }
    }
}

/// The aspect-preserving, even-dimensioned fit of `dims` into `bound`.
/// Dimensions of zero have no fit.
pub open spec fn spec_fit_dims_even(dims: (u32, u32), bound: (u32, u32)) -> Option<(int, int)> {
    if dims.0 == 0 || dims.1 == 0 {
        Option::None
    } else {
        spec_fit_even_loop(dims.0 as int, dims.1 as int, bound.0 as int, bound.1 as int)
    }
}

/// Whether the computed pair matches the mathematical result.
pub open spec fn dims_match(r: Option<(u32, u32)>, s: Option<(int, int)>) -> bool {
    match (r, s) {
        (Option::Some(a), Option::Some(b)) => a.0 == b.0 && a.1 == b.1,
        (Option::None, Option::None) => true,
        _ => false,
    }
}

impl Resize {
    /// The output dimensions each policy yields for the given source
    /// dimensions.
    pub open spec fn spec_compute_for(self, dims: (u32, u32)) -> Option<(int, int)> {
        match self {
            Resize::Exact(w, h) => Option::Some((w as int, h as int)),
            Resize::Fit(w, h) => spec_fit_dims(dims, (w, h)),
            Resize::FitEven(w, h) => spec_fit_dims_even(dims, (w, h)),
        }
    }

    /// Compute the dimensions after resizing depending on the resize
    /// strategy.
    pub fn compute_for(self, dims: Dims) -> (r: Option<Dims>)
        ensures
            dims_match(r, self.spec_compute_for(dims)),
    {
        match self {
            Resize::Exact(w, h) => Option::Some((w, h)),
            Resize::Fit(w, h) => calculate_fit_dims(dims, (w, h)),
            Resize::FitEven(w, h) => calculate_fit_dims_even(dims, (w, h)),
        }
    }
}

/// The product of two 32-bit values fits in 64 bits.
proof fn lemma_u32_mul_fits(a: int, b: int)
    by (nonlinear_arith)
    requires
        0 <= a < 0x1_0000_0000,
        0 <= b < 0x1_0000_0000,
    ensures
        0 <= a * b < 0x1_0000_0000_0000_0000,
{
}

/// `d >= 1` and `n <= b * d` bound the quotient by `b`.
proof fn lemma_div_le(n: int, d: int, b: int)
    by (nonlinear_arith)
    requires
        d >= 1,
        0 <= n,
        n <= b * d,
        b >= 0,
    ensures
        n / d <= b,
{
}

/// Rounding `n / d` to the nearest integer stays at or below `b` whenever
/// `n <= b * d`.
proof fn lemma_round_half_up_le(n: int, d: int, b: int)
    by (nonlinear_arith)
    requires
        d >= 1,
        0 <= n,
        n <= b * d,
        b >= 0,
    ensures
        round_half_up(n, d) <= b,
{
}

/// The largest aspect-preserving dimensions that fit inside `fit_dims`.
///
/// # Arguments
///
/// * `dims` - Original dimensions: width and height.
/// * `fit_dims` - Dimensions to fit in: width and height.
///
/// # Return value
///
/// The fitted dimensions if they exist and are more than zero.
pub fn calculate_fit_dims(dims: (u32, u32), fit_dims: (u32, u32)) -> (r: Option<(u32, u32)>)
    ensures
        dims_match(r, spec_fit_dims(dims, fit_dims)),
{
    let (w, h) = dims;
    let (w_max, h_max) = fit_dims;
    if w_max >= w && h_max >= h {
        Option::Some((w, h))
    } else if w == 0 || h == 0 || w_max == 0 || h_max == 0 {
        Option::None
    } else {
        proof {
            lemma_u32_mul_fits(w_max as int, h as int);
            lemma_u32_mul_fits(h_max as int, w as int);
            lemma_u32_mul_fits(h as int, w_max as int);
            lemma_u32_mul_fits(w as int, h_max as int);
        }
        let width_tighter = (w_max as u64) * (h as u64) <= (h_max as u64) * (w as u64);
        let (w_out, h_out) = if width_tighter {
            proof {
                assert((h as int) * (w_max as int) == (w_max as int) * (h as int)
                    && (h_max as int) * (w as int) == (w as int) * (h_max as int))
                    by (nonlinear_arith);
                lemma_div_le((h as int) * (w_max as int), w as int, h_max as int);
            }
            let oh: u64 = (h as u64) * (w_max as u64) / (w as u64);
            (w_max, oh as u32)
        } else {
            proof {
                assert((w as int) * (h_max as int) <= (w_max as int) * (h as int))
                    by (nonlinear_arith)
                    requires
                        (h_max as int) * (w as int) < (w_max as int) * (h as int),
                ;
                lemma_div_le((w as int) * (h_max as int), h as int, w_max as int);
            }
            let ow: u64 = (w as u64) * (h_max as u64) / (h as u64);
            (ow as u32, h_max)
        };
        if w_out > 0 && h_out > 0 {
            Option::Some((w_out, h_out))
        } else {
            Option::None
        }
    }
}

/// The largest aspect-preserving dimensions with even width and height that
/// fit inside `fit_dims`. This may reduce dimensions that already fit, in
/// order to make them even.
///
/// # Arguments
///
/// * `dims` - Original dimensions: width and height.
/// * `fit_dims` - Dimensions to fit in: width and height.
///
/// # Return value
///
/// The fitted dimensions if they exist and are more than zero.
pub fn calculate_fit_dims_even(dims: (u32, u32), fit_dims: (u32, u32)) -> (r: Option<(u32, u32)>)
    ensures
        dims_match(r, spec_fit_dims_even(dims, fit_dims)),
{
    let (w, h) = dims;
    if w == 0 || h == 0 {
        return Option::None;
    }
    let (mut w_max, mut h_max) = fit_dims;
    loop
        invariant
            w >= 1,
            h >= 1,
            spec_fit_even_loop(w as int, h as int, w_max as int, h_max as int)
                == spec_fit_dims_even(dims, fit_dims),
        decreases w_max + h_max,
    {
        if !(w_max > 0 && h_max > 0) {
            return Option::None;
        }
        proof {
            lemma_u32_mul_fits(w_max as int, h as int);
            lemma_u32_mul_fits(h_max as int, w as int);
            lemma_u32_mul_fits(h as int, w_max as int);
            lemma_u32_mul_fits(w as int, h_max as int);
        }
        let width_tighter = (w_max as u64) * (h as u64) <= (h_max as u64) * (w as u64);
        let (out_w, out_h) = if width_tighter && w_max <= w {
            proof {
                assert((h as int) * (w_max as int) == (w_max as int) * (h as int)
                    && (h_max as int) * (w as int) == (w as int) * (h_max as int))
                    by (nonlinear_arith);
                lemma_round_half_up_le((h as int) * (w_max as int), w as int, h_max as int);
            }
            let prod: u128 = (h as u128) * (w_max as u128);
            let oh: u128 = (2 * prod + (w as u128)) / (2 * (w as u128));
            (w_max, oh as u32)
        } else if !width_tighter && h_max <= h {
            proof {
                assert((w as int) * (h_max as int) <= (w_max as int) * (h as int))
                    by (nonlinear_arith)
                    requires
                        (h_max as int) * (w as int) < (w_max as int) * (h as int),
                ;
                lemma_round_half_up_le((w as int) * (h_max as int), h as int, w_max as int);
            }
            let prod: u128 = (w as u128) * (h_max as u128);
            let ow: u128 = (2 * prod + (h as u128)) / (2 * (h as u128));
            (ow as u32, h_max)
        } else {
            (w, h)
        };
        if out_w > 0 && out_h > 0 {
            if out_w % 2 == 0 && out_h % 2 == 0 {
                return Option::Some((out_w, out_h));
            } else if (w_max as u64) * (h as u64) < (h_max as u64) * (w as u64) {
                w_max = w_max - 1;
            } else {
                h_max = h_max - 1;
            }
        } else {
            return Option::None;
        }
    }
}

/// Whatever the fit policy computes stays within the bound, and is never
/// zero unless a source dimension or a bound was zero.
pub proof fn lemma_fit_dims_sound(dims: (u32, u32), bound: (u32, u32))
    ensures
        spec_fit_dims(dims, bound) matches Option::Some(o) ==> o.0 <= bound.0 && o.1 <= bound.1,
        (dims.0 > 0 && dims.1 > 0 && bound.0 > 0 && bound.1 > 0) ==> (spec_fit_dims(dims, bound)
            matches Option::Some(o) ==> o.0 > 0 && o.1 > 0),
{
    let w = dims.0 as int;
    let h = dims.1 as int;
    let bw = bound.0 as int;
    let bh = bound.1 as int;
    if !(bw >= w && bh >= h) && w > 0 && h > 0 && bw > 0 && bh > 0 {
        if bw * h <= bh * w {
            assert(h * bw == bw * h && bh * w == w * bh) by (nonlinear_arith);
            lemma_div_le(h * bw, w, bh);
        } else {
            assert(w * bh <= bw * h) by (nonlinear_arith)
                requires
                    bh * w < bw * h,
            ;
            lemma_div_le(w * bh, h, bw);
        }
    }
}

/// Whatever the even fit computes has even width and height, stays within
/// the bound, and is never zero.
pub proof fn lemma_fit_dims_even_sound(dims: (u32, u32), bound: (u32, u32))
    ensures
        spec_fit_dims_even(dims, bound) matches Option::Some(o) ==> o.0 > 0 && o.1 > 0 && o.0 % 2
            == 0 && o.1 % 2 == 0 && o.0 <= bound.0 && o.1 <= bound.1,
{
    if dims.0 > 0 && dims.1 > 0 {
        lemma_fit_even_loop_sound(dims.0 as int, dims.1 as int, bound.0 as int, bound.1 as int);
    }
}

proof fn lemma_fit_even_loop_sound(w: int, h: int, bw: int, bh: int)
    requires
        w >= 1,
        h >= 1,
        bw >= 0,
        bh >= 0,
    ensures
        spec_fit_even_loop(w, h, bw, bh) matches Option::Some(o) ==> 0 < o.0 <= bw && 0 < o.1
            <= bh && o.0 % 2 == 0 && o.1 % 2 == 0,
    decreases bw + bh,
{
    if bw >= 1 && bh >= 1 {
        let width_tighter = bw * h <= bh * w;
        if width_tighter && bw <= w {
            assert(h * bw == bw * h && bh * w == w * bh) by (nonlinear_arith);
            lemma_round_half_up_le(h * bw, w, bh);
        } else if !width_tighter && bh <= h {
            assert(w * bh <= bw * h) by (nonlinear_arith)
                requires
                    bh * w < bw * h,
            ;
            lemma_round_half_up_le(w * bh, h, bw);
        } else {
            // the whole source fits: the factor is one and the output is the
            // source itself, which the branch conditions place inside the
            // bound
            assert(w <= bw && h <= bh) by (nonlinear_arith)
                requires
                    w >= 1,
                    h >= 1,
                    bw >= 1,
                    bh >= 1,
                    (bw * h <= bh * w && bw > w) || (bh * w < bw * h && bh > h),
            ;
        }
        if bw * h < bh * w {
            lemma_fit_even_loop_sound(w, h, bw - 1, bh);
        } else {
            lemma_fit_even_loop_sound(w, h, bw, bh - 1);
        }
    }
}

} // verus!
