//! Target-dimension arithmetic for the resize step.
//!
//! A resize request is either a percentage scale or a pair of explicit
//! dimensions.  When both are supplied, the explicit dimensions override the
//! scaled result.  All arithmetic is integer arithmetic: a scaled dimension is
//! `floor(original * percent / 100)`.

use vstd::prelude::*;

verus! {

/// A dimension scaled by a percentage, rounded down.
pub open spec fn spec_scaled(d: u32, p: u32) -> int {
    (d * p) / 100
}

/// The target dimensions that a resize request resolves to: explicit
/// dimensions win when both are present; otherwise both axes are scaled by
/// the percentage.
pub open spec fn spec_target_dims(
    w: u32,
    h: u32,
    scale: u32,
    width: Option<u32>,
    height: Option<u32>,
) -> (int, int) {
    if width is Some && height is Some {
        (width->Some_0 as int, height->Some_0 as int)
    } else {
        (spec_scaled(w, scale), spec_scaled(h, scale))
    }
}

/// Whether a pair of target dimensions can be handed to the resampler: both
/// axes positive and within `u32`.
pub open spec fn spec_dims_valid(tw: int, th: int) -> bool {
    1 <= tw <= u32::MAX && 1 <= th <= u32::MAX
}

/// Resolves a resize request against the current dimensions `(w, h)`.
/// Returns `None` exactly when the resolved target is degenerate (a zero
/// axis) or does not fit in `u32`.
pub fn compute_target_dims(
    w: u32,
    h: u32,
    scale: u32,
    width: Option<u32>,
    height: Option<u32>,
) -> (r: Option<(u32, u32)>)
    ensures
        ({
            let (tw, th) = spec_target_dims(w, h, scale, width, height);
            if spec_dims_valid(tw, th) {
                r == Some(((tw as u32), (th as u32)))
            } else {
                r is None
            }
        }),
{
    match (width, height) {
        (Some(cw), Some(ch)) => {
            if cw >= 1 && ch >= 1 {
                Some((cw, ch))
            } else {
                None
            }
        },
        _ => {
            proof {
                assert((w as int) * (scale as int) <= 0xFFFF_FFFF * 0xFFFF_FFFF)
                    by (nonlinear_arith)
                    requires w <= 0xFFFF_FFFF && scale <= 0xFFFF_FFFF;
                assert((h as int) * (scale as int) <= 0xFFFF_FFFF * 0xFFFF_FFFF)
                    by (nonlinear_arith)
                    requires h <= 0xFFFF_FFFF && scale <= 0xFFFF_FFFF;
            }
            let tw: u64 = (w as u64) * (scale as u64) / 100;
            let th: u64 = (h as u64) * (scale as u64) / 100;
            if tw >= 1 && tw <= u32::MAX as u64 && th >= 1 && th <= u32::MAX as u64 {
                Some((tw as u32, th as u32))
            } else {
                None
            }
        },
    }
}

/// A 100% scale with no explicit dimensions leaves the dimensions unchanged.
pub proof fn lemma_scale_100_identity(w: u32, h: u32)
    ensures
        spec_target_dims(w, h, 100, None, None) == (w as int, h as int),
{
    assert((w * 100) / 100 == w as int) by (nonlinear_arith);
    assert((h * 100) / 100 == h as int) by (nonlinear_arith);
}

/// A percentage scale yields `floor(original * percent / 100)` on both axes.
pub proof fn lemma_scale_percent_floor(w: u32, h: u32, p: u32)
    ensures
        spec_target_dims(w, h, p, None, None) == ((w * p) / 100 as int, (h * p) / 100 as int),
{
}

/// Explicit dimensions override any percentage scale: the resolved target is
/// exactly the explicit pair, not the scaled intermediate.
pub proof fn lemma_exact_dims_override_scale(w: u32, h: u32, scale: u32, cw: u32, ch: u32)
    ensures
        spec_target_dims(w, h, scale, Some(cw), Some(ch)) == (cw as int, ch as int),
{
}

/// The bound-fitting rule of the single-image mode: when a positive width
/// bound is exceeded it wins, else a positive height bound that is exceeded;
/// the other axis is derived preserving the aspect ratio, rounded down.
/// Dimensions already within the bounds are kept.
pub open spec fn spec_fit_within(w: u32, h: u32, max_w: u32, max_h: u32) -> (int, int) {
    if max_w > 0 && w > max_w {
        (max_w as int, (h * max_w) / (w as int))
    } else if max_h > 0 && h > max_h {
        ((w * max_h) / (h as int), max_h as int)
    } else {
        (w as int, h as int)
    }
}

/// Shrinks `(w, h)` to respect the given maximum bounds, preserving the
/// aspect ratio; a zero bound means that the axis is unbounded.
pub fn fit_within(w: u32, h: u32, max_w: u32, max_h: u32) -> (r: (u32, u32))
    ensures
        (r.0 as int, r.1 as int) == spec_fit_within(w, h, max_w, max_h),
{
    if max_w > 0 && w > max_w {
        proof {
            assert((h as int) * (max_w as int) <= 0xFFFF_FFFF * 0xFFFF_FFFF)
                by (nonlinear_arith)
                requires h <= 0xFFFF_FFFF && max_w <= 0xFFFF_FFFF;
            assert((h as int) * (max_w as int) / (w as int) <= h as int)
                by (nonlinear_arith)
                requires max_w < w && 0 < w;
        }
        let nh: u64 = (h as u64) * (max_w as u64) / (w as u64);
        (max_w, nh as u32)
    } else if max_h > 0 && h > max_h {
        proof {
            assert((w as int) * (max_h as int) <= 0xFFFF_FFFF * 0xFFFF_FFFF)
                by (nonlinear_arith)
                requires w <= 0xFFFF_FFFF && max_h <= 0xFFFF_FFFF;
            assert((w as int) * (max_h as int) / (h as int) <= w as int)
                by (nonlinear_arith)
                requires max_h < h && 0 < h;
        }
        let nw: u64 = (w as u64) * (max_h as u64) / (h as u64);
        (nw as u32, max_h)
    } else {
        (w, h)
    }
}

} // verus!
