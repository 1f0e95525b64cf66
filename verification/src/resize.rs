//! Resize policy: computes target pixel dimensions from the active
//! operation mode and the request's resize settings. Only the dimension
//! arithmetic lives here; resampling itself is the pixel module's concern.

use vstd::prelude::*;
use vstd::arithmetic::div_mod::{
    lemma_div_is_ordered, lemma_div_multiples_vanish, lemma_fundamental_div_mod_converse,
};
use vstd::arithmetic::mul::lemma_mul_upper_bound;
use crate::formats::OperationMode;
use crate::pixels::RawImage;

verus! {

/// Which resize parameters apply.
#[derive(Debug, Clone, Copy, PartialEq, Eq, Structural)]
pub enum ResizeMode {
    /// Fit to explicit maximum bounds.
    Dimensions,
    /// Scale both dimensions by a percentage.
    Percentage,
}

/// The resize parameters of one request.
#[derive(Debug, Clone, Copy, PartialEq, Eq, Structural)]
pub struct ResizeSettings {
    pub mode: ResizeMode,
    /// Scale factor for `Percentage` mode; absent means keep the size.
    pub percentage: Option<u32>,
    pub max_width: Option<u32>,
    pub max_height: Option<u32>,
    /// In `Dimensions` mode: fit within the bounds keeping the aspect
    /// ratio, instead of forcing the exact bounds.
    pub keep_aspect_ratio: bool,
}

/// The requested percentage clamped to 1..=100; an absent one means 100.
pub open spec fn spec_clamped_pct(p: Option<u32>) -> int {
    match p {
        None => 100,
        Some(v) => if v < 1 {
            1
        } else if v > 100 {
            100
        } else {
            v as int
        },
    }
}

/// Target dimensions of a `Percentage` resize: both dimensions scaled by
/// `pct/100`, rounding down; kept unchanged when either would reach 0.
pub open spec fn spec_pct_dims(w: u32, h: u32, p: Option<u32>) -> (int, int) {
    let pct = spec_clamped_pct(p);
    let nw = w * pct / 100;
    let nh = h * pct / 100;
    if nw == 0 || nh == 0 {
        (w as int, h as int)
    } else {
        (nw, nh)
    }
}

/// Division rounded to the nearest integer, halves away from zero.
pub open spec fn round_div_nearest(a: int, b: int) -> int {
    (2 * a + b) / (2 * b)
}

/// Target dimensions of a `Dimensions` resize: a no-op unless both bounds
/// are given and the image exceeds one of them (an empty image is also
/// left alone). Forcing the exact bounds when the aspect ratio is not
/// kept — a zero bound included, which the encoder then rejects.
/// Otherwise the image is scaled to fit within both bounds ("contain"):
/// the binding bound is met exactly, the other dimension is scaled by the
/// same ratio, rounded to nearest, and both are kept at least 1.
pub open spec fn spec_bounds_dims(
    w: u32,
    h: u32,
    max_w: Option<u32>,
    max_h: Option<u32>,
    keep_aspect: bool,
) -> (int, int) {
    match (max_w, max_h) {
        (Some(mw), Some(mh)) => {
            if w >= 1 && h >= 1 && (w > mw || h > mh) {
                if !keep_aspect {
                    (mw as int, mh as int)
                } else if mw * h <= mh * w {
                    let nh = round_div_nearest(h * mw, w as int);
                    (if mw < 1 { 1 } else { mw as int }, if nh < 1 { 1 } else { nh })
                } else {
                    let nw = round_div_nearest(w * mh, h as int);
                    (if nw < 1 { 1 } else { nw }, if mh < 1 { 1 } else { mh as int })
                }
            } else {
                (w as int, h as int)
            }
        },
        _ => (w as int, h as int),
    }
}

/// Target dimensions for one image under one request: the identity unless
/// the mode asks for a resize.
pub open spec fn spec_target_dims(
    w: u32,
    h: u32,
    mode: OperationMode,
    rs: ResizeSettings,
) -> (int, int) {
    if !mode.spec_should_resize() {
        (w as int, h as int)
    } else {
        match rs.mode {
            ResizeMode::Percentage => spec_pct_dims(w, h, rs.percentage),
            ResizeMode::Dimensions => spec_bounds_dims(
                w,
                h,
                rs.max_width,
                rs.max_height,
                rs.keep_aspect_ratio,
            ),
        }
    }
}

/// Division rounded to nearest never exceeds an integer bound the exact
/// quotient respects: `a <= q * b` gives `round(a / b) <= q` when the
/// bound is at least 1.
proof fn lemma_round_div_bounded(a: int, b: int, q: int)
    requires
        b >= 1,
        q >= 1,
        0 <= a <= q * b,
    ensures
        0 <= round_div_nearest(a, b) <= q,
{
    assert(2 * a + b <= q * (2 * b) + (2 * b - 1)) by (nonlinear_arith)
        requires a <= q * b, b >= 1;
    lemma_fundamental_div_mod_converse(q * (2 * b) + (2 * b - 1), 2 * b, q, 2 * b - 1);
    lemma_div_is_ordered(2 * a + b, q * (2 * b) + (2 * b - 1), 2 * b);
    lemma_div_is_ordered(0, 2 * a + b, 2 * b);
}

/// A resize never invents size: the target dimensions stay within `u32`,
/// and they change only for an image with both dimensions at least 1.
pub proof fn lemma_target_dims_bounds(w: u32, h: u32, mode: OperationMode, rs: ResizeSettings)
    ensures
        ({
            let (nw, nh) = spec_target_dims(w, h, mode, rs);
            &&& 0 <= nw <= u32::MAX
            &&& 0 <= nh <= u32::MAX
            &&& ((nw, nh) != (w as int, h as int) ==> w >= 1 && h >= 1)
        }),
{
    if mode.spec_should_resize() {
        match rs.mode {
            ResizeMode::Percentage => {
                let pct = spec_clamped_pct(rs.percentage);
                assert(w * pct <= w * 100) by (nonlinear_arith)
                    requires pct <= 100;
                lemma_div_is_ordered(w * pct, w * 100, 100);
                lemma_div_multiples_vanish(w as int, 100);
                assert(h * pct <= h * 100) by (nonlinear_arith)
                    requires pct <= 100;
                lemma_div_is_ordered(h * pct, h * 100, 100);
                lemma_div_multiples_vanish(h as int, 100);
            },
            ResizeMode::Dimensions => {
                lemma_bounds_dims_fit(w, h, rs.max_width, rs.max_height, rs.keep_aspect_ratio);
            },
        }
    }
}

/// In `Dimensions` mode a triggered resize lands exactly on the bounds
/// when the aspect ratio is not kept, and within them (each taken as at
/// least 1) when it is.
pub proof fn lemma_bounds_dims_fit(
    w: u32,
    h: u32,
    max_w: Option<u32>,
    max_h: Option<u32>,
    keep_aspect: bool,
)
    ensures
        ({
            let (nw, nh) = spec_bounds_dims(w, h, max_w, max_h, keep_aspect);
            match (max_w, max_h) {
                (Some(mw), Some(mh)) => {
                    w >= 1 && h >= 1 && (w > mw || h > mh) ==> if keep_aspect {
                        1 <= nw <= (if mw < 1 { 1int } else { mw as int }) && 1 <= nh <= (
                        if mh < 1 {
                            1int
                        } else {
                            mh as int
                        })
                    } else {
                        nw == mw && nh == mh
                    }
                },
                _ => true,
            }
        }),
{
    match (max_w, max_h) {
        (Some(mw), Some(mh)) => {
            if w >= 1 && h >= 1 && (w > mw || h > mh) && keep_aspect {
                if mw * h <= mh * w {
                    let qh: int = if mh < 1 { 1 } else { mh as int };
                    assert(h * mw <= qh * w) by (nonlinear_arith)
                        requires mw * h <= mh * w, mh <= qh;
                    lemma_round_div_bounded(h * mw, w as int, qh);
                } else {
                    let qw: int = if mw < 1 { 1 } else { mw as int };
                    assert(w * mh <= qw * h) by (nonlinear_arith)
                        requires mw * h > mh * w, mw <= qw;
                    lemma_round_div_bounded(w * mh, h as int, qw);
                }
            }
        },
        _ => {},
    }
}

/// An image already within the bounds is left untouched by a `Dimensions`
/// resize that keeps the aspect ratio: the policy is idempotent on images
/// that fit.
pub proof fn lemma_resize_within_bounds_noop(
    w: u32,
    h: u32,
    mode: OperationMode,
    rs: ResizeSettings,
)
    requires
        rs.mode is Dimensions,
        rs.keep_aspect_ratio,
        rs.max_width matches Some(mw) && w <= mw,
        rs.max_height matches Some(mh) && h <= mh,
    ensures
        spec_target_dims(w, h, mode, rs) == (w as int, h as int),
{
}

/// A percentage resize of 100 (or an absent percentage) keeps the exact
/// dimensions.
pub proof fn lemma_percentage_full_noop(w: u32, h: u32, mode: OperationMode, rs: ResizeSettings)
    requires
        rs.mode is Percentage,
        rs.percentage == Some(100u32) || rs.percentage is None,
    ensures
        spec_target_dims(w, h, mode, rs) == (w as int, h as int),
{
    assert((w as int) * 100 / 100 == w as int) by (nonlinear_arith);
    assert((h as int) * 100 / 100 == h as int) by (nonlinear_arith);
}

/// Computes the target dimensions for one image under one request.
pub fn target_dims(w: u32, h: u32, mode: OperationMode, rs: ResizeSettings) -> (r: (u32, u32))
    ensures
        (r.0 as int, r.1 as int) == spec_target_dims(w, h, mode, rs),
{
    proof {
        lemma_target_dims_bounds(w, h, mode, rs);
    }
    if !mode.should_resize() {
        return (w, h);
    }
    match rs.mode {
        ResizeMode::Percentage => {
            let pct: u64 = match rs.percentage {
                None => 100,
                Some(v) => if v < 1 {
                    1
                } else if v > 100 {
                    100
                } else {
                    v as u64
                },
            };
            proof {
                lemma_mul_upper_bound(w as int, u32::MAX as int, pct as int, 100);
                lemma_mul_upper_bound(h as int, u32::MAX as int, pct as int, 100);
            }
            let nw: u64 = (w as u64) * pct / 100;
            let nh: u64 = (h as u64) * pct / 100;
            if nw == 0 || nh == 0 {
                (w, h)
            } else {
                (nw as u32, nh as u32)
            }
        },
        ResizeMode::Dimensions => {
            match (rs.max_width, rs.max_height) {
                (Some(mw), Some(mh)) => {
                    if w >= 1 && h >= 1 && (w > mw || h > mh) {
                        if !rs.keep_aspect_ratio {
                            (mw, mh)
                        } else {
                            proof {
                                lemma_bounds_dims_fit(
                                    w,
                                    h,
                                    rs.max_width,
                                    rs.max_height,
                                    rs.keep_aspect_ratio,
                                );
                                lemma_mul_upper_bound(
                                    mw as int,
                                    u32::MAX as int,
                                    h as int,
                                    u32::MAX as int,
                                );
                                lemma_mul_upper_bound(
                                    mh as int,
                                    u32::MAX as int,
                                    w as int,
                                    u32::MAX as int,
                                );
                                lemma_mul_upper_bound(
                                    2 * (h as int),
                                    2 * (u32::MAX as int),
                                    mw as int,
                                    u32::MAX as int,
                                );
                                lemma_mul_upper_bound(
                                    2 * (w as int),
                                    2 * (u32::MAX as int),
                                    mh as int,
                                    u32::MAX as int,
                                );
                            }
                            if (mw as u64) * (h as u64) <= (mh as u64) * (w as u64) {
                                let num: u128 = 2 * (h as u128) * (mw as u128) + (w as u128);
                                let den: u128 = 2 * (w as u128);
                                let nh: u128 = num / den;
                                proof {
                                    assert(num as int == 2 * ((h as int) * (mw as int)) + (
                                    w as int)) by (nonlinear_arith)
                                        requires num == 2 * (h as int) * (mw as int) + (w as int);
                                    assert(nh as int == round_div_nearest(
                                        (h as int) * (mw as int),
                                        w as int,
                                    ));
                                }
                                let nh32: u32 = if nh < 1 {
                                    1
                                } else {
                                    nh as u32
                                };
                                let nw32: u32 = if mw < 1 {
                                    1
                                } else {
                                    mw
                                };
                                (nw32, nh32)
                            } else {
                                let num: u128 = 2 * (w as u128) * (mh as u128) + (h as u128);
                                let den: u128 = 2 * (h as u128);
                                let nw: u128 = num / den;
                                proof {
                                    assert(num as int == 2 * ((w as int) * (mh as int)) + (
                                    h as int)) by (nonlinear_arith)
                                        requires num == 2 * (w as int) * (mh as int) + (h as int);
                                    assert(nw as int == round_div_nearest(
                                        (w as int) * (mh as int),
                                        h as int,
                                    ));
                                }
                                let nw32: u32 = if nw < 1 {
                                    1
                                } else {
                                    nw as u32
                                };
                                let nh32: u32 = if mh < 1 {
                                    1
                                } else {
                                    mh
                                };
                                (nw32, nh32)
                            }
                        }
                    } else {
                        (w, h)
                    }
                },
                _ => (w, h),
            }
        },
    }
}

/// What Lanczos3 resampling of an RGBA buffer to a new size yields: a
/// function of the source image and the target size alone.
pub uninterp spec fn resampled_of(pixels: Seq<u8>, w: u32, h: u32, nw: u32, nh: u32) -> Seq<u8>;

/// Relies on image::DynamicImage::resize_exact with the Lanczos3 filter:
/// the result is an RGBA image of exactly the target dimensions, a
/// function of the source pixels and the target size alone. A target
/// dimension may be 0: the resampler then returns an empty image of the
/// target dimensions, without panicking.
#[verifier::external_body]
fn resample_lanczos(img: &RawImage, nw: u32, nh: u32) -> (r: RawImage)
    requires
        img.wf(),
        img.width >= 1,
        img.height >= 1,
    ensures
        r.wf(),
        r.width == nw,
        r.height == nh,
        r.pixels@ == resampled_of(img.pixels@, img.width, img.height, nw, nh),
{
    let buf = image::RgbaImage::from_raw(img.width, img.height, img.pixels.clone()).unwrap();
    let resized = image::DynamicImage::ImageRgba8(buf).resize_exact(
        nw,
        nh,
        image::imageops::FilterType::Lanczos3,
    );
    RawImage { width: nw, height: nh, pixels: resized.to_rgba8().into_raw() }
}

/// The pixels an image holds after the resize policy ran on it: unchanged
/// when the policy keeps the size, resampled to the target size otherwise.
pub open spec fn spec_maybe_resized(
    px: Seq<u8>,
    w: u32,
    h: u32,
    mode: OperationMode,
    rs: ResizeSettings,
) -> Seq<u8> {
    let (nw, nh) = spec_target_dims(w, h, mode, rs);
    if nw == w as int && nh == h as int {
        px
    } else {
        resampled_of(px, w, h, nw as u32, nh as u32)
    }
}

/// Applies the resize policy to one image: a no-op unless the mode asks
/// for a resize and the policy picks a new size.
pub fn maybe_resize(img: RawImage, mode: OperationMode, rs: ResizeSettings) -> (r: RawImage)
    requires
        img.wf(),
    ensures
        r.wf(),
        (r.width as int, r.height as int) == spec_target_dims(img.width, img.height, mode, rs),
        r.pixels@ == spec_maybe_resized(img.pixels@, img.width, img.height, mode, rs),
{
    proof {
        lemma_target_dims_bounds(img.width, img.height, mode, rs);
    }
    let (nw, nh) = target_dims(img.width, img.height, mode, rs);
    if nw == img.width && nh == img.height {
        img
    } else {
        resample_lanczos(&img, nw, nh)
    }
}

} // verus!
