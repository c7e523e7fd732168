//! Resize: resolving the target dimensions from a resize request and the
//! original dimensions, the Fit / Fill / Force mode geometry, and the call
//! into the resampling routine.
//!
//! All dimension arithmetic is verified; only the Lanczos resampling
//! itself is delegated to the image crate, behind a trusted wrapper whose
//! contract fixes the output dimensions.

use vstd::prelude::*;
use crate::errors::ErrorKind;
use crate::raster::Raster;
use crate::raster::crop;
use crate::raster::spec_cropped;

verus! {

/// How a resize maps the source onto the target rectangle.
#[derive(Clone, Copy, Debug, PartialEq, Eq, Structural)]
pub enum ResizeMode {
    /// Scale uniformly to fit within the target; may undershoot one axis.
    Fit,
    /// Scale uniformly to cover the target, then center-crop to it.
    Fill,
    /// Scale non-uniformly to exactly the target.
    Force,
}

/// A resize request: at least one of `width` / `height` must be present;
/// the normalizer rejects a resize naming neither.
#[derive(Clone, Debug)]
pub struct ResizeSpec {
    pub width: Option<u32>,
    pub height: Option<u32>,
    pub mode: ResizeMode,
}

impl ResizeSpec {
    /// A resize request names at least one dimension.
    pub open spec fn valid(&self) -> bool {
        self.width is Some || self.height is Some
    }
}

/// `a / b` rounded to the nearest integer, halves away from zero, for
/// `a >= 0`, `b >= 1`.
pub open spec fn spec_round_div(a: int, b: int) -> int {
    (2 * a + b) / (2 * b)
}

/// A computed dimension, floored to a minimum of 1.
pub open spec fn spec_at_least_one(v: int) -> int {
    if v < 1 {
        1
    } else {
        v
    }
}

/// The target dimensions a resize request resolves to: a missing one is
/// derived from the other so that the aspect ratio is preserved, rounded
/// to the nearest integer and floored to 1.
pub open spec fn spec_resolve_target(ow: int, oh: int, rs: ResizeSpec) -> (int, int) {
    match (rs.width, rs.height) {
        (Some(w), Some(h)) => (w as int, h as int),
        (Some(w), None) => (w as int, spec_at_least_one(spec_round_div(w * oh, ow))),
        (None, Some(h)) => (spec_at_least_one(spec_round_div(h * ow, oh)), h as int),
        (None, None) => (ow, oh),
    }
}

/// The dimensions Fit scales to: uniform scale, bounded by the target on
/// both axes.
pub open spec fn spec_fit_dims(ow: int, oh: int, tw: int, th: int) -> (int, int) {
    if tw * oh <= th * ow {
        (tw, spec_at_least_one(spec_round_div(tw * oh, ow)))
    } else {
        (spec_at_least_one(spec_round_div(th * ow, oh)), th)
    }
}

/// The dimensions Fill scales to before cropping: uniform scale, at least
/// the target on both axes.
pub open spec fn spec_fill_dims(ow: int, oh: int, tw: int, th: int) -> (int, int) {
    if tw * oh >= th * ow {
        (tw, spec_at_least_one(spec_round_div(tw * oh, ow)))
    } else {
        (spec_at_least_one(spec_round_div(th * ow, oh)), th)
    }
}

/// Whether a raster of these dimensions is representable: positive sizes
/// that fit `u32` and a byte buffer that fits `usize`.
pub open spec fn spec_dims_ok(w: int, h: int) -> bool {
    1 <= w <= u32::MAX && 1 <= h <= u32::MAX && 4 * (w * h) <= usize::MAX
}

/// The dimensions of the raster a resize request produces.
pub open spec fn spec_final_dims(ow: int, oh: int, rs: ResizeSpec) -> (int, int) {
    let (tw, th) = spec_resolve_target(ow, oh, rs);
    match rs.mode {
        ResizeMode::Fit => spec_fit_dims(ow, oh, tw, th),
        ResizeMode::Fill => (tw, th),
        ResizeMode::Force => (tw, th),
    }
}

/// Whether a resize request succeeds on an image of the given dimensions:
/// the resolved target must be positive and every raster built on the way
/// must be representable.
pub open spec fn spec_resize_ok(ow: int, oh: int, rs: ResizeSpec) -> bool {
    let (tw, th) = spec_resolve_target(ow, oh, rs);
    tw >= 1 && th >= 1 && match rs.mode {
        ResizeMode::Fit => {
            let (fw, fh) = spec_fit_dims(ow, oh, tw, th);
            spec_dims_ok(tw, th) && spec_dims_ok(fw, fh)
        },
        ResizeMode::Fill => {
            let (fw, fh) = spec_fill_dims(ow, oh, tw, th);
            spec_dims_ok(tw, th) && spec_dims_ok(fw, fh)
        },
        ResizeMode::Force => spec_dims_ok(tw, th),
    }
}

/// The product of bounded factors is bounded.
proof fn lemma_mul_le(a: int, b: int, ca: int, cb: int)
    requires
        0 <= a <= ca,
        0 <= b <= cb,
    ensures
        a * b <= ca * cb,
{
    assert(a * b <= ca * cb) by (nonlinear_arith)
        requires 0 <= a <= ca, 0 <= b <= cb;
}

/// `a / b` rounded to nearest, halves away from zero.
fn round_div(a: u64, b: u64) -> (r: u64)
    requires
        b >= 1,
    ensures
        r == spec_round_div(a as int, b as int),
{
    let a128: u128 = a as u128;
    let b128: u128 = b as u128;
    let q: u128 = (2 * a128 + b128) / (2 * b128);
    proof {
        assert((2 * (a as int) + b) / (2 * (b as int)) <= a) by (nonlinear_arith)
            requires b >= 1, a >= 0;
    }
    q as u64
}

/// A derived dimension never exceeds the bound its ratio premise gives:
/// if `tw * oh <= th * ow` then the height Fit derives is at most `th`.
pub proof fn lemma_round_div_le(a: int, b: int, c: int)
    requires
        b >= 1,
        c >= 1,
        a <= c * b,
    ensures
        spec_round_div(a, b) <= c,
{
    assert((2 * a + b) / (2 * b) <= c) by (nonlinear_arith)
        requires b >= 1, c >= 1, a <= c * b;
}

/// If `a >= b * c` the derived dimension is at least `c`: Fill covers the
/// target on both axes.
pub proof fn lemma_round_div_ge(a: int, b: int, c: int)
    requires
        b >= 1,
        c >= 0,
        a >= c * b,
    ensures
        spec_round_div(a, b) >= c,
{
    assert((2 * a + b) / (2 * b) >= c) by (nonlinear_arith)
        requires b >= 1, c >= 0, a >= c * b;
}

/// What resampling a raster to new dimensions yields: a pure function of
/// the source buffer and the four dimensions.
pub uninterp spec fn lanczos_of(data: Seq<u8>, w: int, h: int, nw: int, nh: int) -> Seq<u8>;

/// Relies on image::imageops::resize with FilterType::Lanczos3: the
/// result is a raster of exactly the requested dimensions, and a function
/// of the source buffer and the dimensions alone.
#[verifier::external_body]
fn resize_lanczos(img: &Raster, w: u32, h: u32) -> (r: Raster)
    requires
        img.wf(),
        img.width >= 1,
        img.height >= 1,
        w >= 1,
        h >= 1,
        4 * ((w as int) * (h as int)) <= usize::MAX,
    ensures
        r.wf(),
        r.width == w,
        r.height == h,
        r.data@ == lanczos_of(img.data@, img.width as int, img.height as int, w as int,
            h as int),
{
    let buf: image::RgbaImage = match image::ImageBuffer::from_raw(
        img.width,
        img.height,
        img.data.clone(),
    ) {
        Some(b) => b,
        None => image::RgbaImage::new(1, 1),
    };
    let out = image::imageops::resize(&buf, w, h, image::imageops::FilterType::Lanczos3);
    Raster { width: w, height: h, data: out.into_raw() }
}

/// The buffer a successful resize yields: Force and Fit resample to the
/// final dimensions; Fill resamples to the covering dimensions and takes
/// the centered window.
pub open spec fn spec_resized_data(data: Seq<u8>, ow: int, oh: int, rs: ResizeSpec) -> Seq<u8> {
    let (tw, th) = spec_resolve_target(ow, oh, rs);
    match rs.mode {
        ResizeMode::Force => lanczos_of(data, ow, oh, tw, th),
        ResizeMode::Fit => {
            let (fw, fh) = spec_fit_dims(ow, oh, tw, th);
            lanczos_of(data, ow, oh, fw, fh)
        },
        ResizeMode::Fill => {
            let (fw, fh) = spec_fill_dims(ow, oh, tw, th);
            spec_cropped(lanczos_of(data, ow, oh, fw, fh), fw, (fw - tw) / 2, (fh - th) / 2, tw,
                th)
        },
    }
}

/// Resolves the target dimensions of a resize request, then scales (and
/// for Fill center-crops) accordingly. Fails with `InvalidDimensions`
/// exactly when the resolved or scaled dimensions are zero or not
/// representable.
#[verifier::rlimit(60)]
pub fn apply_resize(img: &Raster, rs: &ResizeSpec) -> (r: Result<Raster, ErrorKind>)
    requires
        img.wf(),
        img.width >= 1,
        img.height >= 1,
    ensures
        r is Ok <==> spec_resize_ok(img.width as int, img.height as int, *rs),
        r is Err ==> r == Err::<Raster, ErrorKind>(ErrorKind::InvalidDimensions),
        r matches Ok(out) ==> out.wf() && (out.width as int, out.height as int)
            == spec_final_dims(img.width as int, img.height as int, *rs) && out.data@
            == spec_resized_data(img.data@, img.width as int, img.height as int, *rs),
{
    let ow: u64 = img.width as u64;
    let oh: u64 = img.height as u64;
    // Resolve the requested target, still as 64-bit values.
    let (tw, th): (u64, u64) = match (rs.width, rs.height) {
        (Some(w), Some(h)) => (w as u64, h as u64),
        (Some(w), None) => {
            proof { lemma_mul_le(w as int, oh as int, u32::MAX as int, u32::MAX as int); }
            let d = round_div((w as u64) * oh, ow);
            (w as u64, if d < 1 { 1 } else { d })
        },
        (None, Some(h)) => {
            proof { lemma_mul_le(h as int, ow as int, u32::MAX as int, u32::MAX as int); }
            let d = round_div((h as u64) * ow, oh);
            (if d < 1 { 1 } else { d }, h as u64)
        },
        (None, None) => (ow, oh),
    };
    assert((tw as int, th as int) == spec_resolve_target(img.width as int, img.height as int, *rs));
    if tw < 1 || th < 1 || tw > u32::MAX as u64 || th > u32::MAX as u64 {
        return Err(ErrorKind::InvalidDimensions);
    }
    if !buf_fits(tw, th) {
        return Err(ErrorKind::InvalidDimensions);
    }
    match rs.mode {
        ResizeMode::Force => Ok(resize_lanczos(img, tw as u32, th as u32)),
        ResizeMode::Fit => {
            proof {
                lemma_mul_le(tw as int, oh as int, u32::MAX as int, u32::MAX as int);
                lemma_mul_le(th as int, ow as int, u32::MAX as int, u32::MAX as int);
            }
            let (fw, fh): (u64, u64) = if tw * oh <= th * ow {
                let d = round_div(tw * oh, ow);
                (tw, if d < 1 { 1 } else { d })
            } else {
                let d = round_div(th * ow, oh);
                (if d < 1 { 1 } else { d }, th)
            };
            assert((fw as int, fh as int) == spec_fit_dims(img.width as int, img.height as int,
                tw as int, th as int));
            proof {
                if tw * oh <= th * ow {
                    lemma_round_div_le((tw * oh) as int, ow as int, th as int);
                } else {
                    lemma_round_div_le((th * ow) as int, oh as int, tw as int);
                }
                lemma_dims_ok_mono(fw as int, fh as int, tw as int, th as int);
            }
            Ok(resize_lanczos(img, fw as u32, fh as u32))
        },
        ResizeMode::Fill => {
            proof {
                lemma_mul_le(tw as int, oh as int, u32::MAX as int, u32::MAX as int);
                lemma_mul_le(th as int, ow as int, u32::MAX as int, u32::MAX as int);
            }
            let (fw, fh): (u64, u64) = if tw * oh >= th * ow {
                let d = round_div(tw * oh, ow);
                (tw, if d < 1 { 1 } else { d })
            } else {
                let d = round_div(th * ow, oh);
                (if d < 1 { 1 } else { d }, th)
            };
            assert((fw as int, fh as int) == spec_fill_dims(img.width as int, img.height as int,
                tw as int, th as int));
            proof {
                if tw * oh >= th * ow {
                    lemma_round_div_ge((tw * oh) as int, ow as int, th as int);
                } else {
                    lemma_round_div_ge((th * ow) as int, oh as int, tw as int);
                }
            }
            if fw > u32::MAX as u64 || fh > u32::MAX as u64 || !buf_fits(fw, fh) {
                return Err(ErrorKind::InvalidDimensions);
            }
            let scaled = resize_lanczos(img, fw as u32, fh as u32);
            let ox: u32 = ((fw - tw) / 2) as u32;
            let oy: u32 = ((fh - th) / 2) as u32;
            Ok(crop(&scaled, ox, oy, tw as u32, th as u32))
        },
    }
}

/// Whether a 4-byte-per-pixel buffer of these dimensions fits in `usize`.
fn buf_fits(w: u64, h: u64) -> (r: bool)
    requires
        w <= u32::MAX,
        h <= u32::MAX,
    ensures
        r == (4 * ((w as int) * (h as int)) <= usize::MAX),
{
    proof {
        lemma_mul_le(w as int, h as int, u32::MAX as int, u32::MAX as int);
    }
    let prod: u128 = 4 * ((w as u128) * (h as u128));
    prod <= usize::MAX as u128
}

/// Dimensions no larger than representable ones are representable.
proof fn lemma_dims_ok_mono(w: int, h: int, bw: int, bh: int)
    requires
        1 <= w <= bw,
        1 <= h <= bh,
        spec_dims_ok(bw, bh),
    ensures
        spec_dims_ok(w, h),
{
    assert(w * h <= bw * bh) by (nonlinear_arith)
        requires 1 <= w <= bw, 1 <= h <= bh;
}

} // verus!
