//! The decoded raster: width, height and a row-major RGBA byte buffer,
//! with the verified pixel transforms (grayscale, rounded-corner masking,
//! center crop) and the RGBA-to-RGB conversion the JPEG and WEBP encoders
//! need.

use vstd::prelude::*;

verus! {

/// A decoded image: `data` holds 4 bytes (R, G, B, A) per pixel, row by
/// row from the top-left corner.
pub struct Raster {
    pub width: u32,
    pub height: u32,
    pub data: Vec<u8>,
}

impl Raster {
    /// The buffer holds exactly 4 bytes per pixel.
    pub open spec fn wf(&self) -> bool {
        self.data@.len() == 4 * ((self.width as int) * (self.height as int))
    }

    /// Channel `c` (0 = R, 1 = G, 2 = B, 3 = A) of the pixel at `(x, y)`.
    pub open spec fn chan(&self, x: int, y: int, c: int) -> u8 {
        self.data@[4 * (y * (self.width as int) + x) + c]
    }
}

/// A pixel's offset within a row-major buffer stays inside the buffer.
pub proof fn lemma_row_major_bound(x: int, y: int, w: int, h: int)
    requires
        0 <= x < w,
        0 <= y < h,
    ensures
        0 <= y * w + x,
        y * w + x < w * h,
{
    assert(y * w + x < w * h) by (nonlinear_arith)
        requires 0 <= x < w, 0 <= y < h;
    assert(y * w + x >= 0) by (nonlinear_arith)
        requires 0 <= x, 0 <= y, 0 <= w;
}

/// The byte offset of a channel stays inside a well-formed buffer.
pub proof fn lemma_idx_bound(x: int, y: int, c: int, w: int, h: int, len: int)
    requires
        0 <= x < w,
        0 <= y < h,
        0 <= c < 4,
        len == 4 * (w * h),
    ensures
        0 <= 4 * (y * w + x) + c,
        4 * (y * w + x) + c < len,
{
    lemma_row_major_bound(x, y, w, h);
}

/// Distinct pixels have distinct row-major offsets.
pub proof fn lemma_row_major_injective(x1: int, y1: int, x2: int, y2: int, w: int)
    requires
        0 <= x1 < w,
        0 <= x2 < w,
        0 <= y1,
        0 <= y2,
        y1 * w + x1 == y2 * w + x2,
    ensures
        x1 == x2 && y1 == y2,
{
    assert(x1 == x2 && y1 == y2) by (nonlinear_arith)
        requires
            0 <= x1 < w,
            0 <= x2 < w,
            0 <= y1,
            0 <= y2,
            y1 * w + x1 == y2 * w + x2;
}

/// A square of a bounded value is bounded by the square of the bound.
pub proof fn lemma_square_bound(v: int, b: int)
    requires
        -b <= v <= b,
        0 <= b,
    ensures
        0 <= v * v <= b * b,
{
    assert(0 <= v * v <= b * b) by (nonlinear_arith)
        requires -b <= v <= b, 0 <= b;
}

/// A position below `d * bound` splits into a quotient below `bound`
/// and a remainder below `d`.
pub proof fn lemma_div_mod_decomp(p: int, d: int, bound: int)
    requires
        d >= 1,
        0 <= p,
        p < d * bound,
    ensures
        0 <= p % d < d,
        0 <= p / d < bound,
        p == (p / d) * d + (p % d),
{
    assert(0 <= p % d < d && p == (p / d) * d + (p % d)) by (nonlinear_arith)
        requires d >= 1, 0 <= p;
    assert(0 <= p / d && p / d < bound) by (nonlinear_arith)
        requires d >= 1, 0 <= p, p < d * bound;
}

/// The BT.601 luma of a pixel, rounded to the nearest integer:
/// round(0.299 R + 0.587 G + 0.114 B), computed exactly over integers.
pub open spec fn spec_luma(r: u8, g: u8, b: u8) -> u8 {
    ((299 * r + 587 * g + 114 * b + 500) / 1000) as u8
}

/// What grayscaling leaves at buffer index `i`: alpha bytes are untouched,
/// each color byte becomes its pixel's luma.
pub open spec fn spec_gray_at(data: Seq<u8>, i: int) -> u8 {
    if i % 4 == 3 {
        data[i]
    } else {
        spec_luma(data[4 * (i / 4)], data[4 * (i / 4) + 1], data[4 * (i / 4) + 2])
    }
}

/// A whole buffer after grayscaling: each byte as `spec_gray_at` maps it.
pub open spec fn spec_grayed(data: Seq<u8>) -> Seq<u8> {
    Seq::new(data.len(), |i: int| spec_gray_at(data, i))
}

/// Replaces every pixel's R, G and B with its BT.601 luma; alpha is
/// untouched. Dimensions are unchanged.
pub fn grayscale(img: &mut Raster)
    requires
        old(img).wf(),
    ensures
        final(img).wf(),
        final(img).width == old(img).width,
        final(img).height == old(img).height,
        final(img).data@.len() == old(img).data@.len(),
        forall|i: int|
            0 <= i < final(img).data@.len() ==> final(img).data@[i] == spec_gray_at(
                old(img).data@,
                i,
            ),
        final(img).data@ == spec_grayed(old(img).data@),
{
    let wu: usize = img.width as usize;
    let hu: usize = img.height as usize;
    let total: usize = img.data.len();
    proof {
        assert((wu as int) * (hu as int) >= 0) by (nonlinear_arith)
            requires wu >= 0, hu >= 0;
    }
    let n: usize = wu * hu;
    let mut p: usize = 0;
    while p < n
        invariant
            img.wf(),
            img.width == old(img).width,
            img.height == old(img).height,
            img.data@.len() == old(img).data@.len(),
            total == img.data@.len(),
            4 * (n as int) == img.data@.len(),
            p <= n,
            forall|i: int| 4 * p <= i < img.data@.len() ==> img.data@[i] == old(img).data@[i],
            forall|i: int| 0 <= i < 4 * p ==> img.data@[i] == spec_gray_at(old(img).data@, i),
        decreases n - p,
    {
        let base: usize = 4 * p;
        let r = img.data[base];
        let g = img.data[base + 1];
        let b = img.data[base + 2];
        let lum32: u32 = (299 * (r as u32) + 587 * (g as u32) + 114 * (b as u32) + 500) / 1000;
        assert(lum32 <= 255);
        let lum: u8 = lum32 as u8;
        assert(lum == spec_luma(r, g, b));
        img.data[base] = lum;
        img.data[base + 1] = lum;
        img.data[base + 2] = lum;
        proof {
            assert(forall|i: int|
                0 <= i < 4 * (p + 1) ==> img.data@[i] == spec_gray_at(old(img).data@, i)) by {
                assert(forall|i: int| 0 <= i < 4 * p ==> img.data@[i] == spec_gray_at(
                    old(img).data@,
                    i,
                ));
                assert(4 * p as int % 4 == 0);
                assert((4 * p + 1) as int % 4 == 1);
                assert((4 * p + 2) as int % 4 == 2);
                assert((4 * p + 3) as int % 4 == 3);
                assert((4 * p as int) / 4 == p as int);
                assert((4 * p + 1) as int / 4 == p as int);
                assert((4 * p + 2) as int / 4 == p as int);
                assert((4 * p + 3) as int / 4 == p as int);
            }
        }
        p = p + 1;
    }
    proof {
        assert(img.data@ =~= spec_grayed(old(img).data@));
    }
}

/// The folded-to-the-corner coordinate: the distance of `x` from the
/// nearer edge of an axis of length `w`.
pub open spec fn spec_fold(x: int, w: int) -> int {
    if x <= w - 1 - x {
        x
    } else {
        w - 1 - x
    }
}

/// Whether the pixel at `(x, y)` lies outside the rounded corner of
/// radius `rc` and has its alpha forced to zero by the mask.
pub open spec fn spec_masked(x: int, y: int, w: int, h: int, rc: int) -> bool {
    let cx = spec_fold(x, w);
    let cy = spec_fold(y, h);
    cx < rc && cy < rc && (cx - rc + 1) * (cx - rc + 1) + (cy - rc + 1) * (cy - rc + 1) > rc * rc
}

/// The effective corner radius: the requested one, clamped to half the
/// smaller dimension.
pub open spec fn spec_clamped_radius(radius: int, w: int, h: int) -> int {
    let half = if w < h {
        w / 2
    } else {
        h / 2
    };
    if radius < half {
        radius
    } else {
        half
    }
}

/// A whole buffer after masking with the (already clamped) radius: alpha
/// bytes of masked pixels become zero, every other byte is kept.
pub open spec fn spec_masked_data(data: Seq<u8>, w: int, h: int, rc: int) -> Seq<u8> {
    Seq::new(data.len(), |i: int|
        if i % 4 == 3 && spec_masked((i / 4) % w, (i / 4) / w, w, h, rc) {
            0u8
        } else {
            data[i]
        })
}

/// Forces the alpha of one pixel to zero, leaving every other byte alone.
fn set_alpha_zero(img: &mut Raster, x: usize, y: usize)
    requires
        old(img).wf(),
        x < old(img).width,
        y < old(img).height,
    ensures
        final(img).wf(),
        final(img).width == old(img).width,
        final(img).height == old(img).height,
        final(img).data@ == old(img).data@.update(
            4 * (y * (old(img).width as int) + x) + 3,
            0u8,
        ),
{
    let w: usize = img.width as usize;
    let total: usize = img.data.len();
    proof {
        lemma_idx_bound(x as int, y as int, 3, w as int, img.height as int, total as int);
    }
    let idx: usize = 4 * (y * w + x) + 3;
    img.data[idx] = 0;
}

/// Applies the rounded-corner mask of the given radius: the radius is
/// first clamped to half the smaller dimension; every pixel outside a
/// corner arc has its alpha forced to zero, all other bytes are kept.
pub fn apply_border_radius(img: &mut Raster, radius: u32)
    requires
        old(img).wf(),
    ensures
        final(img).wf(),
        final(img).width == old(img).width,
        final(img).height == old(img).height,
        forall|x: int, y: int, c: int|
            0 <= x < final(img).width && 0 <= y < final(img).height && 0 <= c < 4
                ==> final(img).chan(x, y, c) == (if c == 3 && spec_masked(x, y,
                final(img).width as int, final(img).height as int, spec_clamped_radius(
                radius as int, final(img).width as int, final(img).height as int)) {
                0u8
            } else {
                old(img).chan(x, y, c)
            }),
        final(img).data@ == spec_masked_data(old(img).data@, old(img).width as int,
            old(img).height as int, spec_clamped_radius(radius as int, old(img).width as int,
            old(img).height as int)),
{
    let w: usize = img.width as usize;
    let h: usize = img.height as usize;
    let half: usize = if w < h {
        w / 2
    } else {
        h / 2
    };
    let rc: usize = if (radius as usize) < half {
        radius as usize
    } else {
        half
    };
    assert(rc == spec_clamped_radius(radius as int, w as int, h as int));
    let ghost rci = rc as int;
    let mut y: usize = 0;
    while y < rc
        invariant
            old(img).wf(),
            img.wf(),
            img.width == old(img).width,
            img.height == old(img).height,
            w == img.width,
            h == img.height,
            rci == rc,
            rc == spec_clamped_radius(radius as int, w as int, h as int),
            2 * rc <= w,
            2 * rc <= h,
            y <= rc,
            forall|qx: int, qy: int, c: int|
                0 <= qx < w && 0 <= qy < h && 0 <= c < 4 ==> img.chan(qx, qy, c) == (
                if c == 3 && spec_fold(qy, h as int) < y && spec_masked(qx, qy, w as int, h as int,
                    rci,
                ) {
                    0u8
                } else {
                    old(img).chan(qx, qy, c)
                }),
        decreases rc - y,
    {
        let mut x: usize = 0;
        while x < rc
            invariant
                old(img).wf(),
                img.wf(),
                img.width == old(img).width,
                img.height == old(img).height,
                w == img.width,
                h == img.height,
                rci == rc,
                2 * rc <= w,
                2 * rc <= h,
                y < rc,
                x <= rc,
                forall|qx: int, qy: int, c: int|
                    0 <= qx < w && 0 <= qy < h && 0 <= c < 4 ==> img.chan(qx, qy, c) == (
                    if c == 3 && (spec_fold(qy, h as int) < y || (spec_fold(qy, h as int) == y
                        && spec_fold(qx, w as int) < x)) && spec_masked(qx, qy, w as int,
                        h as int, rci) {
                        0u8
                    } else {
                        old(img).chan(qx, qy, c)
                    }),
            decreases rc - x,
        {
            // dx, dy measure the offset from the corner arc's center pixel;
            // both are at most zero inside the quadrant.
            let dx: i64 = x as i64 - rc as i64 + 1;
            let dy: i64 = y as i64 - rc as i64 + 1;
            let r64: i64 = rc as i64;
            proof {
                lemma_square_bound(dx as int, 0x7fff_ffff);
                lemma_square_bound(dy as int, 0x7fff_ffff);
                lemma_square_bound(r64 as int, 0x7fff_ffff);
            }
            let ghost prev = img.data@;
            proof {
                assert forall|qx: int, qy: int, c: int|
                    0 <= qx < w && 0 <= qy < h && 0 <= c < 4 implies #[trigger] prev[4 * (qy * (
                w as int) + qx) + c] == (if c == 3 && (spec_fold(qy, h as int) < y || (spec_fold(
                    qy,
                    h as int,
                ) == y && spec_fold(qx, w as int) < x)) && spec_masked(qx, qy, w as int, h as int,
                    rci) {
                    0u8
                } else {
                    old(img).data@[4 * (qy * (w as int) + qx) + c]
                }) by {
                    assert(img.chan(qx, qy, c) == prev[4 * (qy * (w as int) + qx) + c]);
                    assert(old(img).chan(qx, qy, c) == old(img).data@[4 * (qy * (w as int) + qx)
                        + c]);
                }
            }
            let fired: bool = dx * dx + dy * dy > r64 * r64;
            if fired {
                mask_four(img, x, y, rc);
                proof {
                    assert forall|qx: int, qy: int, c: int|
                        0 <= qx < w && 0 <= qy < h && 0 <= c < 4 implies #[trigger] img.data@[4
                        * (qy * (w as int) + qx) + c] == (if c == 3 && spec_fold(qx, w as int)
                        == x && spec_fold(qy, h as int) == y {
                        0u8
                    } else {
                        prev[4 * (qy * (w as int) + qx) + c]
                    }) by {
                        assert(img.chan(qx, qy, c) == img.data@[4 * (qy * (w as int) + qx) + c]);
                    }
                }
            }
            proof {
                lemma_mask_step(img.data@, prev, old(img).data@, x as int, y as int, w as int,
                    h as int, rci, fired);
                assert forall|qx: int, qy: int, c: int|
                    0 <= qx < w && 0 <= qy < h && 0 <= c < 4 implies img.chan(qx, qy, c) == (
                if c == 3 && (spec_fold(qy, h as int) < y || (spec_fold(qy, h as int) == y
                    && spec_fold(qx, w as int) < x + 1)) && spec_masked(qx, qy, w as int,
                    h as int, rci) {
                    0u8
                } else {
                    old(img).chan(qx, qy, c)
                }) by {
                    assert(img.chan(qx, qy, c) == img.data@[4 * (qy * (w as int) + qx) + c]);
                    assert(old(img).chan(qx, qy, c) == old(img).data@[4 * (qy * (w as int) + qx)
                        + c]);
                }
            }
            x = x + 1;
        }
        proof {
            assert(forall|qx: int, qy: int, c: int|
                0 <= qx < w && 0 <= qy < h && 0 <= c < 4 ==> img.chan(qx, qy, c) == (
                if c == 3 && spec_fold(qy, h as int) < y + 1 && spec_masked(qx, qy, w as int,
                    h as int, rci) {
                    0u8
                } else {
                    old(img).chan(qx, qy, c)
                })) by {
                assert(forall|qx: int, qy: int|
                    0 <= qx < w && 0 <= qy < h && #[trigger] spec_masked(qx, qy, w as int,
                        h as int, rci) ==> spec_fold(qx, w as int) < rci);
            }
        }
        y = y + 1;
    }
    proof {
        assert(forall|qx: int, qy: int, c: int|
            0 <= qx < w && 0 <= qy < h && 0 <= c < 4 ==> img.chan(qx, qy, c) == (
            if c == 3 && spec_masked(qx, qy, w as int, h as int, rci) {
                0u8
            } else {
                old(img).chan(qx, qy, c)
            })) by {
            assert(forall|qx: int, qy: int|
                0 <= qx < w && 0 <= qy < h && #[trigger] spec_masked(qx, qy, w as int, h as int,
                    rci) ==> spec_fold(qy, h as int) < rci && spec_fold(qy, h as int) >= 0);
        }
        assert forall|qx: int, qy: int, c: int|
            0 <= qx < w && 0 <= qy < h && 0 <= c < 4 implies #[trigger] img.data@[4 * (qy * (
        w as int) + qx) + c] == (if c == 3 && spec_masked(qx, qy, w as int, h as int, rci) {
            0u8
        } else {
            old(img).data@[4 * (qy * (w as int) + qx) + c]
        }) by {
            assert(img.chan(qx, qy, c) == img.data@[4 * (qy * (w as int) + qx) + c]);
            assert(old(img).chan(qx, qy, c) == old(img).data@[4 * (qy * (w as int) + qx) + c]);
        }
        lemma_chan_form_to_seq(img.data@, old(img).data@, w as int, h as int, rci);
        assert(img.data@ =~= spec_masked_data(old(img).data@, w as int, h as int, rci));
    }
}

/// A buffer whose pixels satisfy the masked-channel relation equals the
/// masked buffer, byte for byte.
proof fn lemma_chan_form_to_seq(new: Seq<u8>, orig: Seq<u8>, w: int, h: int, rc: int)
    requires
        orig.len() == 4 * (w * h),
        new.len() == 4 * (w * h),
        0 <= w,
        0 <= h,
        forall|qx: int, qy: int, c: int|
            0 <= qx < w && 0 <= qy < h && 0 <= c < 4 ==> #[trigger] new[4 * (qy * w + qx) + c]
                == (if c == 3 && spec_masked(qx, qy, w, h, rc) {
                0u8
            } else {
                orig[4 * (qy * w + qx) + c]
            }),
    ensures
        forall|i: int|
            0 <= i < new.len() ==> #[trigger] new[i] == (if i % 4 == 3 && spec_masked(
                (i / 4) % w,
                (i / 4) / w,
                w,
                h,
                rc,
            ) {
                0u8
            } else {
                orig[i]
            }),
{
    assert forall|i: int|
        0 <= i < new.len() implies #[trigger] new[i] == (if i % 4 == 3 && spec_masked(
        (i / 4) % w,
        (i / 4) / w,
        w,
        h,
        rc,
    ) {
        0u8
    } else {
        orig[i]
    }) by {
        let p = i / 4;
        let c = i % 4;
        assert(0 <= c < 4 && i == 4 * p + c) by (nonlinear_arith)
            requires i >= 0, p == i / 4, c == i % 4;
        assert(p < w * h) by (nonlinear_arith)
            requires 4 * p + c == i, 0 <= c, i < 4 * (w * h);
        lemma_div_mod_decomp(p, w, h);
        let qx = p % w;
        let qy = p / w;
        assert(new[4 * (qy * w + qx) + c] == (if c == 3 && spec_masked(qx, qy, w, h, rc) {
            0u8
        } else {
            orig[4 * (qy * w + qx) + c]
        }));
    }
}

/// Zeroes the alpha of the quadrant pixel `(x, y)` and of its three
/// mirrors across the vertical and horizontal axes.
fn mask_four(img: &mut Raster, x: usize, y: usize, rc: usize)
    requires
        old(img).wf(),
        x < rc,
        y < rc,
        2 * rc <= old(img).width,
        2 * rc <= old(img).height,
    ensures
        final(img).wf(),
        final(img).width == old(img).width,
        final(img).height == old(img).height,
        forall|qx: int, qy: int, c: int|
            0 <= qx < final(img).width && 0 <= qy < final(img).height && 0 <= c < 4
                ==> final(img).chan(qx, qy, c) == (if c == 3 && spec_fold(qx,
                final(img).width as int) == x && spec_fold(qy, final(img).height as int) == y {
                0u8
            } else {
                old(img).chan(qx, qy, c)
            }),
{
    let w: usize = img.width as usize;
    let h: usize = img.height as usize;
    set_alpha_zero(img, x, y);
    set_alpha_zero(img, w - 1 - x, y);
    set_alpha_zero(img, x, h - 1 - y);
    set_alpha_zero(img, w - 1 - x, h - 1 - y);
    proof {
        lemma_mask_four(img.data@, old(img).data@, x as int, y as int, w as int, h as int);
    }
}

/// After the four mirrored alpha writes, each pixel's bytes are as the
/// contract of `mask_four` states.
proof fn lemma_mask_four(new: Seq<u8>, orig: Seq<u8>, x: int, y: int, w: int, h: int)
    requires
        0 <= x,
        0 <= y,
        2 * x < w,
        2 * y < h,
        orig.len() == 4 * (w * h),
        new == orig.update(4 * (y * w + x) + 3, 0u8).update(4 * (y * w + (w - 1 - x)) + 3,
            0u8,
        ).update(4 * ((h - 1 - y) * w + x) + 3, 0u8).update(
            4 * ((h - 1 - y) * w + (w - 1 - x)) + 3,
            0u8,
        ),
    ensures
        forall|qx: int, qy: int, c: int|
            0 <= qx < w && 0 <= qy < h && 0 <= c < 4 ==> #[trigger] new[4 * (qy * w + qx)
                + c] == (
            if c == 3 && spec_fold(qx, w) == x && spec_fold(qy, h) == y {
                0u8
            } else {
                orig[4 * (qy * w + qx) + c]
            }),
{
    let i1 = 4 * (y * w + x) + 3;
    let i2 = 4 * (y * w + (w - 1 - x)) + 3;
    let i3 = 4 * ((h - 1 - y) * w + x) + 3;
    let i4 = 4 * ((h - 1 - y) * w + (w - 1 - x)) + 3;
    lemma_idx_bound(x, y, 3, w, h, orig.len() as int);
    lemma_idx_bound(w - 1 - x, y, 3, w, h, orig.len() as int);
    lemma_idx_bound(x, h - 1 - y, 3, w, h, orig.len() as int);
    lemma_idx_bound(w - 1 - x, h - 1 - y, 3, w, h, orig.len() as int);
    assert forall|qx: int, qy: int, c: int|
        0 <= qx < w && 0 <= qy < h && 0 <= c < 4 implies #[trigger] new[4 * (qy * w + qx)
            + c] == (
    if c == 3 && spec_fold(qx, w) == x && spec_fold(qy, h) == y {
        0u8
    } else {
        orig[4 * (qy * w + qx) + c]
    }) by {
        lemma_idx_bound(qx, qy, c, w, h, orig.len() as int);
        let i = 4 * (qy * w + qx) + c;
        if i == i1 {
            assert(c == 3);
            lemma_row_major_injective(qx, qy, x, y, w);
        }
        if i == i2 {
            assert(c == 3);
            lemma_row_major_injective(qx, qy, w - 1 - x, y, w);
        }
        if i == i3 {
            assert(c == 3);
            lemma_row_major_injective(qx, qy, x, h - 1 - y, w);
        }
        if i == i4 {
            assert(c == 3);
            lemma_row_major_injective(qx, qy, w - 1 - x, h - 1 - y, w);
        }
        if c == 3 && spec_fold(qx, w) == x && spec_fold(qy, h) == y {
            assert(qx == x || qx == w - 1 - x);
            assert(qy == y || qy == h - 1 - y);
            assert(i == i1 || i == i2 || i == i3 || i == i4);
        }
    }
}

/// One quadrant step extends the processed region by the pixel class
/// `(x, y)`: masked pixels of that class are zeroed exactly when the arc
/// test fired.
proof fn lemma_mask_step(
    new: Seq<u8>,
    prev: Seq<u8>,
    orig: Seq<u8>,
    x: int,
    y: int,
    w: int,
    h: int,
    rc: int,
    fired: bool,
)
    requires
        0 <= x < rc,
        0 <= y < rc,
        2 * rc <= w,
        2 * rc <= h,
        orig.len() == 4 * (w * h),
        prev.len() == 4 * (w * h),
        new.len() == 4 * (w * h),
        fired == ((x - rc + 1) * (x - rc + 1) + (y - rc + 1) * (y - rc + 1) > rc * rc),
        forall|qx: int, qy: int, c: int|
            0 <= qx < w && 0 <= qy < h && 0 <= c < 4 ==> #[trigger] prev[4 * (qy * w + qx)
                + c] == (
            if c == 3 && (spec_fold(qy, h) < y || (spec_fold(qy, h) == y && spec_fold(qx, w)
                < x)) && spec_masked(qx, qy, w, h, rc) {
                0u8
            } else {
                orig[4 * (qy * w + qx) + c]
            }),
        fired ==> forall|qx: int, qy: int, c: int|
            0 <= qx < w && 0 <= qy < h && 0 <= c < 4 ==> #[trigger] new[4 * (qy * w + qx)
                + c] == (
            if c == 3 && spec_fold(qx, w) == x && spec_fold(qy, h) == y {
                0u8
            } else {
                prev[4 * (qy * w + qx) + c]
            }),
        !fired ==> new == prev,
    ensures
        forall|qx: int, qy: int, c: int|
            0 <= qx < w && 0 <= qy < h && 0 <= c < 4 ==> #[trigger] new[4 * (qy * w + qx)
                + c] == (
            if c == 3 && (spec_fold(qy, h) < y || (spec_fold(qy, h) == y && spec_fold(qx, w) < x
                + 1)) && spec_masked(qx, qy, w, h, rc) {
                0u8
            } else {
                orig[4 * (qy * w + qx) + c]
            }),
{
    assert forall|qx: int, qy: int, c: int|
        0 <= qx < w && 0 <= qy < h && 0 <= c < 4 implies #[trigger] new[4 * (qy * w + qx)
            + c] == (
    if c == 3 && (spec_fold(qy, h) < y || (spec_fold(qy, h) == y && spec_fold(qx, w) < x + 1))
        && spec_masked(qx, qy, w, h, rc) {
        0u8
    } else {
        orig[4 * (qy * w + qx) + c]
    }) by {
        assert(prev[4 * (qy * w + qx) + c] == (if c == 3 && (spec_fold(qy, h) < y || (spec_fold(
            qy,
            h,
        ) == y && spec_fold(qx, w) < x)) && spec_masked(qx, qy, w, h, rc) {
            0u8
        } else {
            orig[4 * (qy * w + qx) + c]
        }));
        if fired {
            assert(new[4 * (qy * w + qx) + c] == (if c == 3 && spec_fold(qx, w) == x
                && spec_fold(qy, h) == y {
                0u8
            } else {
                prev[4 * (qy * w + qx) + c]
            }));
        }
        if c == 3 && spec_fold(qx, w) == x && spec_fold(qy, h) == y {
            assert(spec_masked(qx, qy, w, h, rc) == fired);
        }
    }
}

/// The `cw` by `ch` window of a buffer of row length `w`, with its
/// top-left corner at `(ox, oy)`.
pub open spec fn spec_cropped(data: Seq<u8>, w: int, ox: int, oy: int, cw: int, ch: int) -> Seq<
    u8,
> {
    Seq::new((4 * (cw * ch)) as nat, |i: int|
        data[4 * (((i / 4) / cw + oy) * w + ((i / 4) % cw + ox)) + (i % 4)])
}

/// Crops out the `cw` by `ch` window whose top-left corner is `(ox, oy)`.
pub fn crop(img: &Raster, ox: u32, oy: u32, cw: u32, ch: u32) -> (r: Raster)
    requires
        img.wf(),
        ox + cw <= img.width,
        oy + ch <= img.height,
    ensures
        r.wf(),
        r.width == cw,
        r.height == ch,
        forall|x: int, y: int, c: int|
            0 <= x < cw && 0 <= y < ch && 0 <= c < 4 ==> r.chan(x, y, c) == img.chan(
                x + ox,
                y + oy,
                c,
            ),
        r.data@ == spec_cropped(img.data@, img.width as int, ox as int, oy as int, cw as int,
            ch as int),
{
    let w: usize = img.width as usize;
    let total: usize = img.data.len();
    let cwu: usize = cw as usize;
    let chu: usize = ch as usize;
    let mut data: Vec<u8> = Vec::new();
    let mut y: usize = 0;
    while y < chu
        invariant
            img.wf(),
            w == img.width,
            total == img.data@.len(),
            cwu == cw,
            chu == ch,
            ox + cw <= img.width,
            oy + ch <= img.height,
            y <= chu,
            data@.len() == 4 * ((cw as int) * y),
            forall|qx: int, qy: int, c: int|
                0 <= qx < cw && 0 <= qy < y && 0 <= c < 4 ==> #[trigger] data@[4 * (qy * (
                cw as int) + qx) + c] == img.chan(qx + ox, qy + oy, c),
        decreases chu - y,
    {
        let mut x: usize = 0;
        while x < cwu
            invariant
                img.wf(),
                w == img.width,
                total == img.data@.len(),
                cwu == cw,
                chu == ch,
                ox + cw <= img.width,
                oy + ch <= img.height,
                y < chu,
                x <= cwu,
                data@.len() == 4 * ((cw as int) * y) + 4 * x,
                forall|qx: int, qy: int, c: int|
                    0 <= qx < cw && 0 <= qy < y && 0 <= c < 4 ==> #[trigger] data@[4 * (qy * (
                    cw as int) + qx) + c] == img.chan(qx + ox, qy + oy, c),
                forall|qx: int, c: int|
                    0 <= qx < x && 0 <= c < 4 ==> #[trigger] data@[4 * (y * (cw as int) + qx)
                        + c] == img.chan(qx + ox, y + oy, c),
            decreases cwu - x,
        {
            let sx: usize = x + ox as usize;
            let sy: usize = y + oy as usize;
            proof {
                lemma_idx_bound(sx as int, sy as int, 3, w as int, img.height as int,
                    total as int);
                lemma_row_major_bound(x as int, y as int, cw as int, ch as int);
            }
            let base: usize = 4 * (sy * w + sx);
            let r0 = img.data[base];
            let g0 = img.data[base + 1];
            let b0 = img.data[base + 2];
            let a0 = img.data[base + 3];
            data.push(r0);
            data.push(g0);
            data.push(b0);
            data.push(a0);
            proof {
                assert(data@.len() == 4 * ((cw as int) * y) + 4 * (x + 1));
                assert forall|qx: int, qy: int, c: int|
                    0 <= qx < cw && 0 <= qy < y && 0 <= c < 4 implies #[trigger] data@[4 * (qy
                    * (cw as int) + qx) + c] == img.chan(qx + ox, qy + oy, c) by {
                    lemma_row_major_bound(qx, qy, cw as int, y as int);
                }
                assert(forall|qx: int, c: int|
                    0 <= qx < x + 1 && 0 <= c < 4 ==> #[trigger] data@[4 * (y * (cw as int)
                        + qx) + c] == img.chan(qx + ox, y + oy, c));
            }
            x = x + 1;
        }
        proof {
            assert((cw as int) * (y + 1) == (cw as int) * y + (cw as int)) by (nonlinear_arith);
            assert forall|qx: int, qy: int, c: int|
                0 <= qx < cw && 0 <= qy < y + 1 && 0 <= c < 4 implies #[trigger] data@[4 * (qy
                * (cw as int) + qx) + c] == img.chan(qx + ox, qy + oy, c) by {
                lemma_row_major_bound(qx, qy, cw as int, (y + 1) as int);
            }
        }
        y = y + 1;
    }
    proof {
        assert forall|i: int| 0 <= i < data@.len() implies #[trigger] data@[i] == img.data@[4 * ((
        (i / 4) / (cw as int) + oy) * (img.width as int) + ((i / 4) % (cw as int) + ox)) + (i
            % 4)] by {
            let p = i / 4;
            let c = i % 4;
            assert(0 <= c < 4 && i == 4 * p + c) by (nonlinear_arith)
                requires i >= 0, p == i / 4, c == i % 4;
            assert(p < (cw as int) * (ch as int)) by (nonlinear_arith)
                requires 4 * p + c == i, 0 <= c, i < 4 * ((cw as int) * (ch as int));
            lemma_div_mod_decomp(p, cw as int, ch as int);
            let qx = p % (cw as int);
            let qy = p / (cw as int);
            assert(data@[4 * (qy * (cw as int) + qx) + c] == img.chan(qx + ox, qy + oy, c));
        }
        assert(data@ =~= spec_cropped(img.data@, img.width as int, ox as int, oy as int,
            cw as int, ch as int));
    }
    Raster { width: cw, height: ch, data }
}

/// The RGB projection of an RGBA buffer: 3 bytes per pixel, alpha
/// dropped.
pub open spec fn spec_rgb(data: Seq<u8>) -> Seq<u8> {
    Seq::new((3 * (data.len() as int / 4)) as nat, |i: int| data[4 * (i / 3) + (i % 3)])
}

/// Drops the alpha channel: 3 bytes per pixel, in pixel order.
pub fn rgba_to_rgb(img: &Raster) -> (r: Vec<u8>)
    requires
        img.wf(),
    ensures
        r@.len() == 3 * ((img.width as int) * (img.height as int)),
        forall|p: int, c: int|
            0 <= p < (img.width as int) * (img.height as int) && 0 <= c < 3 ==> #[trigger] r@[3
                * p + c] == img.data@[4 * p + c],
        r@ == spec_rgb(img.data@),
{
    let wu: usize = img.width as usize;
    let hu: usize = img.height as usize;
    let total: usize = img.data.len();
    proof {
        assert((wu as int) * (hu as int) >= 0) by (nonlinear_arith)
            requires wu >= 0, hu >= 0;
    }
    let n: usize = wu * hu;
    let mut out: Vec<u8> = Vec::new();
    let mut p: usize = 0;
    while p < n
        invariant
            total == img.data@.len(),
            img.data@.len() == 4 * (n as int),
            p <= n,
            out@.len() == 3 * p,
            forall|q: int, c: int|
                0 <= q < p && 0 <= c < 3 ==> #[trigger] out@[3 * q + c] == img.data@[4 * q + c],
        decreases n - p,
    {
        let base: usize = 4 * p;
        out.push(img.data[base]);
        out.push(img.data[base + 1]);
        out.push(img.data[base + 2]);
        p = p + 1;
    }
    proof {
        assert forall|i: int| 0 <= i < out@.len() implies #[trigger] out@[i] == img.data@[4 * (i
            / 3) + (i % 3)] by {
            let q = i / 3;
            let c = i % 3;
            assert(0 <= c < 3 && i == 3 * q + c) by (nonlinear_arith)
                requires i >= 0, q == i / 3, c == i % 3;
            assert(q < n as int) by (nonlinear_arith)
                requires 3 * q + c == i, 0 <= c, i < 3 * (n as int);
            assert(out@[3 * q + c] == img.data@[4 * q + c]);
        }
        assert(out@ =~= spec_rgb(img.data@));
    }
    out
}

} // verus!
