//! The pipeline's cross-cutting guarantees, each stated over the spec
//! functions the public contracts use and proved once.

use vstd::prelude::*;
use crate::encode::spec_effective_quality;
use crate::formats::{
    spec_carries_alpha, spec_determine_output, spec_is_bmp, spec_is_gif, spec_is_jpeg,
    spec_is_png, spec_is_tiff, spec_is_webp, spec_sniff, FormatTag,
};
use crate::pipeline::{spec_final_format, TransformOptions};
use crate::resize::{
    lemma_round_div_ge, lemma_round_div_le, spec_fill_dims, spec_fit_dims,
};

verus! {

/// A buffer of at least eight bytes that starts with a known magic
/// prefix sniffs as that prefix's format: the six magic sequences begin
/// with pairwise distinct bytes, so none shadows another. Anything
/// shorter than eight bytes sniffs as nothing.
pub proof fn lemma_sniff_magic(bytes: Seq<u8>)
    requires
        bytes.len() >= 8,
    ensures
        spec_is_png(bytes) ==> spec_sniff(bytes) == Some(FormatTag::Png),
        spec_is_jpeg(bytes) ==> spec_sniff(bytes) == Some(FormatTag::Jpeg),
        spec_is_webp(bytes) ==> spec_sniff(bytes) == Some(FormatTag::Webp),
        spec_is_gif(bytes) ==> spec_sniff(bytes) == Some(FormatTag::Gif),
        spec_is_bmp(bytes) ==> spec_sniff(bytes) == Some(FormatTag::Bmp),
        spec_is_tiff(bytes) ==> spec_sniff(bytes) == Some(FormatTag::Tiff),
{
}

/// A buffer shorter than eight bytes never sniffs as any format.
pub proof fn lemma_sniff_short(bytes: Seq<u8>)
    requires
        bytes.len() < 8,
    ensures
        spec_sniff(bytes) is None,
{
}

/// Fit preserves the bound: the dimensions it scales to never exceed the
/// target box on either axis, and stay at least 1.
pub proof fn lemma_fit_within_target(ow: int, oh: int, tw: int, th: int)
    requires
        ow >= 1,
        oh >= 1,
        tw >= 1,
        th >= 1,
    ensures
        1 <= spec_fit_dims(ow, oh, tw, th).0 <= tw,
        1 <= spec_fit_dims(ow, oh, tw, th).1 <= th,
{
    if tw * oh <= th * ow {
        lemma_round_div_le(tw * oh, ow, th);
    } else {
        lemma_round_div_le(th * ow, oh, tw);
    }
}

/// Fill covers the target: the dimensions it scales to are at least the
/// target box on both axes, so the center crop to the target is always
/// possible.
pub proof fn lemma_fill_covers_target(ow: int, oh: int, tw: int, th: int)
    requires
        ow >= 1,
        oh >= 1,
        tw >= 1,
        th >= 1,
    ensures
        spec_fill_dims(ow, oh, tw, th).0 >= tw,
        spec_fill_dims(ow, oh, tw, th).1 >= th,
{
    if tw * oh >= th * ow {
        lemma_round_div_ge(tw * oh, ow, th);
    } else {
        lemma_round_div_ge(th * ow, oh, tw);
    }
}

/// A request that was masked never comes out in a format that cannot
/// carry its alpha channel: whatever was requested or auto-resolved, a
/// positive border radius forces a format with alpha (JPEG upgrades to
/// PNG).
pub proof fn lemma_mask_keeps_alpha(opts: TransformOptions, original: FormatTag)
    requires
        opts.border_radius > 0,
    ensures
        spec_carries_alpha(spec_final_format(opts, original)),
{
}

/// A request with no explicit output format always resolves to JPEG,
/// whatever the source format.
pub proof fn lemma_auto_resolves_jpeg(original: FormatTag)
    ensures
        spec_determine_output(None, original) == FormatTag::Jpeg,
{
}

/// Aggressive mode never raises the effective quality, and for the lossy
/// formats it never exceeds the configured ceiling; without aggressive
/// mode the requested quality is used as is.
pub proof fn lemma_aggressive_cap(quality: u8, fmt: FormatTag, cap: u8)
    ensures
        spec_effective_quality(quality, true, fmt, cap) <= quality,
        (fmt == FormatTag::Jpeg || fmt == FormatTag::Webp) ==> spec_effective_quality(
            quality,
            true,
            fmt,
            cap,
        ) <= cap,
        spec_effective_quality(quality, false, fmt, cap) == quality,
{
}

} // verus!
