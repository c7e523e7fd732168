//! Format sniffing and output-format resolution.
//!
//! Sniffing inspects a fixed magic-byte prefix and is the sole authority
//! for the "original format" of a request; it is independent of any file
//! extension or declared content type, and independent of whether the
//! bytes later decode.

use vstd::prelude::*;

verus! {

/// The closed set of raster formats the pipeline knows.
#[derive(Clone, Copy, Debug, PartialEq, Eq, Structural)]
pub enum FormatTag {
    Png,
    Jpeg,
    Webp,
    Gif,
    Bmp,
    Tiff,
}

impl FormatTag {
    /// The lowercase name of the format, as responses report it.
    pub fn name(&self) -> (r: &'static str)
        ensures
            r@ == spec_format_name(*self),
    {
        match self {
            FormatTag::Png => "png",
            FormatTag::Jpeg => "jpeg",
            FormatTag::Webp => "webp",
            FormatTag::Gif => "gif",
            FormatTag::Bmp => "bmp",
            FormatTag::Tiff => "tiff",
        }
    }

    /// Whether an encoded file of this format can carry an alpha channel.
    /// JPEG is the one alpha-less format in the set.
    pub fn carries_alpha(&self) -> (r: bool)
        ensures
            r == spec_carries_alpha(*self),
    {
        !(*self == FormatTag::Jpeg)
    }
}

/// The lowercase name of each format.
pub open spec fn spec_format_name(f: FormatTag) -> Seq<char> {
    match f {
        FormatTag::Png => "png"@,
        FormatTag::Jpeg => "jpeg"@,
        FormatTag::Webp => "webp"@,
        FormatTag::Gif => "gif"@,
        FormatTag::Bmp => "bmp"@,
        FormatTag::Tiff => "tiff"@,
    }
}

/// Which formats carry an alpha channel.
pub open spec fn spec_carries_alpha(f: FormatTag) -> bool {
    f != FormatTag::Jpeg
}

/// PNG signature: 89 50 4E 47 0D 0A 1A 0A.
pub open spec fn spec_is_png(bytes: Seq<u8>) -> bool {
    bytes.len() >= 8 && bytes[0] == 0x89u8 && bytes[1] == 0x50u8 && bytes[2] == 0x4eu8
        && bytes[3] == 0x47u8 && bytes[4] == 0x0du8 && bytes[5] == 0x0au8 && bytes[6] == 0x1au8
        && bytes[7] == 0x0au8
}

/// JPEG signature: FF D8 FF.
pub open spec fn spec_is_jpeg(bytes: Seq<u8>) -> bool {
    bytes.len() >= 3 && bytes[0] == 0xffu8 && bytes[1] == 0xd8u8 && bytes[2] == 0xffu8
}

/// WEBP container: "RIFF" at 0..4 and "WEBP" at 8..12.
pub open spec fn spec_is_webp(bytes: Seq<u8>) -> bool {
    bytes.len() >= 12 && bytes[0] == 0x52u8 && bytes[1] == 0x49u8 && bytes[2] == 0x46u8
        && bytes[3] == 0x46u8 && bytes[8] == 0x57u8 && bytes[9] == 0x45u8 && bytes[10] == 0x42u8
        && bytes[11] == 0x50u8
}

/// GIF signature: "GIF8".
pub open spec fn spec_is_gif(bytes: Seq<u8>) -> bool {
    bytes.len() >= 4 && bytes[0] == 0x47u8 && bytes[1] == 0x49u8 && bytes[2] == 0x46u8
        && bytes[3] == 0x38u8
}

/// BMP signature: "BM".
pub open spec fn spec_is_bmp(bytes: Seq<u8>) -> bool {
    bytes.len() >= 2 && bytes[0] == 0x42u8 && bytes[1] == 0x4du8
}

/// TIFF signature: "II*\0" (little endian) or "MM\0*" (big endian).
pub open spec fn spec_is_tiff(bytes: Seq<u8>) -> bool {
    bytes.len() >= 4 && ((bytes[0] == 0x49u8 && bytes[1] == 0x49u8 && bytes[2] == 0x2au8
        && bytes[3] == 0x00u8) || (bytes[0] == 0x4du8 && bytes[1] == 0x4du8 && bytes[2] == 0x00u8
        && bytes[3] == 0x2au8))
}

/// What sniffing a byte sequence yields: a prefix shorter than 8 bytes or
/// one matching no known signature yields nothing.
pub open spec fn spec_sniff(bytes: Seq<u8>) -> Option<FormatTag> {
    if bytes.len() < 8 {
        None
    } else if spec_is_png(bytes) {
        Some(FormatTag::Png)
    } else if spec_is_jpeg(bytes) {
        Some(FormatTag::Jpeg)
    } else if spec_is_webp(bytes) {
        Some(FormatTag::Webp)
    } else if spec_is_gif(bytes) {
        Some(FormatTag::Gif)
    } else if spec_is_bmp(bytes) {
        Some(FormatTag::Bmp)
    } else if spec_is_tiff(bytes) {
        Some(FormatTag::Tiff)
    } else {
        None
    }
}

/// Identifies the format of a byte sequence from its magic-byte prefix.
/// Inputs shorter than 8 bytes and unmatched prefixes yield `None`.
pub fn detect_format_from_bytes(bytes: &[u8]) -> (r: Option<FormatTag>)
    ensures
        r == spec_sniff(bytes@),
{
    if bytes.len() < 8 {
        return None;
    }
    if bytes[0] == 0x89 && bytes[1] == 0x50 && bytes[2] == 0x4e && bytes[3] == 0x47
        && bytes[4] == 0x0d && bytes[5] == 0x0a && bytes[6] == 0x1a && bytes[7] == 0x0a {
        return Some(FormatTag::Png);
    }
    if bytes[0] == 0xff && bytes[1] == 0xd8 && bytes[2] == 0xff {
        return Some(FormatTag::Jpeg);
    }
    if bytes.len() >= 12 && bytes[0] == 0x52 && bytes[1] == 0x49 && bytes[2] == 0x46
        && bytes[3] == 0x46 && bytes[8] == 0x57 && bytes[9] == 0x45 && bytes[10] == 0x42
        && bytes[11] == 0x50 {
        return Some(FormatTag::Webp);
    }
    if bytes[0] == 0x47 && bytes[1] == 0x49 && bytes[2] == 0x46 && bytes[3] == 0x38 {
        return Some(FormatTag::Gif);
    }
    if bytes[0] == 0x42 && bytes[1] == 0x4d {
        return Some(FormatTag::Bmp);
    }
    if (bytes[0] == 0x49 && bytes[1] == 0x49 && bytes[2] == 0x2a && bytes[3] == 0x00) || (bytes[0]
        == 0x4d && bytes[1] == 0x4d && bytes[2] == 0x00 && bytes[3] == 0x2a) {
        return Some(FormatTag::Tiff);
    }
    None
}

/// The output format an unspecified request resolves to, from the sniffed
/// source format: every source auto-resolves to JPEG.
pub open spec fn spec_auto_resolve(original: FormatTag) -> FormatTag {
    match original {
        FormatTag::Png => FormatTag::Jpeg,
        FormatTag::Jpeg => FormatTag::Jpeg,
        _ => FormatTag::Jpeg,
    }
}

/// The output format of a request: the explicitly requested one where
/// present, otherwise the auto-resolved one.
pub open spec fn spec_determine_output(
    requested: Option<FormatTag>,
    original: FormatTag,
) -> FormatTag {
    match requested {
        Some(f) => f,
        None => spec_auto_resolve(original),
    }
}

/// Selects the output format: an explicit request wins; with none, the
/// source format auto-resolves (currently always to JPEG).
pub fn determine_output_format(requested: Option<FormatTag>, original: FormatTag) -> (r:
    FormatTag)
    ensures
        r == spec_determine_output(requested, original),
{
    match requested {
        Some(f) => f,
        None => match original {
            FormatTag::Png => FormatTag::Jpeg,
            FormatTag::Jpeg => FormatTag::Jpeg,
            _ => FormatTag::Jpeg,
        },
    }
}

} // verus!
