//! Per-format re-encoding under the quality policy.
//!
//! The quality arithmetic and the dispatch over the closed format set are
//! verified; the encoders themselves (the image crate's JPEG, PNG, WEBP,
//! GIF, BMP and TIFF writers and the oxipng optimizer) run behind trusted
//! wrappers.

use vstd::prelude::*;
use crate::errors::ErrorKind;
use crate::formats::FormatTag;
use crate::raster::Raster;
use crate::raster::rgba_to_rgb;
use crate::raster::spec_rgb;

verus! {

/// Aggressive mode caps the effective lossy-encode quality at this value.
pub const AGGRESSIVE_QUALITY_CAP: u8 = 60;

/// The quality an encode actually runs at: aggressive mode caps JPEG and
/// WEBP quality at the configured ceiling (60 by default); the other
/// formats take the requested value as is.
pub open spec fn spec_effective_quality(quality: u8, aggressive: bool, fmt: FormatTag, cap: u8) -> u8 {
    if aggressive && (fmt == FormatTag::Jpeg || fmt == FormatTag::Webp) && quality > cap {
        cap
    } else {
        quality
    }
}

/// Applies the aggressive-mode cap to the requested quality.
pub fn effective_quality(quality: u8, aggressive: bool, fmt: FormatTag, cap: u8) -> (r: u8)
    ensures
        r == spec_effective_quality(quality, aggressive, fmt, cap),
{
    if aggressive && (fmt == FormatTag::Jpeg || fmt == FormatTag::Webp) && quality > cap {
        cap
    } else {
        quality
    }
}

/// What the JPEG encoder yields for an RGB buffer at a quality: a pure
/// function of its four arguments.
pub uninterp spec fn jpeg_of(rgb: Seq<u8>, w: int, h: int, quality: u8) -> Option<Seq<u8>>;

/// What the WEBP encoder yields for an RGB buffer.
pub uninterp spec fn webp_of(rgb: Seq<u8>, w: int, h: int) -> Option<Seq<u8>>;

/// What the plain (pre-optimizer) PNG encoder yields for an RGBA buffer.
pub uninterp spec fn png_plain_of(rgba: Seq<u8>, w: int, h: int) -> Option<Seq<u8>>;

/// What the GIF container writer yields for an RGBA buffer.
pub uninterp spec fn gif_of(rgba: Seq<u8>, w: int, h: int) -> Option<Seq<u8>>;

/// What the BMP container writer yields for an RGBA buffer.
pub uninterp spec fn bmp_of(rgba: Seq<u8>, w: int, h: int) -> Option<Seq<u8>>;

/// What the TIFF container writer yields for an RGBA buffer.
pub uninterp spec fn tiff_of(rgba: Seq<u8>, w: int, h: int) -> Option<Seq<u8>>;

/// Relies on image::codecs::jpeg::JpegEncoder::new_with_quality and its
/// write_image on an RGB byte buffer: a lossy JPEG encode at the given
/// quality (1 to 100), a function of the buffer, dimensions and quality
/// alone; any encoder error comes back as None.
#[verifier::external_body]
fn encode_jpeg(rgb: &Vec<u8>, w: u32, h: u32, quality: u8) -> (r: Option<Vec<u8>>)
    requires
        rgb@.len() == 3 * ((w as int) * (h as int)),
        1 <= quality <= 100,
    ensures
        r matches Some(v) ==> jpeg_of(rgb@, w as int, h as int, quality) == Some(v@),
        r is None ==> jpeg_of(rgb@, w as int, h as int, quality) is None,
{
    let mut buffer: Vec<u8> = Vec::new();
    let mut cursor = std::io::Cursor::new(&mut buffer);
    let encoder = image::codecs::jpeg::JpegEncoder::new_with_quality(&mut cursor, quality);
    match image::ImageEncoder::write_image(
        encoder,
        rgb.as_slice(),
        w,
        h,
        image::ExtendedColorType::Rgb8,
    ) {
        Ok(()) => Some(buffer),
        Err(_) => None,
    }
}

/// Relies on image::write_buffer_with_format with ImageFormat::WebP on an
/// RGB buffer: the image crate's WEBP encoder is lossless and takes no
/// quality parameter; the result is a function of the buffer and the
/// dimensions alone.
#[verifier::external_body]
fn encode_webp(rgb: &Vec<u8>, w: u32, h: u32) -> (r: Option<Vec<u8>>)
    requires
        rgb@.len() == 3 * ((w as int) * (h as int)),
    ensures
        r matches Some(v) ==> webp_of(rgb@, w as int, h as int) == Some(v@),
        r is None ==> webp_of(rgb@, w as int, h as int) is None,
{
    let mut buffer: Vec<u8> = Vec::new();
    let mut cursor = std::io::Cursor::new(&mut buffer);
    match image::write_buffer_with_format(
        &mut cursor,
        rgb.as_slice(),
        w,
        h,
        image::ExtendedColorType::Rgb8,
        image::ImageFormat::WebP,
    ) {
        Ok(()) => Some(buffer),
        Err(_) => None,
    }
}

/// Relies on image::write_buffer_with_format with ImageFormat::Png on an
/// RGBA buffer: a lossless PNG encode, a function of the buffer and the
/// dimensions alone.
#[verifier::external_body]
fn encode_png_raster(rgba: &Vec<u8>, w: u32, h: u32) -> (r: Option<Vec<u8>>)
    requires
        rgba@.len() == 4 * ((w as int) * (h as int)),
    ensures
        r matches Some(v) ==> png_plain_of(rgba@, w as int, h as int) == Some(v@),
        r is None ==> png_plain_of(rgba@, w as int, h as int) is None,
{
    let mut buffer: Vec<u8> = Vec::new();
    let mut cursor = std::io::Cursor::new(&mut buffer);
    match image::write_buffer_with_format(
        &mut cursor,
        rgba.as_slice(),
        w,
        h,
        image::ExtendedColorType::Rgba8,
        image::ImageFormat::Png,
    ) {
        Ok(()) => Some(buffer),
        Err(_) => None,
    }
}

/// Relies on oxipng::optimize_from_memory: a lossless PNG recompression
/// with interlacing off, alpha optimization on, safe chunk stripping
/// (all chunks under the aggressive flag) and the given time budget. The
/// outcome depends on the time budget, so it carries no name; what holds
/// of every success: without the force option, oxipng returns the input
/// itself when its recompression is no smaller, so the result never grows.
#[verifier::external_body]
fn optimize_png(png: &Vec<u8>, aggressive: bool, timeout_secs: u64) -> (r: Option<Vec<u8>>)
    ensures
        r matches Some(v) ==> v@.len() <= png@.len(),
{
    let mut options = oxipng::Options::default();
    options.optimize_alpha = true;
    options.interlace = Some(oxipng::Interlacing::None);
    options.timeout = Some(std::time::Duration::from_secs(timeout_secs));
    options.strip = if aggressive {
        oxipng::StripChunks::All
    } else {
        oxipng::StripChunks::Safe
    };
    oxipng::optimize_from_memory(png.as_slice(), &options).ok()
}

/// Relies on image::write_buffer_with_format with the GIF, BMP or TIFF
/// container writer on an RGBA buffer; these take no quality parameter
/// and each is a function of the buffer and the dimensions alone.
#[verifier::external_body]
fn encode_container(rgba: &Vec<u8>, w: u32, h: u32, fmt: FormatTag) -> (r: Option<Vec<u8>>)
    requires
        rgba@.len() == 4 * ((w as int) * (h as int)),
        fmt == FormatTag::Gif || fmt == FormatTag::Bmp || fmt == FormatTag::Tiff,
    ensures
        r matches Some(v) ==> (fmt == FormatTag::Gif ==> gif_of(rgba@, w as int, h as int)
            == Some(v@)),
        r matches Some(v) ==> (fmt == FormatTag::Bmp ==> bmp_of(rgba@, w as int, h as int)
            == Some(v@)),
        r matches Some(v) ==> (fmt == FormatTag::Tiff ==> tiff_of(rgba@, w as int, h as int)
            == Some(v@)),
        r is None ==> (fmt == FormatTag::Gif ==> gif_of(rgba@, w as int, h as int) is None),
        r is None ==> (fmt == FormatTag::Bmp ==> bmp_of(rgba@, w as int, h as int) is None),
        r is None ==> (fmt == FormatTag::Tiff ==> tiff_of(rgba@, w as int, h as int) is None),
{
    let image_format = match fmt {
        FormatTag::Gif => image::ImageFormat::Gif,
        FormatTag::Bmp => image::ImageFormat::Bmp,
        _ => image::ImageFormat::Tiff,
    };
    let mut buffer: Vec<u8> = Vec::new();
    let mut cursor = std::io::Cursor::new(&mut buffer);
    match image::write_buffer_with_format(&mut cursor, rgba.as_slice(), w, h,
        image::ExtendedColorType::Rgba8, image_format) {
        Ok(()) => Some(buffer),
        Err(_) => None,
    }
}

/// What the deterministic encoders yield for a raster: the lossy formats
/// take its RGB projection, the rest its RGBA buffer; for PNG this is the
/// plain encode that is handed to the optimizer.
pub open spec fn spec_encoded(data: Seq<u8>, w: int, h: int, fmt: FormatTag, quality: u8) -> Option<
    Seq<u8>,
> {
    match fmt {
        FormatTag::Jpeg => jpeg_of(spec_rgb(data), w, h, quality),
        FormatTag::Webp => webp_of(spec_rgb(data), w, h),
        FormatTag::Png => png_plain_of(data, w, h),
        FormatTag::Gif => gif_of(data, w, h),
        FormatTag::Bmp => bmp_of(data, w, h),
        FormatTag::Tiff => tiff_of(data, w, h),
    }
}

/// Encodes the raster into the chosen output format at the (already
/// capped) quality. A PNG whose raster exceeds the decompressed-size
/// safeguard is rejected before the optimizer runs; every encoder error
/// surfaces as `EncodingFailure`. For every format but PNG, the result is
/// exactly the named encoder outcome; for PNG the optimizer's outcome
/// also depends on its time budget, so success is not owed, but any
/// success presupposes the plain encode and never exceeds its size.
pub fn encode_output(
    img: &Raster,
    fmt: FormatTag,
    quality: u8,
    aggressive: bool,
    png_timeout_secs: u64,
    png_max_decompressed: usize,
) -> (r: Result<Vec<u8>, ErrorKind>)
    requires
        img.wf(),
        1 <= quality <= 100,
    ensures
        r is Err ==> r == Err::<Vec<u8>, ErrorKind>(ErrorKind::EncodingFailure),
        fmt != FormatTag::Png ==> (match spec_encoded(img.data@, img.width as int,
            img.height as int, fmt, quality) {
            Some(v) => r matches Ok(b) && b@ == v,
            None => r is Err,
        }),
        fmt == FormatTag::Png && 4 * ((img.width as int) * (img.height as int))
            > png_max_decompressed ==> r is Err,
        fmt == FormatTag::Png && 4 * ((img.width as int) * (img.height as int))
            <= png_max_decompressed ==> (match spec_encoded(img.data@, img.width as int,
            img.height as int, fmt, quality) {
            Some(plain) => r matches Ok(b) ==> b@.len() <= plain.len(),
            None => r is Err,
        }),
{
    match fmt {
        FormatTag::Jpeg => {
            let rgb = rgba_to_rgb(img);
            match encode_jpeg(&rgb, img.width, img.height, quality) {
                Some(bytes) => Ok(bytes),
                None => Err(ErrorKind::EncodingFailure),
            }
        },
        FormatTag::Webp => {
            let rgb = rgba_to_rgb(img);
            match encode_webp(&rgb, img.width, img.height) {
                Some(bytes) => Ok(bytes),
                None => Err(ErrorKind::EncodingFailure),
            }
        },
        FormatTag::Png => {
            // The decompressed size of the PNG being optimized is the
            // raster's own byte size; the safeguard bounds it before the
            // optimizer may stall on it.
            if decompressed_too_large(img, png_max_decompressed) {
                return Err(ErrorKind::EncodingFailure);
            }
            match encode_png_raster(&img.data, img.width, img.height) {
                Some(plain) => match optimize_png(&plain, aggressive, png_timeout_secs) {
                    Some(bytes) => Ok(bytes),
                    None => Err(ErrorKind::EncodingFailure),
                },
                None => Err(ErrorKind::EncodingFailure),
            }
        },
        _ => {
            match encode_container(&img.data, img.width, img.height, fmt) {
                Some(bytes) => Ok(bytes),
                None => Err(ErrorKind::EncodingFailure),
            }
        },
    }
}

/// Whether the raster's byte size exceeds the decompressed-size
/// safeguard.
fn decompressed_too_large(img: &Raster, bound: usize) -> (r: bool)
    requires
        img.wf(),
    ensures
        r == (4 * ((img.width as int) * (img.height as int)) > bound),
{
    img.data.len() > bound
}

} // verus!
