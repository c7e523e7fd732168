//! The optimization pipeline: size ceiling, sniff, decode, transforms in
//! fixed order (resize, grayscale, rounded corners), format resolution,
//! re-encode, and the result record with its size metadata.

use vstd::prelude::*;
use crate::b64::{b64_decode, b64_decode_of, b64_encode, b64_encode_of};
use crate::config::CompressionConfig;
use crate::encode::{effective_quality, encode_output, spec_effective_quality, spec_encoded};
use crate::errors::ErrorKind;
use crate::formats::{
    detect_format_from_bytes, determine_output_format, spec_determine_output, spec_format_name,
    spec_sniff, FormatTag,
};
use crate::raster::{
    apply_border_radius, grayscale, spec_clamped_radius, spec_grayed, spec_masked_data, Raster,
};
use crate::resize::{apply_resize, spec_final_dims, spec_resize_ok, spec_resized_data, ResizeSpec};

verus! {

/// The canonical transform request every inbound shape normalizes to.
pub struct TransformOptions {
    /// Lossy-encode quality, 1 to 100.
    pub quality: u8,
    /// Whether to replace color with BT.601 luma.
    pub black_and_white: bool,
    /// Rounded-corner radius in pixels; 0 means no masking.
    pub border_radius: u32,
    /// The resize to apply, if any.
    pub resize: Option<ResizeSpec>,
    /// The requested output format; `None` auto-resolves from the source.
    pub output_format: Option<FormatTag>,
    /// Whether aggressive mode caps the lossy quality.
    pub aggressive: bool,
}

impl TransformOptions {
    /// Quality in range, and any resize naming at least one dimension.
    pub open spec fn valid(&self) -> bool {
        1 <= self.quality <= 100 && match self.resize {
            Some(rs) => rs.valid(),
            None => true,
        }
    }
}

/// Raw image bytes tagged with their sniffed format.
pub struct ImageData {
    pub bytes: Vec<u8>,
    pub format: Option<FormatTag>,
}

/// Decodes a base64 payload and sniffs the decoded bytes. Decoding is a
/// left inverse of the standard encoding: a payload that is the encoding
/// of some bytes always comes back as exactly those bytes.
pub fn decode_base64(base64_data: &str) -> (r: Result<ImageData, ErrorKind>)
    ensures
        r matches Ok(d) ==> b64_decode_of(base64_data@) == Some(d.bytes@) && d.format
            == spec_sniff(d.bytes@),
        r is Err ==> r == Err::<ImageData, ErrorKind>(ErrorKind::InvalidBase64)
            && b64_decode_of(base64_data@) is None,
        forall|b: Seq<u8>|
            base64_data@ == b64_encode_of(b) ==> (r matches Ok(d) && d.bytes@ == b),
{
    match b64_decode(base64_data) {
        Some(bytes) => {
            let format = detect_format_from_bytes(bytes.as_slice());
            Ok(ImageData { bytes, format })
        },
        None => Err(ErrorKind::InvalidBase64),
    }
}

/// What one optimization produced: the bytes and their size metadata.
/// `compression_ratio` is the size reduction in hundredths of a percent
/// (negative when the output grew).
pub struct CompressionResult {
    pub optimized_bytes: Vec<u8>,
    pub original_size: usize,
    pub optimized_size: usize,
    pub compression_ratio: i128,
    pub original_format: FormatTag,
    pub output_format: FormatTag,
    pub quality_used: u8,
}

/// The size reduction in hundredths of a percent, truncated toward zero:
/// `(orig - opt) / orig * 10000`.
pub open spec fn spec_ratio(orig: int, opt: int) -> int {
    if opt <= orig {
        (orig - opt) * 10000 / orig
    } else {
        -((opt - orig) * 10000 / orig)
    }
}

/// Computes the compression ratio in hundredths of a percent.
fn ratio_centi_pct(orig: usize, opt: usize) -> (r: i128)
    requires
        orig >= 1,
    ensures
        r == spec_ratio(orig as int, opt as int),
{
    if opt <= orig {
        let diff: u128 = (orig - opt) as u128;
        proof {
            assert(diff * 10000 <= 0xffff_ffff_ffff_ffffu128 * 10000) by (nonlinear_arith)
                requires diff <= 0xffff_ffff_ffff_ffffu128;
            assert((diff as int) * 10000 / (orig as int) <= (diff as int) * 10000)
                by (nonlinear_arith)
                requires orig >= 1, diff >= 0;
        }
        let v: u128 = diff * 10000 / (orig as u128);
        v as i128
    } else {
        let diff: u128 = (opt - orig) as u128;
        proof {
            assert(diff * 10000 <= 0xffff_ffff_ffff_ffffu128 * 10000) by (nonlinear_arith)
                requires diff <= 0xffff_ffff_ffff_ffffu128;
            assert((diff as int) * 10000 / (orig as int) <= (diff as int) * 10000)
                by (nonlinear_arith)
                requires orig >= 1, diff >= 0;
        }
        let v: u128 = diff * 10000 / (orig as u128);
        -(v as i128)
    }
}

/// The output format a request actually produces: the explicit or
/// auto-resolved format, upgraded to PNG when a rounded-corner mask was
/// applied and the resolved format cannot carry alpha.
pub open spec fn spec_final_format(opts: TransformOptions, original: FormatTag) -> FormatTag {
    let f = spec_determine_output(opts.output_format, original);
    if opts.border_radius > 0 && f == FormatTag::Jpeg {
        FormatTag::Png
    } else {
        f
    }
}

/// What decoding a byte sequence yields: the raster's width, height and
/// RGBA buffer, a pure function of the bytes.
pub uninterp spec fn decoded_of(bytes: Seq<u8>) -> Option<(int, int, Seq<u8>)>;

/// Relies on image::load_from_memory and DynamicImage::to_rgba8: decodes
/// any format the image crate supports into an RGBA raster whose buffer
/// holds exactly 4 bytes per pixel; the outcome is a function of the
/// bytes alone.
#[verifier::external_body]
fn decode_image(bytes: &Vec<u8>) -> (r: Option<Raster>)
    ensures
        r matches Some(img) ==> img.wf() && decoded_of(bytes@) == Some(
            (img.width as int, img.height as int, img.data@),
        ),
        r is None ==> decoded_of(bytes@) is None,
{
    match image::load_from_memory(bytes.as_slice()) {
        Ok(decoded) => {
            let rgba = decoded.to_rgba8();
            let w = rgba.width();
            let h = rgba.height();
            Some(Raster { width: w, height: h, data: rgba.into_raw() })
        },
        Err(_) => None,
    }
}

/// The guards before decode pass: the bytes fit the ceiling and sniff.
pub open spec fn spec_pre_ok(bytes: Seq<u8>, config: CompressionConfig) -> bool {
    bytes.len() <= config.max_image_size && spec_sniff(bytes) is Some
}

/// Decode refuses the bytes, or yields a degenerate raster with a zero
/// dimension.
pub open spec fn spec_decode_bad(bytes: Seq<u8>) -> bool {
    match decoded_of(bytes) {
        None => true,
        Some(d) => d.0 < 1 || d.1 < 1,
    }
}

/// A requested resize fails on the decoded dimensions.
pub open spec fn spec_resize_bad(bytes: Seq<u8>, opts: TransformOptions) -> bool {
    match opts.resize {
        None => false,
        Some(rs) => !spec_resize_ok((decoded_of(bytes)->0).0, (decoded_of(bytes)->0).1, rs),
    }
}

/// The raster the transform stage yields for a decodable input whose
/// resize succeeded: the decoded raster, resized where requested, then
/// grayscaled, then masked, in that fixed order.
pub open spec fn spec_transformed(bytes: Seq<u8>, opts: TransformOptions) -> (int, int, Seq<u8>) {
    let d = decoded_of(bytes)->0;
    let (w1, h1, d1) = match opts.resize {
        None => (d.0, d.1, d.2),
        Some(rs) => {
            let (fw, fh) = spec_final_dims(d.0, d.1, rs);
            (fw, fh, spec_resized_data(d.2, d.0, d.1, rs))
        },
    };
    let d2 = if opts.black_and_white {
        spec_grayed(d1)
    } else {
        d1
    };
    let d3 = if opts.border_radius > 0 {
        spec_masked_data(d2, w1, h1, spec_clamped_radius(opts.border_radius as int, w1, h1))
    } else {
        d2
    };
    (w1, h1, d3)
}

/// What the pipeline owes once the guards, the decode and any resize have
/// passed. For every output format but PNG the result is exactly the
/// named encode of the transformed raster at the effective quality; for
/// PNG the optimizer also depends on its time budget, so success is not
/// owed, but the decompressed-size safeguard is exact, any failure is
/// `EncodingFailure`, and any success presupposes the plain PNG encode
/// and never exceeds its size.
pub open spec fn spec_encode_outcome(
    bytes: Seq<u8>,
    opts: TransformOptions,
    config: CompressionConfig,
    r: Result<CompressionResult, ErrorKind>,
) -> bool {
    let fmt = spec_final_format(opts, spec_sniff(bytes)->0);
    let q = spec_effective_quality(opts.quality, opts.aggressive, fmt, config.aggressive_quality);
    let (tw, th, tdata) = spec_transformed(bytes, opts);
    if fmt != FormatTag::Png {
        match spec_encoded(tdata, tw, th, fmt, q) {
            Some(v) => r matches Ok(res) && res.optimized_bytes@ == v,
            None => r == Err::<CompressionResult, ErrorKind>(ErrorKind::EncodingFailure),
        }
    } else {
        &&& (4 * (tw * th) > config.max_image_size ==> r == Err::<CompressionResult, ErrorKind>(
            ErrorKind::EncodingFailure,
        ))
        &&& (r is Ok || r == Err::<CompressionResult, ErrorKind>(ErrorKind::EncodingFailure))
        &&& (match spec_encoded(tdata, tw, th, fmt, q) {
            Some(plain) => r matches Ok(res) ==> res.optimized_bytes@.len() <= plain.len(),
            None => 4 * (tw * th) <= config.max_image_size ==> r == Err::<
                CompressionResult,
                ErrorKind,
            >(ErrorKind::EncodingFailure),
        })
    }
}

/// The image transform and optimization service. It holds no state: each
/// request is processed independently.
pub struct ImageCompressionService;

impl ImageCompressionService {
    /// A fresh, stateless service.
    pub fn new() -> (r: Self) {
        ImageCompressionService
    }

    /// Runs the whole pipeline on raw bytes: enforce the size ceiling,
    /// sniff the source format, decode, apply resize then grayscale then
    /// the rounded-corner mask, resolve the output format and re-encode
    /// under the quality policy. `quality_used` reports the effective
    /// (possibly capped) quality for the final format; for WEBP output the
    /// encoder itself is lossless and takes no quality parameter, so the
    /// value is reported but does not steer the encoder.
    pub fn optimize_image(
        &self,
        bytes: &Vec<u8>,
        opts: &TransformOptions,
        config: &CompressionConfig,
    ) -> (r: Result<CompressionResult, ErrorKind>)
        requires
            opts.valid(),
            config.valid(),
        ensures
            (bytes@.len() > config.max_image_size) <==> (r == Err::<CompressionResult, ErrorKind>(
                ErrorKind::PayloadTooLarge,
            )),
            (bytes@.len() <= config.max_image_size && spec_sniff(bytes@) is None) <==> (r
                == Err::<CompressionResult, ErrorKind>(ErrorKind::FormatUnknown)),
            opts.resize is None ==> r != Err::<CompressionResult, ErrorKind>(
                ErrorKind::InvalidDimensions,
            ),
            spec_pre_ok(bytes@, *config) ==> ((r == Err::<CompressionResult, ErrorKind>(
                ErrorKind::UnsupportedFormat,
            )) <==> spec_decode_bad(bytes@)),
            spec_pre_ok(bytes@, *config) && !spec_decode_bad(bytes@) ==> ((r == Err::<
                CompressionResult,
                ErrorKind,
            >(ErrorKind::InvalidDimensions)) <==> spec_resize_bad(bytes@, *opts)),
            spec_pre_ok(bytes@, *config) && !spec_decode_bad(bytes@) && !spec_resize_bad(
                bytes@,
                *opts,
            ) ==> spec_encode_outcome(bytes@, *opts, *config, r),
            r matches Ok(res) ==> spec_sniff(bytes@) == Some(res.original_format)
                && res.output_format == spec_final_format(*opts, res.original_format)
                && res.quality_used == spec_effective_quality(opts.quality, opts.aggressive,
                res.output_format, config.aggressive_quality) && res.original_size == bytes@.len()
                && res.optimized_size == res.optimized_bytes@.len() && res.compression_ratio
                == spec_ratio(bytes@.len() as int, res.optimized_bytes@.len() as int),
    {
        if bytes.len() > config.max_image_size {
            return Err(ErrorKind::PayloadTooLarge);
        }
        let original_format = match detect_format_from_bytes(bytes.as_slice()) {
            Some(f) => f,
            None => {
                return Err(ErrorKind::FormatUnknown);
            },
        };
        let mut img = match decode_image(bytes) {
            Some(img) => img,
            None => {
                return Err(ErrorKind::UnsupportedFormat);
            },
        };
        if img.width == 0 || img.height == 0 {
            // A degenerate raster cannot be transformed or re-encoded.
            return Err(ErrorKind::UnsupportedFormat);
        }
        let ghost dec = (img.width as int, img.height as int, img.data@);
        if let Some(rs) = &opts.resize {
            img = match apply_resize(&img, rs) {
                Ok(resized) => resized,
                Err(e) => {
                    return Err(e);
                },
            };
        }
        if opts.black_and_white {
            grayscale(&mut img);
        }
        if opts.border_radius > 0 {
            apply_border_radius(&mut img, opts.border_radius);
        }
        proof {
            assert(decoded_of(bytes@) == Some(dec));
            assert((img.width as int, img.height as int, img.data@) == spec_transformed(
                bytes@,
                *opts,
            ));
        }
        let requested = determine_output_format(opts.output_format, original_format);
        let output_format = if opts.border_radius > 0 && requested == FormatTag::Jpeg {
            FormatTag::Png
        } else {
            requested
        };
        let quality_used = effective_quality(
            opts.quality,
            opts.aggressive,
            output_format,
            config.aggressive_quality,
        );
        let optimized_bytes = match encode_output(
            &img,
            output_format,
            quality_used,
            opts.aggressive,
            config.timeout_seconds,
            config.max_image_size,
        ) {
            Ok(b) => b,
            Err(e) => {
                return Err(e);
            },
        };
        let original_size = bytes.len();
        let optimized_size = optimized_bytes.len();
        let compression_ratio = ratio_centi_pct(original_size, optimized_size);
        Ok(CompressionResult {
            optimized_bytes,
            original_size,
            optimized_size,
            compression_ratio,
            original_format,
            output_format,
            quality_used,
        })
    }

    /// Wraps a result for the structured response shape: the optimized
    /// bytes are base64-coded (decoding the coded image gives the
    /// optimized bytes back) and the formats named.
    pub fn create_response(&self, result: CompressionResult) -> (r: OptimizeResponse)
        ensures
            r.optimized_image@ == b64_encode_of(result.optimized_bytes@),
            b64_decode_of(r.optimized_image@) == Some(result.optimized_bytes@),
            r.original_size == result.original_size,
            r.optimized_size == result.optimized_size,
            r.compression_ratio == result.compression_ratio,
            r.original_format@ == spec_format_name(result.original_format),
            r.output_format@ == spec_format_name(result.output_format),
            r.quality_used == result.quality_used,
    {
        let optimized_base64 = b64_encode(&result.optimized_bytes);
        OptimizeResponse {
            optimized_image: optimized_base64,
            original_size: result.original_size,
            optimized_size: result.optimized_size,
            compression_ratio: result.compression_ratio,
            original_format: result.original_format.name().to_owned(),
            output_format: result.output_format.name().to_owned(),
            quality_used: result.quality_used,
        }
    }
}

/// The structured response: the optimized image base64-coded, with the
/// size metadata. `compression_ratio` is in hundredths of a percent.
pub struct OptimizeResponse {
    pub optimized_image: String,
    pub original_size: usize,
    pub optimized_size: usize,
    pub compression_ratio: i128,
    pub original_format: String,
    pub output_format: String,
    pub quality_used: u8,
}

} // verus!
