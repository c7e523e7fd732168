use imgopt::config::CompressionConfig;
use imgopt::encode::effective_quality;
use imgopt::errors::ErrorKind;
use imgopt::formats::{detect_format_from_bytes, FormatTag};
use imgopt::pipeline::{decode_base64, ImageCompressionService, TransformOptions};
use imgopt::resize::{ResizeMode, ResizeSpec};

fn config() -> CompressionConfig {
    CompressionConfig {
        max_image_size: 50 * 1024 * 1024,
        default_quality: 75,
        aggressive_quality: 60,
        timeout_seconds: 10,
    }
}

fn options() -> TransformOptions {
    TransformOptions {
        quality: 85,
        black_and_white: false,
        border_radius: 0,
        resize: None,
        output_format: None,
        aggressive: false,
    }
}

fn png_of(w: u32, h: u32, px: [u8; 4]) -> Vec<u8> {
    let img = image::RgbaImage::from_pixel(w, h, image::Rgba(px));
    let mut buf = Vec::new();
    let mut cur = std::io::Cursor::new(&mut buf);
    image::write_buffer_with_format(
        &mut cur,
        img.as_raw(),
        w,
        h,
        image::ExtendedColorType::Rgba8,
        image::ImageFormat::Png,
    )
    .unwrap();
    buf
}

#[test]
fn png_auto_resolves_to_jpeg_and_reports_quality() {
    let bytes = png_of(8, 8, [200, 100, 50, 255]);
    let svc = ImageCompressionService::new();
    let res = svc.optimize_image(&bytes, &options(), &config()).unwrap();
    assert_eq!(res.original_format, FormatTag::Png);
    assert_eq!(res.output_format, FormatTag::Jpeg);
    assert_eq!(res.quality_used, 85);
    assert_eq!(res.original_size, bytes.len());
    assert_eq!(res.optimized_size, res.optimized_bytes.len());
    // The produced bytes really are a JPEG.
    assert_eq!(detect_format_from_bytes(&res.optimized_bytes), Some(FormatTag::Jpeg));
}

#[test]
fn aggressive_caps_jpeg_quality_at_sixty() {
    let bytes = png_of(8, 8, [200, 100, 50, 255]);
    let svc = ImageCompressionService::new();
    let mut opts = options();
    opts.quality = 90;
    opts.aggressive = true;
    let res = svc.optimize_image(&bytes, &opts, &config()).unwrap();
    assert_eq!(res.output_format, FormatTag::Jpeg);
    assert_eq!(res.quality_used, 60);
}

#[test]
fn masking_upgrades_a_jpeg_request_to_png() {
    let bytes = png_of(10, 10, [10, 20, 30, 255]);
    let svc = ImageCompressionService::new();
    let mut opts = options();
    opts.output_format = Some(FormatTag::Jpeg);
    opts.border_radius = 3;
    let res = svc.optimize_image(&bytes, &opts, &config()).unwrap();
    assert_eq!(res.output_format, FormatTag::Png);
    assert_eq!(detect_format_from_bytes(&res.optimized_bytes), Some(FormatTag::Png));
}

#[test]
fn size_ceiling_is_exact() {
    let bytes = png_of(8, 8, [1, 2, 3, 255]);
    let svc = ImageCompressionService::new();
    let mut cfg = config();
    cfg.max_image_size = bytes.len();
    assert!(svc.optimize_image(&bytes, &options(), &cfg).is_ok());
    cfg.max_image_size = bytes.len() - 1;
    match svc.optimize_image(&bytes, &options(), &cfg) {
        Err(e) => assert_eq!(e, ErrorKind::PayloadTooLarge),
        Ok(_) => panic!("over the ceiling must be rejected"),
    }
}

#[test]
fn unmatched_bytes_fail_as_format_unknown() {
    let bytes = vec![9u8; 32];
    let svc = ImageCompressionService::new();
    match svc.optimize_image(&bytes, &options(), &config()) {
        Err(e) => assert_eq!(e, ErrorKind::FormatUnknown),
        Ok(_) => panic!("junk must not sniff"),
    }
}

#[test]
fn sniffed_but_undecodable_fails_decode() {
    // A valid PNG magic prefix over garbage: the sniff succeeds, the
    // decode must still fail.
    let mut bytes = vec![0x89, 0x50, 0x4E, 0x47, 0x0D, 0x0A, 0x1A, 0x0A];
    bytes.extend_from_slice(&[7u8; 64]);
    let svc = ImageCompressionService::new();
    match svc.optimize_image(&bytes, &options(), &config()) {
        Err(e) => assert_eq!(e, ErrorKind::UnsupportedFormat),
        Ok(_) => panic!("an undecodable file must fail decode"),
    }
}

#[test]
fn grayscale_runs_through_the_whole_pipeline() {
    let bytes = png_of(4, 4, [255, 0, 0, 255]);
    let svc = ImageCompressionService::new();
    let mut opts = options();
    opts.black_and_white = true;
    opts.output_format = Some(FormatTag::Png);
    let res = svc.optimize_image(&bytes, &opts, &config()).unwrap();
    let out = image::load_from_memory(&res.optimized_bytes).unwrap().to_rgba8();
    let px = out.get_pixel(1, 1);
    assert_eq!([px[0], px[1], px[2], px[3]], [76, 76, 76, 255]);
}

#[test]
fn resize_runs_through_the_whole_pipeline() {
    let bytes = png_of(100, 50, [9, 9, 9, 255]);
    let svc = ImageCompressionService::new();
    let mut opts = options();
    opts.resize = Some(ResizeSpec { width: Some(50), height: None, mode: ResizeMode::Fit });
    let res = svc.optimize_image(&bytes, &opts, &config()).unwrap();
    let out = image::load_from_memory(&res.optimized_bytes).unwrap();
    assert_eq!((out.width(), out.height()), (50, 25));
}

#[test]
fn every_container_format_encodes() {
    let bytes = png_of(6, 6, [40, 50, 60, 255]);
    let svc = ImageCompressionService::new();
    for (fmt, tag) in [
        (FormatTag::Webp, FormatTag::Webp),
        (FormatTag::Gif, FormatTag::Gif),
        (FormatTag::Bmp, FormatTag::Bmp),
        (FormatTag::Tiff, FormatTag::Tiff),
    ] {
        let mut opts = options();
        opts.output_format = Some(fmt);
        let res = svc.optimize_image(&bytes, &opts, &config()).unwrap();
        assert_eq!(res.output_format, tag);
        assert_eq!(detect_format_from_bytes(&res.optimized_bytes), Some(tag));
    }
}

#[test]
fn compression_ratio_matches_the_sizes() {
    let bytes = png_of(16, 16, [200, 100, 50, 255]);
    let svc = ImageCompressionService::new();
    let res = svc.optimize_image(&bytes, &options(), &config()).unwrap();
    let orig = res.original_size as i128;
    let opt = res.optimized_size as i128;
    let expected = if opt <= orig {
        (orig - opt) * 10000 / orig
    } else {
        -((opt - orig) * 10000 / orig)
    };
    assert_eq!(res.compression_ratio, expected);
}

#[test]
fn create_response_base64_round_trips() {
    let bytes = png_of(8, 8, [200, 100, 50, 255]);
    let svc = ImageCompressionService::new();
    let res = svc.optimize_image(&bytes, &options(), &config()).unwrap();
    let optimized = res.optimized_bytes.clone();
    let quality = res.quality_used;
    let resp = svc.create_response(res);
    let decoded =
        base64::Engine::decode(&base64::engine::general_purpose::STANDARD, &resp.optimized_image)
            .unwrap();
    assert_eq!(decoded, optimized);
    assert_eq!(resp.original_format, "png");
    assert_eq!(resp.output_format, "jpeg");
    assert_eq!(resp.quality_used, quality);
}

#[test]
fn decode_base64_sniffs_the_payload() {
    let bytes = png_of(4, 4, [1, 2, 3, 255]);
    let b64 = base64::Engine::encode(&base64::engine::general_purpose::STANDARD, &bytes);
    let data = decode_base64(&b64).unwrap();
    assert_eq!(data.bytes, bytes);
    assert_eq!(data.format, Some(FormatTag::Png));
}

#[test]
fn decode_base64_rejects_garbage() {
    match decode_base64("!!!not base64!!!") {
        Err(e) => assert_eq!(e, ErrorKind::InvalidBase64),
        Ok(_) => panic!("garbage must not decode"),
    }
}

#[test]
fn effective_quality_policy() {
    assert_eq!(effective_quality(85, false, FormatTag::Jpeg, 60), 85);
    assert_eq!(effective_quality(90, true, FormatTag::Jpeg, 60), 60);
    assert_eq!(effective_quality(90, true, FormatTag::Webp, 60), 60);
    assert_eq!(effective_quality(90, true, FormatTag::Png, 60), 90);
    assert_eq!(effective_quality(40, true, FormatTag::Jpeg, 60), 40);
}

#[test]
fn png_decompressed_size_safeguard_fails_encoding() {
    // The 50x50 PNG itself is small, but its raster is 10000 bytes: with
    // a 1000-byte ceiling the optimizer must never run on it.
    let bytes = png_of(50, 50, [8, 8, 8, 255]);
    assert!(bytes.len() <= 1000);
    let svc = ImageCompressionService::new();
    let mut cfg = config();
    cfg.max_image_size = 1000;
    let mut opts = options();
    opts.output_format = Some(FormatTag::Png);
    match svc.optimize_image(&bytes, &opts, &cfg) {
        Err(e) => assert_eq!(e, ErrorKind::EncodingFailure),
        Ok(_) => panic!("the safeguard must reject an oversized raster"),
    }
}
