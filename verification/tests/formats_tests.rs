use imgopt::formats::{detect_format_from_bytes, determine_output_format, FormatTag};

fn with_padding(prefix: &[u8]) -> Vec<u8> {
    let mut v = prefix.to_vec();
    while v.len() < 16 {
        v.push(0);
    }
    v
}

#[test]
fn sniffs_png_magic() {
    let v = with_padding(&[0x89, 0x50, 0x4E, 0x47, 0x0D, 0x0A, 0x1A, 0x0A]);
    assert_eq!(detect_format_from_bytes(&v), Some(FormatTag::Png));
}

#[test]
fn sniffs_jpeg_magic() {
    let v = with_padding(&[0xFF, 0xD8, 0xFF]);
    assert_eq!(detect_format_from_bytes(&v), Some(FormatTag::Jpeg));
}

#[test]
fn sniffs_webp_magic() {
    let mut v = vec![0x52, 0x49, 0x46, 0x46, 1, 2, 3, 4];
    v.extend_from_slice(&[0x57, 0x45, 0x42, 0x50]);
    assert_eq!(detect_format_from_bytes(&v), Some(FormatTag::Webp));
}

#[test]
fn sniffs_gif_magic() {
    let v = with_padding(b"GIF89a");
    assert_eq!(detect_format_from_bytes(&v), Some(FormatTag::Gif));
}

#[test]
fn sniffs_bmp_magic() {
    let v = with_padding(b"BM");
    assert_eq!(detect_format_from_bytes(&v), Some(FormatTag::Bmp));
}

#[test]
fn sniffs_tiff_magic_both_endians() {
    let le = with_padding(&[0x49, 0x49, 0x2A, 0x00]);
    let be = with_padding(&[0x4D, 0x4D, 0x00, 0x2A]);
    assert_eq!(detect_format_from_bytes(&le), Some(FormatTag::Tiff));
    assert_eq!(detect_format_from_bytes(&be), Some(FormatTag::Tiff));
}

#[test]
fn short_buffer_is_unknown() {
    // Seven bytes of PNG magic: one too few.
    let v = vec![0x89, 0x50, 0x4E, 0x47, 0x0D, 0x0A, 0x1A];
    assert_eq!(detect_format_from_bytes(&v), None);
}

#[test]
fn unmatched_prefix_is_unknown() {
    let v = with_padding(&[1, 2, 3, 4, 5, 6, 7, 8]);
    assert_eq!(detect_format_from_bytes(&v), None);
}

#[test]
fn auto_resolves_png_to_jpeg() {
    assert_eq!(determine_output_format(None, FormatTag::Png), FormatTag::Jpeg);
}

#[test]
fn auto_resolves_jpeg_to_jpeg() {
    assert_eq!(determine_output_format(None, FormatTag::Jpeg), FormatTag::Jpeg);
}

#[test]
fn auto_resolves_everything_else_to_jpeg() {
    assert_eq!(determine_output_format(None, FormatTag::Gif), FormatTag::Jpeg);
    assert_eq!(determine_output_format(None, FormatTag::Webp), FormatTag::Jpeg);
}

#[test]
fn explicit_format_wins() {
    assert_eq!(
        determine_output_format(Some(FormatTag::Webp), FormatTag::Png),
        FormatTag::Webp
    );
}

#[test]
fn format_names() {
    assert_eq!(FormatTag::Png.name(), "png");
    assert_eq!(FormatTag::Jpeg.name(), "jpeg");
    assert_eq!(FormatTag::Webp.name(), "webp");
    assert_eq!(FormatTag::Gif.name(), "gif");
    assert_eq!(FormatTag::Bmp.name(), "bmp");
    assert_eq!(FormatTag::Tiff.name(), "tiff");
}

#[test]
fn alpha_capability() {
    assert!(!FormatTag::Jpeg.carries_alpha());
    assert!(FormatTag::Png.carries_alpha());
}
