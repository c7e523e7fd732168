use imgopt::errors::ErrorKind;
use imgopt::formats::FormatTag;
use imgopt::multipart::multipart_file;
use imgopt::normalize::{
    default_format, default_quality, normalize_binary, normalize_multipart,
    normalize_structured, parse_bool_token, parse_format_token, parse_mode_token,
    request_options, OptimizeRequest, RequestShape, shape_default_quality,
};
use imgopt::resize::ResizeMode;

fn b64(bytes: &[u8]) -> String {
    base64::Engine::encode(&base64::engine::general_purpose::STANDARD, bytes)
}

fn expect_err<T>(r: Result<T, ErrorKind>, want: ErrorKind) {
    match r {
        Err(e) => assert_eq!(e, want),
        Ok(_) => panic!("expected an error"),
    }
}

#[test]
fn structured_body_with_all_fields() {
    let payload = vec![1u8, 2, 3, 4];
    let body = format!(
        "{{\"image_data\":\"{}\",\"quality\":42,\"format\":\"png\",\"aggressive\":true}}",
        b64(&payload)
    );
    let (bytes, opts) = normalize_structured(&body).unwrap();
    assert_eq!(bytes, payload);
    assert_eq!(opts.quality, 42);
    assert_eq!(opts.output_format, Some(FormatTag::Png));
    assert!(opts.aggressive);
    assert!(!opts.black_and_white);
    assert_eq!(opts.border_radius, 0);
    assert!(opts.resize.is_none());
}

#[test]
fn structured_body_defaults() {
    let payload = vec![9u8, 8, 7];
    let body = format!("{{\"image_data\":\"{}\"}}", b64(&payload));
    let (bytes, opts) = normalize_structured(&body).unwrap();
    assert_eq!(bytes, payload);
    assert_eq!(opts.quality, 75);
    assert_eq!(opts.output_format, None);
    assert!(!opts.aggressive);
}

#[test]
fn unparseable_body_falls_back_to_bare_base64() {
    let payload = vec![5u8, 6, 7, 8, 9, 10];
    let body = b64(&payload);
    let (bytes, opts) = normalize_structured(&body).unwrap();
    assert_eq!(bytes, payload);
    assert_eq!(opts.quality, 60);
    assert_eq!(opts.output_format, None);
    assert!(opts.aggressive);
}

#[test]
fn structured_out_of_range_quality_is_invalid() {
    let body = format!("{{\"image_data\":\"{}\",\"quality\":0}}", b64(&[1]));
    expect_err(normalize_structured(&body), ErrorKind::InvalidParameter);
    let body = format!("{{\"image_data\":\"{}\",\"quality\":101}}", b64(&[1]));
    expect_err(normalize_structured(&body), ErrorKind::InvalidParameter);
}

#[test]
fn structured_unknown_format_is_invalid() {
    let body = format!("{{\"image_data\":\"{}\",\"format\":\"heic\"}}", b64(&[1]));
    expect_err(normalize_structured(&body), ErrorKind::InvalidParameter);
}

#[test]
fn fallback_garbage_is_invalid_base64() {
    expect_err(normalize_structured("{]this is neither"), ErrorKind::InvalidBase64);
}

#[test]
fn binary_body_with_query_parameters() {
    let body = vec![1u8, 2, 3];
    let (bytes, opts) =
        normalize_binary(body.clone(), "quality=42&format=webp&aggressive=true").unwrap();
    assert_eq!(bytes, body);
    assert_eq!(opts.quality, 42);
    assert_eq!(opts.output_format, Some(FormatTag::Webp));
    assert!(opts.aggressive);
}

#[test]
fn binary_defaults() {
    let (_, opts) = normalize_binary(vec![1], "").unwrap();
    assert_eq!(opts.quality, 85);
    assert_eq!(opts.output_format, None);
    assert!(!opts.aggressive);
}

#[test]
fn binary_rejects_bad_tokens() {
    expect_err(normalize_binary(vec![1], "quality=abc"), ErrorKind::InvalidParameter);
    expect_err(normalize_binary(vec![1], "quality=200"), ErrorKind::InvalidParameter);
    expect_err(normalize_binary(vec![1], "aggressive=yes"), ErrorKind::InvalidParameter);
    expect_err(normalize_binary(vec![1], "format=heic"), ErrorKind::InvalidParameter);
}

#[test]
fn binary_rejects_an_empty_body() {
    expect_err(normalize_binary(Vec::new(), "quality=50"), ErrorKind::InvalidParameter);
}

fn multipart_body(boundary: &str, parts: &[(&str, &[u8])]) -> Vec<u8> {
    let mut out = Vec::new();
    for (name, content) in parts {
        out.extend_from_slice(format!("--{}\r\n", boundary).as_bytes());
        out.extend_from_slice(
            format!(
                "Content-Disposition: form-data; name=\"{}\"; filename=\"a\"\r\n\
                 Content-Type: application/octet-stream\r\n\r\n",
                name
            )
            .as_bytes(),
        );
        out.extend_from_slice(content);
        out.extend_from_slice(b"\r\n");
    }
    out.extend_from_slice(format!("--{}--\r\n", boundary).as_bytes());
    out
}

#[test]
fn multipart_full_request() {
    let body = multipart_body("XBOUND", &[("file", b"HELLO-IMAGE")]);
    let (bytes, opts) =
        normalize_multipart(&body, "XBOUND", "q=90&bw=true&br=2&f=png&w=10&h=20&t=force")
            .unwrap();
    assert_eq!(bytes, b"HELLO-IMAGE".to_vec());
    assert_eq!(opts.quality, 90);
    assert!(opts.black_and_white);
    assert_eq!(opts.border_radius, 2);
    assert_eq!(opts.output_format, Some(FormatTag::Png));
    let rs = opts.resize.unwrap();
    assert_eq!(rs.width, Some(10));
    assert_eq!(rs.height, Some(20));
    assert_eq!(rs.mode, ResizeMode::Force);
    assert!(!opts.aggressive);
}

#[test]
fn multipart_skips_other_parts() {
    let body = multipart_body("B7", &[("note", b"not me"), ("file", b"PAYLOAD")]);
    let (bytes, opts) = normalize_multipart(&body, "B7", "").unwrap();
    assert_eq!(bytes, b"PAYLOAD".to_vec());
    assert_eq!(opts.quality, 85);
    assert!(opts.resize.is_none());
}

#[test]
fn multipart_defaults_resize_mode_to_fit() {
    let body = multipart_body("B7", &[("file", b"X")]);
    let (_, opts) = normalize_multipart(&body, "B7", "w=10").unwrap();
    let rs = opts.resize.unwrap();
    assert_eq!(rs.mode, ResizeMode::Fit);
    assert_eq!(rs.width, Some(10));
    assert_eq!(rs.height, None);
}

#[test]
fn multipart_mode_without_dimension_is_invalid() {
    let body = multipart_body("B7", &[("file", b"X")]);
    expect_err(normalize_multipart(&body, "B7", "t=fill"), ErrorKind::InvalidParameter);
}

#[test]
fn multipart_rejects_bad_tokens_before_the_body() {
    // The body is malformed too, but parameter validation comes first.
    let body = b"no delimiter here".to_vec();
    expect_err(normalize_multipart(&body, "B7", "q=0"), ErrorKind::InvalidParameter);
    let good = multipart_body("B7", &[("file", b"X")]);
    expect_err(normalize_multipart(&good, "B7", "bw=maybe"), ErrorKind::InvalidParameter);
    expect_err(normalize_multipart(&good, "B7", "t=zoom&w=4"), ErrorKind::InvalidParameter);
    expect_err(normalize_multipart(&good, "B7", "br=abc"), ErrorKind::InvalidParameter);
}

#[test]
fn multipart_without_file_part_is_invalid() {
    let body = multipart_body("B7", &[("other", b"X")]);
    expect_err(normalize_multipart(&body, "B7", ""), ErrorKind::InvalidParameter);
}

#[test]
fn multipart_filename_attribute_is_not_the_name() {
    // The disposition names the field "x"; only its filename is "file".
    // The token inside filename="file" must not select the part.
    let mut body = Vec::new();
    body.extend_from_slice(b"--B7\r\n");
    body.extend_from_slice(
        b"Content-Disposition: form-data; name=\"x\"; filename=\"file\"\r\n\r\n",
    );
    body.extend_from_slice(b"NOT-THE-FIELD\r\n");
    body.extend_from_slice(b"--B7--\r\n");
    expect_err(normalize_multipart(&body, "B7", ""), ErrorKind::InvalidParameter);
    // With a real file part after it, that part is the one taken.
    let mut body2 = Vec::new();
    body2.extend_from_slice(b"--B7\r\n");
    body2.extend_from_slice(
        b"Content-Disposition: form-data; name=\"x\"; filename=\"file\"\r\n\r\n",
    );
    body2.extend_from_slice(b"NOT-THE-FIELD\r\n");
    body2.extend_from_slice(b"--B7\r\n");
    body2.extend_from_slice(
        b"Content-Disposition: form-data; name=\"file\"; filename=\"a\"\r\n\r\n",
    );
    body2.extend_from_slice(b"REAL-FIELD\r\n");
    body2.extend_from_slice(b"--B7--\r\n");
    let (bytes, _) = normalize_multipart(&body2, "B7", "").unwrap();
    assert_eq!(bytes, b"REAL-FIELD".to_vec());
}

#[test]
fn multipart_file_extracts_exact_bytes() {
    let body = multipart_body("Q", &[("file", &[0u8, 13, 10, 45, 45, 7])]);
    let got = multipart_file(&body, &b"Q".to_vec()).unwrap();
    assert_eq!(got, vec![0u8, 13, 10, 45, 45, 7]);
}

#[test]
fn token_parsers() {
    assert_eq!(parse_format_token("auto"), Some(None));
    assert_eq!(parse_format_token("tiff"), Some(Some(FormatTag::Tiff)));
    assert_eq!(parse_format_token("TIFF"), None);
    assert_eq!(parse_bool_token("true"), Some(true));
    assert_eq!(parse_bool_token("false"), Some(false));
    assert_eq!(parse_bool_token("1"), None);
    assert_eq!(parse_mode_token("fit"), Some(ResizeMode::Fit));
    assert_eq!(parse_mode_token("fill"), Some(ResizeMode::Fill));
    assert_eq!(parse_mode_token("force"), Some(ResizeMode::Force));
    assert_eq!(parse_mode_token("stretch"), None);
}

#[test]
fn defaults_table() {
    assert_eq!(shape_default_quality(RequestShape::Structured), 75);
    assert_eq!(shape_default_quality(RequestShape::StructuredFallback), 60);
    assert_eq!(shape_default_quality(RequestShape::Binary), 85);
    assert_eq!(shape_default_quality(RequestShape::Multipart), 85);
    assert_eq!(default_quality(), 75);
    assert_eq!(default_format(), "auto");
}

#[test]
fn request_options_validates() {
    let req = OptimizeRequest {
        image_data: String::new(),
        quality: 85,
        format: "jpeg".to_string(),
        progressive: false,
        aggressive: true,
    };
    let opts = request_options(&req).unwrap();
    assert_eq!(opts.quality, 85);
    assert_eq!(opts.output_format, Some(FormatTag::Jpeg));
    assert!(opts.aggressive);
    let bad = OptimizeRequest { quality: 0, ..req };
    expect_err(request_options(&bad), ErrorKind::InvalidParameter);
}

#[test]
fn query_values_are_percent_decoded() {
    // "we%62p" decodes to "webp": the token must be matched after
    // percent-decoding, not on the raw text.
    let (_, opts) = normalize_binary(vec![1], "format=we%62p").unwrap();
    assert_eq!(opts.output_format, Some(FormatTag::Webp));
}

#[test]
fn first_of_duplicate_keys_wins() {
    let (_, opts) = normalize_binary(vec![1], "quality=10&quality=90").unwrap();
    assert_eq!(opts.quality, 10);
}
