use imgopt::config::{AppConfig, CorsConfig, ServerConfig, CompressionConfig};
use imgopt::errors::{ErrorKind, ErrorResponse};
use imgopt::handler::{response_status, route_request, ImageHandler, Route};
use imgopt::strutil::{contains_str, format_file_size, parse_u64, str_eq, u64_to_string};

fn config_with_origins(origins: Vec<&str>) -> AppConfig {
    AppConfig {
        server: ServerConfig { host: "0.0.0.0".to_string(), port: 8080, timeout_seconds: 30 },
        compression: CompressionConfig {
            max_image_size: 52428800,
            default_quality: 75,
            aggressive_quality: 60,
            timeout_seconds: 10,
        },
        cors: CorsConfig { allowed_origins: origins.into_iter().map(String::from).collect() },
    }
}

#[test]
fn from_values_all_defaults() {
    let cfg = AppConfig::from_values(None, None, None, None, None, None, None, Vec::new());
    assert_eq!(cfg.server.host, "0.0.0.0");
    assert_eq!(cfg.server.port, 8080);
    assert_eq!(cfg.server.timeout_seconds, 30);
    assert_eq!(cfg.compression.max_image_size, 52428800);
    assert_eq!(cfg.compression.default_quality, 75);
    assert_eq!(cfg.compression.aggressive_quality, 60);
    assert_eq!(cfg.compression.timeout_seconds, 10);
}

#[test]
fn from_values_parses_and_falls_back() {
    let cfg = AppConfig::from_values(
        Some("127.0.0.1".to_string()),
        Some("9090".to_string()),
        Some("abc".to_string()),
        Some("1024".to_string()),
        Some("200".to_string()),
        Some("55".to_string()),
        Some("3".to_string()),
        vec!["https://a".to_string()],
    );
    assert_eq!(cfg.server.host, "127.0.0.1");
    assert_eq!(cfg.server.port, 9090);
    assert_eq!(cfg.server.timeout_seconds, 30);
    assert_eq!(cfg.compression.max_image_size, 1024);
    // 200 is no quality: the default stands.
    assert_eq!(cfg.compression.default_quality, 75);
    assert_eq!(cfg.compression.aggressive_quality, 55);
    assert_eq!(cfg.compression.timeout_seconds, 3);
    assert_eq!(cfg.cors.allowed_origins, vec!["https://a".to_string()]);
}

#[test]
fn server_address_joins_host_and_port() {
    let cfg = config_with_origins(vec![]);
    assert_eq!(cfg.server_address(), "0.0.0.0:8080");
}

#[test]
fn routes() {
    assert_eq!(route_request("OPTIONS", "/anything"), Route::Preflight);
    assert_eq!(route_request("POST", "/optimize"), Route::Optimize);
    assert_eq!(route_request("POST", "/optimize-binary"), Route::OptimizeBinary);
    assert_eq!(route_request("GET", "/optimize"), Route::NotFound);
    assert_eq!(route_request("POST", "/other"), Route::NotFound);
}

#[test]
fn status_codes() {
    assert_eq!(response_status(Route::Optimize, true), 200);
    assert_eq!(response_status(Route::Optimize, false), 400);
    assert_eq!(response_status(Route::NotFound, true), 404);
}

#[test]
fn wildcard_origin_allows_everyone() {
    let handler = ImageHandler::new(&config_with_origins(vec!["*"]));
    assert_eq!(handler.get_allowed_origin(Some("https://x")), "*");
    assert_eq!(handler.get_allowed_origin(None), "*");
}

#[test]
fn listed_origin_is_echoed() {
    let handler = ImageHandler::new(&config_with_origins(vec!["https://a", "https://b"]));
    assert_eq!(handler.get_allowed_origin(Some("https://b")), "https://b");
}

#[test]
fn unlisted_origin_is_null() {
    let handler = ImageHandler::new(&config_with_origins(vec!["https://a"]));
    assert_eq!(handler.get_allowed_origin(Some("https://evil")), "null");
    assert_eq!(handler.get_allowed_origin(None), "null");
}

#[test]
fn cors_headers_carry_the_resolved_origin() {
    let handler = ImageHandler::new(&config_with_origins(vec!["https://a"]));
    let headers = handler.get_cors_headers(Some("https://a"));
    assert_eq!(headers.len(), 4);
    assert_eq!(headers[0].0, "Content-Type");
    assert_eq!(headers[0].1, "application/json");
    assert_eq!(headers[1].0, "Access-Control-Allow-Origin");
    assert_eq!(headers[1].1, "https://a");
    assert_eq!(headers[2].1, "POST, OPTIONS");
    assert_eq!(headers[3].1, "Content-Type, Authorization");
}

#[test]
fn error_messages() {
    assert_eq!(ErrorKind::PayloadTooLarge.message(), "image exceeds the maximum allowed size");
    assert_eq!(ErrorKind::FormatUnknown.message(), "could not detect the image format");
    assert_eq!(ErrorKind::InvalidBase64.message(), "invalid base64 image data");
    assert_eq!(ErrorKind::UnsupportedFormat.message(), "unsupported image format");
    assert_eq!(ErrorKind::InvalidParameter.message(), "invalid request parameter");
    assert_eq!(ErrorKind::InvalidDimensions.message(), "resize target has a zero dimension");
    assert_eq!(ErrorKind::EncodingFailure.message(), "error encoding the output image");
    let resp = ErrorResponse::from_kind(ErrorKind::PayloadTooLarge);
    assert_eq!(resp.error, "image exceeds the maximum allowed size");
}

#[test]
fn parse_u64_accepts_digits_only() {
    assert_eq!(parse_u64("0"), Some(0));
    assert_eq!(parse_u64("85"), Some(85));
    assert_eq!(parse_u64("18446744073709551615"), Some(u64::MAX));
    assert_eq!(parse_u64("18446744073709551616"), None);
    assert_eq!(parse_u64(""), None);
    assert_eq!(parse_u64("1a"), None);
    assert_eq!(parse_u64("-1"), None);
    assert_eq!(parse_u64("+1"), None);
}

#[test]
fn u64_to_string_prints_decimal() {
    assert_eq!(u64_to_string(0), "0");
    assert_eq!(u64_to_string(7), "7");
    assert_eq!(u64_to_string(12345), "12345");
    assert_eq!(u64_to_string(u64::MAX), "18446744073709551615");
}

#[test]
fn format_file_size_scales_units() {
    assert_eq!(format_file_size(0), "0 B");
    assert_eq!(format_file_size(1), "1.00 B");
    assert_eq!(format_file_size(1023), "1023.00 B");
    assert_eq!(format_file_size(1536), "1.50 KB");
    assert_eq!(format_file_size(52428800), "50.00 MB");
    assert_eq!(format_file_size(1073741824), "1.00 GB");
}

#[test]
fn format_file_size_rounds_to_nearest() {
    // 1535 / 1024 = 1.4990...: the two decimals round up to 1.50.
    assert_eq!(format_file_size(1535), "1.50 KB");
    // 1034 / 1024 = 1.00976...: rounds down to 1.01.
    assert_eq!(format_file_size(1034), "1.01 KB");
    // 1048571 / 1024 = 1023.9951...: the rounding carries into the
    // whole part.
    assert_eq!(format_file_size(1048571), "1024.00 KB");
}

#[test]
fn string_helpers() {
    assert!(str_eq("abc", "abc"));
    assert!(!str_eq("abc", "abd"));
    assert!(!str_eq("abc", "ab"));
    let v = vec!["x".to_string(), "y".to_string()];
    assert!(contains_str(&v, "y"));
    assert!(!contains_str(&v, "z"));
}
