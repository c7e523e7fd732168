//! The request normalizer: the three inbound shapes (structured JSON
//! body, raw binary body with query parameters, multipart form with query
//! parameters) each become one canonical pair of raw bytes and
//! `TransformOptions`. Token validation is verified; the JSON and
//! query-string decoding run behind trusted wrappers whose results are
//! named.

use vstd::prelude::*;
use vstd::string::StrSliceExecFns;
use vstd::string::StringSliceAdditionalSpecFns;
use crate::b64::b64_decode_of;
use crate::config::spec_opt_view;
use crate::errors::ErrorKind;
use crate::formats::FormatTag;
use crate::multipart::{multipart_file, spec_dashes, spec_mp_file};
use crate::pipeline::{decode_base64, TransformOptions};
use crate::resize::{ResizeMode, ResizeSpec};
use crate::strutil::{parse_u64, spec_parse_u64, str_eq};

verus! {

/// The four ways a request reaches the pipeline. Each has its own
/// defaults; this table is their one home.
#[derive(Clone, Copy, Debug, PartialEq, Eq, Structural)]
pub enum RequestShape {
    /// A JSON body that parsed as the structured record.
    Structured,
    /// A body that did not parse as the record and is taken as bare
    /// base64 under the maximum-compression fallback.
    StructuredFallback,
    /// A raw binary body with query parameters.
    Binary,
    /// A multipart form with query parameters.
    Multipart,
}

/// The quality assumed when a shape's request names none.
pub open spec fn spec_shape_default_quality(s: RequestShape) -> u8 {
    match s {
        RequestShape::Structured => 75,
        RequestShape::StructuredFallback => 60,
        RequestShape::Binary => 85,
        RequestShape::Multipart => 85,
    }
}

/// The defaults table, keyed by entry path.
pub fn shape_default_quality(s: RequestShape) -> (r: u8)
    ensures
        r == spec_shape_default_quality(s),
{
    match s {
        RequestShape::Structured => 75,
        RequestShape::StructuredFallback => 60,
        RequestShape::Binary => 85,
        RequestShape::Multipart => 85,
    }
}

/// The structured shape's default quality.
pub fn default_quality() -> (r: u8)
    ensures
        r == spec_shape_default_quality(RequestShape::Structured),
{
    shape_default_quality(RequestShape::Structured)
}

/// The format token assumed when a request names none.
pub fn default_format() -> (r: String)
    ensures
        r@ == "auto"@,
{
    "auto".to_owned()
}

/// What a format token means: `auto` asks for auto-resolution, the six
/// format names pick their format, anything else is rejected.
pub open spec fn spec_parse_format(s: Seq<char>) -> Option<Option<FormatTag>> {
    if s == "auto"@ {
        Some(None)
    } else if s == "jpeg"@ {
        Some(Some(FormatTag::Jpeg))
    } else if s == "png"@ {
        Some(Some(FormatTag::Png))
    } else if s == "webp"@ {
        Some(Some(FormatTag::Webp))
    } else if s == "gif"@ {
        Some(Some(FormatTag::Gif))
    } else if s == "bmp"@ {
        Some(Some(FormatTag::Bmp))
    } else if s == "tiff"@ {
        Some(Some(FormatTag::Tiff))
    } else {
        None
    }
}

/// Parses a format token against the closed format set.
pub fn parse_format_token(s: &str) -> (r: Option<Option<FormatTag>>)
    ensures
        r == spec_parse_format(s@),
{
    if str_eq(s, "auto") {
        Some(None)
    } else if str_eq(s, "jpeg") {
        Some(Some(FormatTag::Jpeg))
    } else if str_eq(s, "png") {
        Some(Some(FormatTag::Png))
    } else if str_eq(s, "webp") {
        Some(Some(FormatTag::Webp))
    } else if str_eq(s, "gif") {
        Some(Some(FormatTag::Gif))
    } else if str_eq(s, "bmp") {
        Some(Some(FormatTag::Bmp))
    } else if str_eq(s, "tiff") {
        Some(Some(FormatTag::Tiff))
    } else {
        None
    }
}

/// What a resize-mode token means.
pub open spec fn spec_parse_mode(s: Seq<char>) -> Option<ResizeMode> {
    if s == "fit"@ {
        Some(ResizeMode::Fit)
    } else if s == "fill"@ {
        Some(ResizeMode::Fill)
    } else if s == "force"@ {
        Some(ResizeMode::Force)
    } else {
        None
    }
}

/// Parses a resize-mode token.
pub fn parse_mode_token(s: &str) -> (r: Option<ResizeMode>)
    ensures
        r == spec_parse_mode(s@),
{
    if str_eq(s, "fit") {
        Some(ResizeMode::Fit)
    } else if str_eq(s, "fill") {
        Some(ResizeMode::Fill)
    } else if str_eq(s, "force") {
        Some(ResizeMode::Force)
    } else {
        None
    }
}

/// What a boolean token means: exactly `true` or `false`.
pub open spec fn spec_parse_bool(s: Seq<char>) -> Option<bool> {
    if s == "true"@ {
        Some(true)
    } else if s == "false"@ {
        Some(false)
    } else {
        None
    }
}

/// Parses a boolean token.
pub fn parse_bool_token(s: &str) -> (r: Option<bool>)
    ensures
        r == spec_parse_bool(s@),
{
    if str_eq(s, "true") {
        Some(true)
    } else if str_eq(s, "false") {
        Some(false)
    } else {
        None
    }
}

/// The value of the first pair whose key matches.
pub open spec fn spec_lookup(pairs: Seq<(Seq<char>, Seq<char>)>, key: Seq<char>) -> Option<
    Seq<char>,
>
    decreases pairs.len(),
{
    if pairs.len() == 0 {
        None
    } else if pairs[0].0 == key {
        Some(pairs[0].1)
    } else {
        spec_lookup(pairs.drop_first(), key)
    }
}

/// The view of a pair vector as a sequence of character-sequence pairs.
pub open spec fn spec_pairs_view(pairs: Seq<(String, String)>) -> Seq<(Seq<char>, Seq<char>)> {
    pairs.map_values(|p: (String, String)| (p.0@, p.1@))
}

/// Looks a key up among the decoded query pairs: the first match wins.
fn lookup_param(pairs: &Vec<(String, String)>, key: &str) -> (r: Option<String>)
    ensures
        match r {
            Some(v) => spec_lookup(spec_pairs_view(pairs@), key@) == Some(v@),
            None => spec_lookup(spec_pairs_view(pairs@), key@) is None,
        },
{
    let ghost m = spec_pairs_view(pairs@);
    proof {
        assert(m.skip(0) =~= m);
    }
    let mut i: usize = 0;
    while i < pairs.len()
        invariant
            m == spec_pairs_view(pairs@),
            i <= pairs@.len(),
            m.len() == pairs@.len(),
            spec_lookup(m, key@) == spec_lookup(m.skip(i as int), key@),
        decreases pairs@.len() - i,
    {
        proof {
            assert(m.skip(i as int)[0] == m[i as int]);
            assert(m.skip(i as int).drop_first() =~= m.skip(i as int + 1));
        }
        if str_eq(pairs[i].0.as_str(), key) {
            return Some(pairs[i].1.clone());
        }
        i = i + 1;
    }
    proof {
        assert(m.skip(i as int) =~= Seq::<(Seq<char>, Seq<char>)>::empty());
    }
    None
}

/// What decoding a query string yields: its key/value pairs in order,
/// percent-decoded.
pub uninterp spec fn form_pairs_of(q: Seq<char>) -> Seq<(Seq<char>, Seq<char>)>;

/// Relies on url::form_urlencoded::parse: splits the query string on `&`
/// and `=` and percent-decodes keys and values; the pairs are a function
/// of the query string alone.
#[verifier::external_body]
fn parse_query_pairs(q: &str) -> (r: Vec<(String, String)>)
    ensures
        spec_pairs_view(r@) == form_pairs_of(q@),
{
    url::form_urlencoded::parse(q.as_bytes()).into_owned().collect()
}

/// The structured body's fields as the JSON held them, still unchecked.
struct RawStructured {
    image_data: String,
    quality: Option<u64>,
    format: Option<String>,
    progressive: Option<bool>,
    aggressive: Option<bool>,
}

/// What reading the structured record out of a body text yields: the
/// image data string and the optional quality, format, progressive and
/// aggressive fields, or nothing where the text is not such a record.
pub uninterp spec fn structured_of(s: Seq<char>) -> Option<
    (Seq<char>, Option<u64>, Option<Seq<char>>, Option<bool>, Option<bool>),
>;

/// Relies on serde_json::from_str and the Value accessors get, as_str,
/// as_u64 and as_bool: reads the structured record's fields when the body
/// is a JSON object of that shape; the outcome is a function of the body
/// text alone.
#[verifier::external_body]
fn parse_structured_json(body: &str) -> (r: Option<RawStructured>)
    ensures
        match r {
            Some(raw) => structured_of(body@) == Some(
                (raw.image_data@, raw.quality, spec_opt_view(raw.format), raw.progressive,
                raw.aggressive),
            ),
            None => structured_of(body@) is None,
        },
{
    let v: serde_json::Value = serde_json::from_str(body).ok()?;
    let image_data = v.get("image_data")?.as_str()?.to_string();
    let quality = match v.get("quality") { None => None, Some(x) => Some(x.as_u64()?) };
    let format = match v.get("format") { None => None, Some(x) => Some(x.as_str()?.to_string()) };
    let progressive = match v.get("progressive") { None => None, Some(x) => Some(x.as_bool()?) };
    let aggressive = match v.get("aggressive") { None => None, Some(x) => Some(x.as_bool()?) };
    Some(RawStructured { image_data, quality, format, progressive, aggressive })
}

/// The structured body shape: base64 image data with quality, format,
/// progressive and aggressive fields.
pub struct OptimizeRequest {
    pub image_data: String,
    pub quality: u8,
    pub format: String,
    pub progressive: bool,
    pub aggressive: bool,
}

/// The options a structured request resolves to: the quality must be in
/// range and the format token in the closed set.
pub open spec fn spec_request_options(quality: u8, format: Seq<char>, aggressive: bool) -> Result<
    TransformOptions,
    ErrorKind,
> {
    if quality < 1 || quality > 100 {
        Err(ErrorKind::InvalidParameter)
    } else {
        match spec_parse_format(format) {
            None => Err(ErrorKind::InvalidParameter),
            Some(of) => Ok(
                TransformOptions {
                    quality,
                    black_and_white: false,
                    border_radius: 0,
                    resize: None,
                    output_format: of,
                    aggressive,
                },
            ),
        }
    }
}

/// Validates a structured request's fields into transform options.
pub fn request_options(req: &OptimizeRequest) -> (r: Result<TransformOptions, ErrorKind>)
    ensures
        r == spec_request_options(req.quality, req.format@, req.aggressive),
        r matches Ok(o) ==> o.valid(),
{
    if req.quality < 1 || req.quality > 100 {
        return Err(ErrorKind::InvalidParameter);
    }
    match parse_format_token(req.format.as_str()) {
        None => Err(ErrorKind::InvalidParameter),
        Some(of) => Ok(
            TransformOptions {
                quality: req.quality,
                black_and_white: false,
                border_radius: 0,
                resize: None,
                output_format: of,
                aggressive: req.aggressive,
            },
        ),
    }
}

/// The base64 source and options a structured body resolves to, before
/// the base64 decode: a parsed record is validated (missing fields take
/// the structured defaults); an unparseable body is taken whole as base64
/// under the maximum-compression fallback.
pub open spec fn spec_structured_plan(
    parsed: Option<(Seq<char>, Option<u64>, Option<Seq<char>>, Option<bool>, Option<bool>)>,
    body: Seq<char>,
) -> Result<(Seq<char>, TransformOptions), ErrorKind> {
    match parsed {
        Some(t) => {
            let qv = match t.1 {
                Some(v) => v,
                None => spec_shape_default_quality(RequestShape::Structured) as u64,
            };
            if qv < 1 || qv > 100 {
                Err(ErrorKind::InvalidParameter)
            } else {
                match spec_parse_format(match t.2 {
                    Some(s) => s,
                    None => "auto"@,
                }) {
                    None => Err(ErrorKind::InvalidParameter),
                    Some(of) => Ok(
                        (
                            t.0,
                            TransformOptions {
                                quality: qv as u8,
                                black_and_white: false,
                                border_radius: 0,
                                resize: None,
                                output_format: of,
                                aggressive: match t.4 {
                                    Some(b) => b,
                                    None => false,
                                },
                            },
                        ),
                    ),
                }
            }
        },
        None => Ok(
            (
                body,
                TransformOptions {
                    quality: spec_shape_default_quality(RequestShape::StructuredFallback),
                    black_and_white: false,
                    border_radius: 0,
                    resize: None,
                    output_format: None,
                    aggressive: true,
                },
            ),
        ),
    }
}

/// Normalizes a structured body: parse the record (or fall back to bare
/// base64), validate, and decode the base64 image data.
pub fn normalize_structured(body: &str) -> (r: Result<(Vec<u8>, TransformOptions), ErrorKind>)
    ensures
        match spec_structured_plan(structured_of(body@), body@) {
            Err(e) => r == Err::<(Vec<u8>, TransformOptions), ErrorKind>(e),
            Ok(plan) => match b64_decode_of(plan.0) {
                None => r == Err::<(Vec<u8>, TransformOptions), ErrorKind>(
                    ErrorKind::InvalidBase64,
                ),
                Some(bs) => r matches Ok(p) && p.0@ == bs && p.1 == plan.1,
            },
        },
        r matches Ok(p) ==> p.1.valid(),
{
    match parse_structured_json(body) {
        Some(raw) => {
            let q64: u64 = match raw.quality {
                Some(v) => v,
                None => default_quality() as u64,
            };
            if q64 < 1 || q64 > 100 {
                return Err(ErrorKind::InvalidParameter);
            }
            let fmt_tok: String = match raw.format {
                Some(f) => f,
                None => default_format(),
            };
            let output_format = match parse_format_token(fmt_tok.as_str()) {
                None => {
                    return Err(ErrorKind::InvalidParameter);
                },
                Some(of) => of,
            };
            let aggressive: bool = match raw.aggressive {
                Some(b) => b,
                None => false,
            };
            let data = match decode_base64(raw.image_data.as_str()) {
                Ok(d) => d,
                Err(e) => {
                    return Err(e);
                },
            };
            Ok(
                (
                    data.bytes,
                    TransformOptions {
                        quality: q64 as u8,
                        black_and_white: false,
                        border_radius: 0,
                        resize: None,
                        output_format,
                        aggressive,
                    },
                ),
            )
        },
        None => {
            let data = match decode_base64(body) {
                Ok(d) => d,
                Err(e) => {
                    return Err(e);
                },
            };
            Ok(
                (
                    data.bytes,
                    TransformOptions {
                        quality: shape_default_quality(RequestShape::StructuredFallback),
                        black_and_white: false,
                        border_radius: 0,
                        resize: None,
                        output_format: None,
                        aggressive: true,
                    },
                ),
            )
        },
    }
}

/// A quality query parameter: absent takes the default; a present token
/// must be a decimal in 1 to 100.
pub open spec fn spec_query_quality(
    pairs: Seq<(Seq<char>, Seq<char>)>,
    key: Seq<char>,
    dflt: u8,
) -> Result<u8, ErrorKind> {
    match spec_lookup(pairs, key) {
        None => Ok(dflt),
        Some(t) => match spec_parse_u64(t) {
            Some(v) => if 1 <= v <= 100 {
                Ok(v as u8)
            } else {
                Err(ErrorKind::InvalidParameter)
            },
            None => Err(ErrorKind::InvalidParameter),
        },
    }
}

/// Reads and validates a quality query parameter.
fn query_quality(pairs: &Vec<(String, String)>, key: &str, dflt: u8) -> (r: Result<u8, ErrorKind>)
    ensures
        r == spec_query_quality(spec_pairs_view(pairs@), key@, dflt),
{
    match lookup_param(pairs, key) {
        None => Ok(dflt),
        Some(t) => match parse_u64(t.as_str()) {
            Some(v) => if 1 <= v && v <= 100 {
                Ok(v as u8)
            } else {
                Err(ErrorKind::InvalidParameter)
            },
            None => Err(ErrorKind::InvalidParameter),
        },
    }
}

/// A boolean query parameter: absent takes the default; a present token
/// must be `true` or `false`.
pub open spec fn spec_query_bool(
    pairs: Seq<(Seq<char>, Seq<char>)>,
    key: Seq<char>,
    dflt: bool,
) -> Result<bool, ErrorKind> {
    match spec_lookup(pairs, key) {
        None => Ok(dflt),
        Some(t) => match spec_parse_bool(t) {
            Some(b) => Ok(b),
            None => Err(ErrorKind::InvalidParameter),
        },
    }
}

/// Reads and validates a boolean query parameter.
fn query_bool(pairs: &Vec<(String, String)>, key: &str, dflt: bool) -> (r: Result<
    bool,
    ErrorKind,
>)
    ensures
        r == spec_query_bool(spec_pairs_view(pairs@), key@, dflt),
{
    match lookup_param(pairs, key) {
        None => Ok(dflt),
        Some(t) => match parse_bool_token(t.as_str()) {
            Some(b) => Ok(b),
            None => Err(ErrorKind::InvalidParameter),
        },
    }
}

/// An optional 32-bit query parameter: a present token must be a decimal
/// that fits `u32`.
pub open spec fn spec_query_u32(pairs: Seq<(Seq<char>, Seq<char>)>, key: Seq<char>) -> Result<
    Option<u32>,
    ErrorKind,
> {
    match spec_lookup(pairs, key) {
        None => Ok(None),
        Some(t) => match spec_parse_u64(t) {
            Some(v) => if v <= u32::MAX {
                Ok(Some(v as u32))
            } else {
                Err(ErrorKind::InvalidParameter)
            },
            None => Err(ErrorKind::InvalidParameter),
        },
    }
}

/// Reads and validates an optional 32-bit query parameter.
fn query_u32(pairs: &Vec<(String, String)>, key: &str) -> (r: Result<Option<u32>, ErrorKind>)
    ensures
        r == spec_query_u32(spec_pairs_view(pairs@), key@),
{
    match lookup_param(pairs, key) {
        None => Ok(None),
        Some(t) => match parse_u64(t.as_str()) {
            Some(v) => if v <= u32::MAX as u64 {
                Ok(Some(v as u32))
            } else {
                Err(ErrorKind::InvalidParameter)
            },
            None => Err(ErrorKind::InvalidParameter),
        },
    }
}

/// An optional format query parameter: a present token must be `auto` or
/// a name of the closed set.
pub open spec fn spec_query_format(pairs: Seq<(Seq<char>, Seq<char>)>, key: Seq<char>) -> Result<
    Option<FormatTag>,
    ErrorKind,
> {
    match spec_lookup(pairs, key) {
        None => Ok(None),
        Some(t) => match spec_parse_format(t) {
            Some(of) => Ok(of),
            None => Err(ErrorKind::InvalidParameter),
        },
    }
}

/// Reads and validates an optional format query parameter.
fn query_format(pairs: &Vec<(String, String)>, key: &str) -> (r: Result<
    Option<FormatTag>,
    ErrorKind,
>)
    ensures
        r == spec_query_format(spec_pairs_view(pairs@), key@),
{
    match lookup_param(pairs, key) {
        None => Ok(None),
        Some(t) => match parse_format_token(t.as_str()) {
            Some(of) => Ok(of),
            None => Err(ErrorKind::InvalidParameter),
        },
    }
}

/// The options a raw-binary request's query parameters resolve to.
pub open spec fn spec_binary_plan(pairs: Seq<(Seq<char>, Seq<char>)>) -> Result<
    TransformOptions,
    ErrorKind,
> {
    match spec_query_quality(pairs, "quality"@, spec_shape_default_quality(RequestShape::Binary)) {
        Err(e) => Err(e),
        Ok(q) => match spec_query_format(pairs, "format"@) {
            Err(e) => Err(e),
            Ok(f) => match spec_query_bool(pairs, "aggressive"@, false) {
                Err(e) => Err(e),
                Ok(agg) => Ok(
                    TransformOptions {
                        quality: q,
                        black_and_white: false,
                        border_radius: 0,
                        resize: None,
                        output_format: f,
                        aggressive: agg,
                    },
                ),
            },
        },
    }
}

/// Normalizes a raw-binary request: the body bytes are the image; the
/// query parameters carry quality, format and the aggressive flag. An
/// empty body is rejected.
pub fn normalize_binary(body: Vec<u8>, query: &str) -> (r: Result<
    (Vec<u8>, TransformOptions),
    ErrorKind,
>)
    ensures
        body@.len() == 0 ==> r == Err::<(Vec<u8>, TransformOptions), ErrorKind>(
            ErrorKind::InvalidParameter,
        ),
        body@.len() > 0 ==> match spec_binary_plan(form_pairs_of(query@)) {
            Err(e) => r == Err::<(Vec<u8>, TransformOptions), ErrorKind>(e),
            Ok(opts) => r matches Ok(p) && p.0@ == body@ && p.1 == opts,
        },
        r matches Ok(p) ==> p.1.valid(),
{
    if body.len() == 0 {
        return Err(ErrorKind::InvalidParameter);
    }
    let pairs = parse_query_pairs(query);
    let quality = match query_quality(&pairs, "quality", shape_default_quality(
        RequestShape::Binary,
    )) {
        Ok(q) => q,
        Err(e) => {
            return Err(e);
        },
    };
    let output_format = match query_format(&pairs, "format") {
        Ok(f) => f,
        Err(e) => {
            return Err(e);
        },
    };
    let aggressive = match query_bool(&pairs, "aggressive", false) {
        Ok(b) => b,
        Err(e) => {
            return Err(e);
        },
    };
    Ok(
        (
            body,
            TransformOptions {
                quality,
                black_and_white: false,
                border_radius: 0,
                resize: None,
                output_format,
                aggressive,
            },
        ),
    )
}

/// The options a multipart request's query parameters resolve to: `q`,
/// `bw`, `br`, `f`, and the resize trio `w`, `h`, `t`. A mode given
/// without a dimension is a resize without its required dimension.
pub open spec fn spec_multipart_plan(pairs: Seq<(Seq<char>, Seq<char>)>) -> Result<
    TransformOptions,
    ErrorKind,
> {
    match spec_query_quality(pairs, "q"@, spec_shape_default_quality(RequestShape::Multipart)) {
        Err(e) => Err(e),
        Ok(q) => match spec_query_bool(pairs, "bw"@, false) {
            Err(e) => Err(e),
            Ok(bw) => match spec_query_u32(pairs, "br"@) {
                Err(e) => Err(e),
                Ok(br) => match spec_query_format(pairs, "f"@) {
                    Err(e) => Err(e),
                    Ok(f) => match spec_query_u32(pairs, "w"@) {
                        Err(e) => Err(e),
                        Ok(w) => match spec_query_u32(pairs, "h"@) {
                            Err(e) => Err(e),
                            Ok(h) => match spec_lookup(pairs, "t"@) {
                                Some(t) => match spec_parse_mode(t) {
                                    None => Err(ErrorKind::InvalidParameter),
                                    Some(m) => if w is Some || h is Some {
                                        Ok(spec_mp_options(q, bw, br, f, Some(
                                            ResizeSpec { width: w, height: h, mode: m },
                                        )))
                                    } else {
                                        Err(ErrorKind::InvalidParameter)
                                    },
                                },
                                None => if w is Some || h is Some {
                                    Ok(spec_mp_options(q, bw, br, f, Some(
                                        ResizeSpec { width: w, height: h, mode: ResizeMode::Fit },
                                    )))
                                } else {
                                    Ok(spec_mp_options(q, bw, br, f, None))
                                },
                            },
                        },
                    },
                },
            },
        },
    }
}

/// Assembles multipart options; the border radius falls back to none.
pub open spec fn spec_mp_options(
    q: u8,
    bw: bool,
    br: Option<u32>,
    f: Option<FormatTag>,
    resize: Option<ResizeSpec>,
) -> TransformOptions {
    TransformOptions {
        quality: q,
        black_and_white: bw,
        border_radius: match br {
            Some(v) => v,
            None => 0,
        },
        resize,
        output_format: f,
        aggressive: false,
    }
}

/// Normalizes a multipart request: the transform parameters come from the
/// query string (validated strictly, before the body is touched) and the
/// image bytes from the form field named `file`.
pub fn normalize_multipart(body: &Vec<u8>, boundary: &str, query: &str) -> (r: Result<
    (Vec<u8>, TransformOptions),
    ErrorKind,
>)
    ensures
        boundary.spec_bytes().len() == 0 ==> r == Err::<(Vec<u8>, TransformOptions), ErrorKind>(
            ErrorKind::InvalidParameter,
        ),
        boundary.spec_bytes().len() >= 1 ==> match spec_multipart_plan(form_pairs_of(query@)) {
            Err(e) => r == Err::<(Vec<u8>, TransformOptions), ErrorKind>(e),
            Ok(opts) => match spec_mp_file(body@, spec_dashes() + boundary.spec_bytes(), 0) {
                None => r == Err::<(Vec<u8>, TransformOptions), ErrorKind>(
                    ErrorKind::InvalidParameter,
                ),
                Some(range) => r matches Ok(p) && p.0@ == body@.subrange(range.0, range.1) && p.1
                    == opts,
            },
        },
        r matches Ok(p) ==> p.1.valid(),
{
    let bnd = boundary.as_bytes_vec();
    if bnd.len() == 0 {
        return Err(ErrorKind::InvalidParameter);
    }
    let pairs = parse_query_pairs(query);
    let quality = match query_quality(&pairs, "q", shape_default_quality(RequestShape::Multipart))
        {
        Ok(q) => q,
        Err(e) => {
            return Err(e);
        },
    };
    let black_and_white = match query_bool(&pairs, "bw", false) {
        Ok(b) => b,
        Err(e) => {
            return Err(e);
        },
    };
    let border_radius = match query_u32(&pairs, "br") {
        Ok(Some(v)) => v,
        Ok(None) => 0,
        Err(e) => {
            return Err(e);
        },
    };
    let output_format = match query_format(&pairs, "f") {
        Ok(f) => f,
        Err(e) => {
            return Err(e);
        },
    };
    let w = match query_u32(&pairs, "w") {
        Ok(v) => v,
        Err(e) => {
            return Err(e);
        },
    };
    let h = match query_u32(&pairs, "h") {
        Ok(v) => v,
        Err(e) => {
            return Err(e);
        },
    };
    let resize: Option<ResizeSpec> = match lookup_param(&pairs, "t") {
        Some(t) => match parse_mode_token(t.as_str()) {
            None => {
                return Err(ErrorKind::InvalidParameter);
            },
            Some(m) => if w.is_some() || h.is_some() {
                Some(ResizeSpec { width: w, height: h, mode: m })
            } else {
                return Err(ErrorKind::InvalidParameter);
            },
        },
        None => if w.is_some() || h.is_some() {
            Some(ResizeSpec { width: w, height: h, mode: ResizeMode::Fit })
        } else {
            None
        },
    };
    let bytes = match multipart_file(body, &bnd) {
        Some(v) => v,
        None => {
            return Err(ErrorKind::InvalidParameter);
        },
    };
    Ok(
        (
            bytes,
            TransformOptions {
                quality,
                black_and_white,
                border_radius,
                resize,
                output_format,
                aggressive: false,
            },
        ),
    )
}

} // verus!
