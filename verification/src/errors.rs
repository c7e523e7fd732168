//! Error kinds of the pipeline. Every error is terminal for the request
//! that raised it and never fatal to the process.

use vstd::prelude::*;

verus! {

/// The closed set of pipeline failures.
#[derive(Clone, Copy, Debug, PartialEq, Eq, Structural)]
pub enum ErrorKind {
    /// The structured body's image data was not valid base64.
    InvalidBase64,
    /// No known magic-byte prefix matched (sniff failure).
    FormatUnknown,
    /// The bytes could not be decoded as any supported raster format.
    UnsupportedFormat,
    /// The raw byte length exceeded the configured ceiling.
    PayloadTooLarge,
    /// A malformed or out-of-range quality, boolean, dimension, mode or
    /// format token, or a resize request naming no dimension.
    InvalidParameter,
    /// The resolved resize target width or height was zero.
    InvalidDimensions,
    /// An encoder reported an error.
    EncodingFailure,
}

impl ErrorKind {
    /// A human-readable message for the transport layer to surface.
    pub fn message(&self) -> (r: &'static str)
        ensures
            r@ == spec_message(*self),
    {
        match self {
            ErrorKind::InvalidBase64 => "invalid base64 image data",
            ErrorKind::FormatUnknown => "could not detect the image format",
            ErrorKind::UnsupportedFormat => "unsupported image format",
            ErrorKind::PayloadTooLarge => "image exceeds the maximum allowed size",
            ErrorKind::InvalidParameter => "invalid request parameter",
            ErrorKind::InvalidDimensions => "resize target has a zero dimension",
            ErrorKind::EncodingFailure => "error encoding the output image",
        }
    }
}

/// The message each error kind carries.
pub open spec fn spec_message(e: ErrorKind) -> Seq<char> {
    match e {
        ErrorKind::InvalidBase64 => "invalid base64 image data"@,
        ErrorKind::FormatUnknown => "could not detect the image format"@,
        ErrorKind::UnsupportedFormat => "unsupported image format"@,
        ErrorKind::PayloadTooLarge => "image exceeds the maximum allowed size"@,
        ErrorKind::InvalidParameter => "invalid request parameter"@,
        ErrorKind::InvalidDimensions => "resize target has a zero dimension"@,
        ErrorKind::EncodingFailure => "error encoding the output image"@,
    }
}

/// An error payload as the transport serializes it.
pub struct ErrorResponse {
    pub error: String,
}

impl ErrorResponse {
    /// Wraps an error kind's message for the response body.
    pub fn from_kind(kind: ErrorKind) -> (r: ErrorResponse)
        ensures
            r.error@ == spec_message(kind),
    {
        ErrorResponse { error: kind.message().to_owned() }
    }
}

} // verus!
