//! Image transform and optimization pipeline.
//!
//! Raw image bytes are sniffed for their format, decoded to a raster,
//! transformed (resize, grayscale, rounded-corner masking), and re-encoded
//! into a target format under a quality policy. Three inbound request
//! shapes are normalized into one canonical transform request.

pub mod b64;
pub mod config;
pub mod errors;
pub mod formats;
pub mod handler;
pub mod laws;
pub mod multipart;
pub mod normalize;
pub mod strutil;
pub mod encode;
pub mod pipeline;
pub mod raster;
pub mod resize;
pub mod scan;
