//! Configuration values, exposed to the pipeline as plain values. Reading
//! them from the environment is the transport layer's job; building a
//! configuration from optional raw strings is verified here.

use vstd::prelude::*;
use crate::strutil::{parse_u64, spec_parse_u64, u64_to_string, spec_dec_digits};

verus! {

/// Where the local server binds.
pub struct ServerConfig {
    pub host: String,
    pub port: u16,
    pub timeout_seconds: u64,
}

/// The pipeline's resource policy.
pub struct CompressionConfig {
    /// Ceiling on the raw byte length of an inbound image.
    pub max_image_size: usize,
    /// Quality assumed when a request names none.
    pub default_quality: u8,
    /// Ceiling on the effective JPEG/WEBP quality under aggressive mode.
    pub aggressive_quality: u8,
    /// Time budget of the PNG optimizer, in seconds.
    pub timeout_seconds: u64,
}

impl CompressionConfig {
    /// Both quality settings are themselves valid qualities.
    pub open spec fn valid(&self) -> bool {
        1 <= self.default_quality <= 100 && 1 <= self.aggressive_quality <= 100
    }
}

/// Which origins the transport may answer for.
pub struct CorsConfig {
    pub allowed_origins: Vec<String>,
}

/// The whole configuration.
pub struct AppConfig {
    pub server: ServerConfig,
    pub compression: CompressionConfig,
    pub cors: CorsConfig,
}

/// A raw decimal setting, or the default where it is absent or does not
/// parse.
pub open spec fn spec_setting_u64(raw: Option<Seq<char>>, dflt: u64) -> u64 {
    match raw {
        Some(s) => match spec_parse_u64(s) {
            Some(v) => v,
            None => dflt,
        },
        None => dflt,
    }
}

/// Parses an optional decimal setting, falling back to the default.
pub fn setting_u64(raw: Option<&str>, dflt: u64) -> (r: u64)
    ensures
        r == spec_setting_u64(match raw {
            Some(s) => Some(s@),
            None => None,
        }, dflt),
{
    match raw {
        Some(s) => match parse_u64(s) {
            Some(v) => v,
            None => dflt,
        },
        None => dflt,
    }
}

impl AppConfig {
    /// Builds the configuration from raw environment values: each absent
    /// or unparseable setting falls back to its default (host "0.0.0.0",
    /// port 8080, server timeout 30 s, maximum image size 50 MiB, default
    /// quality 75, aggressive ceiling 60, optimizer timeout 10 s); a
    /// parsed value out of its field's range falls back too.
    pub fn from_values(
        host: Option<String>,
        port: Option<String>,
        server_timeout: Option<String>,
        max_image_size: Option<String>,
        default_quality: Option<String>,
        aggressive_quality: Option<String>,
        compression_timeout: Option<String>,
        allowed_origins: Vec<String>,
    ) -> (r: AppConfig)
        ensures
            r.server.host@ == (match host {
                Some(h) => h@,
                None => "0.0.0.0"@,
            }),
            r.server.port == clamp_u16(spec_setting_u64(spec_opt_view(port), 8080), 8080),
            r.server.timeout_seconds == spec_setting_u64(spec_opt_view(server_timeout), 30),
            r.compression.max_image_size == clamp_usize(spec_setting_u64(spec_opt_view(
                max_image_size), 52428800), 52428800),
            r.compression.default_quality == clamp_quality(spec_setting_u64(spec_opt_view(
                default_quality), 75), 75),
            r.compression.aggressive_quality == clamp_quality(spec_setting_u64(spec_opt_view(
                aggressive_quality), 60), 60),
            r.compression.valid(),
            r.compression.timeout_seconds == spec_setting_u64(spec_opt_view(compression_timeout),
                10),
            r.cors.allowed_origins == allowed_origins,
    {
        let host_v: String = match host {
            Some(h) => h,
            None => "0.0.0.0".to_owned(),
        };
        let port_v = setting_u64(as_deref(&port), 8080);
        let port16: u16 = if port_v <= u16::MAX as u64 {
            port_v as u16
        } else {
            8080
        };
        let max_v = setting_u64(as_deref(&max_image_size), 52428800);
        let maxu: usize = if max_v <= usize::MAX as u64 {
            max_v as usize
        } else {
            52428800
        };
        let dq_v = setting_u64(as_deref(&default_quality), 75);
        let dq: u8 = if 1 <= dq_v && dq_v <= 100 {
            dq_v as u8
        } else {
            75
        };
        let aq_v = setting_u64(as_deref(&aggressive_quality), 60);
        let aq: u8 = if 1 <= aq_v && aq_v <= 100 {
            aq_v as u8
        } else {
            60
        };
        AppConfig {
            server: ServerConfig {
                host: host_v,
                port: port16,
                timeout_seconds: setting_u64(as_deref(&server_timeout), 30),
            },
            compression: CompressionConfig {
                max_image_size: maxu,
                default_quality: dq,
                aggressive_quality: aq,
                timeout_seconds: setting_u64(as_deref(&compression_timeout), 10),
            },
            cors: CorsConfig { allowed_origins },
        }
    }

    /// The `host:port` address the server binds, the port in decimal.
    pub fn server_address(&self) -> (r: String)
        ensures
            r@ == self.server.host@ + ":"@ + spec_dec_digits(self.server.port as int),
    {
        let mut out: String = self.server.host.clone();
        out.append(":");
        let digits = u64_to_string(self.server.port as u64);
        out.append(digits.as_str());
        out
    }
}

/// The view of an optional string.
pub open spec fn spec_opt_view(s: Option<String>) -> Option<Seq<char>> {
    match s {
        Some(v) => Some(v@),
        None => None,
    }
}

/// A value that fits `u16`, or the default.
pub open spec fn clamp_u16(v: u64, dflt: u64) -> u16 {
    if v <= u16::MAX {
        v as u16
    } else {
        dflt as u16
    }
}

/// A quality value in range, or the default.
pub open spec fn clamp_quality(v: u64, dflt: u8) -> u8 {
    if 1 <= v <= 100 {
        v as u8
    } else {
        dflt
    }
}

/// A value that fits `usize`, or the default.
pub open spec fn clamp_usize(v: u64, dflt: u64) -> usize {
    if v <= usize::MAX {
        v as usize
    } else {
        dflt as usize
    }
}

/// Borrows an optional owned string as an optional slice.
fn as_deref(s: &Option<String>) -> (r: Option<&str>)
    ensures
        r matches Some(v) ==> s matches Some(o) && v@ == o@,
        r is None <==> s is None,
{
    match s {
        Some(v) => Some(v.as_str()),
        None => None,
    }
}

} // verus!
