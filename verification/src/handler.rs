//! The transport-facing decisions: routing by method and path, the CORS
//! origin rule, the response headers, and the status code an outcome
//! maps to. The I/O itself (reading bodies, writing responses) belongs to
//! the transport layer around the library.

use vstd::prelude::*;
use crate::config::{AppConfig, CorsConfig};
use crate::strutil::{contains_str, str_eq};

verus! {

/// Where a request is routed.
#[derive(Clone, Copy, Debug, PartialEq, Eq, Structural)]
pub enum Route {
    /// An OPTIONS request: answered with the CORS headers alone.
    Preflight,
    /// POST /optimize: the structured (JSON) shape.
    Optimize,
    /// POST /optimize-binary: the raw-binary shape.
    OptimizeBinary,
    /// Anything else.
    NotFound,
}

/// The route of a method and path.
pub open spec fn spec_route(method: Seq<char>, path: Seq<char>) -> Route {
    if method == "OPTIONS"@ {
        Route::Preflight
    } else if method == "POST"@ && path == "/optimize"@ {
        Route::Optimize
    } else if method == "POST"@ && path == "/optimize-binary"@ {
        Route::OptimizeBinary
    } else {
        Route::NotFound
    }
}

/// Routes a request by its method and path.
pub fn route_request(method: &str, path: &str) -> (r: Route)
    ensures
        r == spec_route(method@, path@),
{
    if str_eq(method, "OPTIONS") {
        Route::Preflight
    } else if str_eq(method, "POST") && str_eq(path, "/optimize") {
        Route::Optimize
    } else if str_eq(method, "POST") && str_eq(path, "/optimize-binary") {
        Route::OptimizeBinary
    } else {
        Route::NotFound
    }
}

/// The protocol status of an outcome: success is 200, a pipeline error
/// 400, an unmatched route 404.
pub open spec fn spec_status(route: Route, ok: bool) -> u16 {
    if route == Route::NotFound {
        404
    } else if ok {
        200
    } else {
        400
    }
}

/// Maps an outcome to its status code.
pub fn response_status(route: Route, ok: bool) -> (r: u16)
    ensures
        r == spec_status(route, ok),
{
    if route == Route::NotFound {
        404
    } else if ok {
        200
    } else {
        400
    }
}

/// The origin value a response carries: `*` when every origin is allowed,
/// the request's own origin when it is allow-listed, `null` otherwise.
pub open spec fn spec_allowed_origin(allowed: Seq<String>, origin: Option<Seq<char>>) -> Seq<
    char,
> {
    let any = exists|i: int| 0 <= i < allowed.len() && #[trigger] allowed[i]@ == "*"@;
    match origin {
        Some(o) => if any {
            "*"@
        } else if exists|i: int| 0 <= i < allowed.len() && #[trigger] allowed[i]@ == o {
            o
        } else {
            "null"@
        },
        None => if any {
            "*"@
        } else {
            "null"@
        },
    }
}

/// The handler around the pipeline: it owns the CORS policy.
pub struct ImageHandler {
    pub cors_config: CorsConfig,
}

impl ImageHandler {
    /// A handler with the configuration's CORS policy.
    pub fn new(config: &AppConfig) -> (r: Self)
        ensures
            r.cors_config.allowed_origins@ == config.cors.allowed_origins@,
    {
        let mut allowed: Vec<String> = Vec::new();
        let mut i: usize = 0;
        while i < config.cors.allowed_origins.len()
            invariant
                i <= config.cors.allowed_origins@.len(),
                allowed@.len() == i,
                forall|j: int|
                    0 <= j < i ==> allowed@[j] == #[trigger] config.cors.allowed_origins@[j],
            decreases config.cors.allowed_origins@.len() - i,
        {
            allowed.push(config.cors.allowed_origins[i].clone());
            i = i + 1;
        }
        proof {
            assert(allowed@ =~= config.cors.allowed_origins@);
        }
        ImageHandler { cors_config: CorsConfig { allowed_origins: allowed } }
    }

    /// Applies the CORS origin rule to a request's origin header.
    pub fn get_allowed_origin(&self, origin: Option<&str>) -> (r: String)
        ensures
            r@ == spec_allowed_origin(self.cors_config.allowed_origins@, match origin {
                Some(o) => Some(o@),
                None => None,
            }),
    {
        let any = contains_str(&self.cors_config.allowed_origins, "*");
        match origin {
            Some(origin_value) => {
                if any {
                    "*".to_owned()
                } else if contains_str(&self.cors_config.allowed_origins, origin_value) {
                    origin_value.to_owned()
                } else {
                    "null".to_owned()
                }
            },
            None => {
                if any {
                    "*".to_owned()
                } else {
                    "null".to_owned()
                }
            },
        }
    }

    /// The CORS headers of every response, with the origin resolved by
    /// the origin rule.
    pub fn get_cors_headers(&self, origin: Option<&str>) -> (r: Vec<(String, String)>)
        ensures
            r@.len() == 4,
            r@[0].0@ == "Content-Type"@ && r@[0].1@ == "application/json"@,
            r@[1].0@ == "Access-Control-Allow-Origin"@ && r@[1].1@ == spec_allowed_origin(
                self.cors_config.allowed_origins@,
                match origin {
                    Some(o) => Some(o@),
                    None => None,
                },
            ),
            r@[2].0@ == "Access-Control-Allow-Methods"@ && r@[2].1@ == "POST, OPTIONS"@,
            r@[3].0@ == "Access-Control-Allow-Headers"@ && r@[3].1@
                == "Content-Type, Authorization"@,
    {
        let allowed_origin = self.get_allowed_origin(origin);
        let mut headers: Vec<(String, String)> = Vec::new();
        headers.push(("Content-Type".to_owned(), "application/json".to_owned()));
        headers.push(("Access-Control-Allow-Origin".to_owned(), allowed_origin));
        headers.push(("Access-Control-Allow-Methods".to_owned(), "POST, OPTIONS".to_owned()));
        headers.push((
            "Access-Control-Allow-Headers".to_owned(),
            "Content-Type, Authorization".to_owned(),
        ));
        headers
    }
}

} // verus!
