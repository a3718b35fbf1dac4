//! Which cross-origin headers a response gets.
use crate::paths::same_text;
use crate::tools::texts;
use vstd::prelude::*;

verus! {

/// The headers that open a response to another origin.
pub struct CorsHeaders {
    pub origin: String,
    pub methods: String,
    pub headers: String,
    pub max_age: String,
}

/// The headers as texts: origin, methods, allowed headers.
pub open spec fn headers_view(h: CorsHeaders) -> (Seq<char>, Seq<char>, Seq<char>) {
    (h.origin@, h.methods@, h.headers@)
}

/// What to do to one response.
pub struct CorsDecision {
    /// Headers to set, if any.
    pub headers: Option<CorsHeaders>,
    /// Turn a not-found answer to a pre-flight request into "no content".
    pub no_content: bool,
    /// The request came from an origin that is not allowed, which is logged.
    pub rejected_origin: bool,
}

/// The headers allowed when the request names none.
pub open spec fn default_request_headers() -> Seq<char> {
    "Content-Type, Authorization"@
}

/// Paths whose answers only allowed origins may read.
pub open spec fn is_restricted_path(path: Seq<char>) -> bool {
    path == "/convert"@ || path == "/compile"@ || path == "/artifact"@
}

/// The origins that are always allowed.
pub open spec fn known_origins() -> Seq<Seq<char>> {
    seq!["https://lovebrew.github.io"@, "https://bundle.lovebrew.org"@]
}

/// The origin a development build also allows.
pub open spec fn development_origin() -> Seq<char> {
    "http://localhost:3000"@
}

/// The headers a response gets (origin, methods, allowed headers), if any,
/// and whether a rejected origin is reported.
pub open spec fn cors_headers_for(
    allowed: Seq<Seq<char>>,
    path: Seq<char>,
    origin: Option<Seq<char>>,
    requested: Seq<char>,
    is_options: bool,
) -> Option<(Seq<char>, Seq<char>, Seq<char>)> {
    if path == "/health"@ {
        Some(("*"@, "GET, OPTIONS"@, requested))
    } else {
        let opened = if is_restricted_path(path) {
            match origin {
                Some(o) => if allowed.contains(o) {
                    Some((o, "POST, OPTIONS"@, requested))
                } else {
                    None
                },
                None => None,
            }
        } else {
            None
        };
        if opened is None && is_options {
            Some(("*"@, "OPTIONS"@, requested))
        } else {
            opened
        }
    }
}

/// The cross-origin policy: a fixed list of allowed origins.
pub struct Cors {
    allowed_origins: Vec<String>,
}

impl View for Cors {
    type V = Seq<Seq<char>>;

    closed spec fn view(&self) -> Seq<Seq<char>> {
        texts(self.allowed_origins@)
    }
}

/// The three headers plus the fixed max-age.
fn set_cors_headers(origin: &str, methods: &str, headers: &str) -> (r: CorsHeaders)
    ensures
        headers_view(r) == (origin@, methods@, headers@),
        r.max_age@ == "86400"@,
{
    CorsHeaders {
        origin: String::from_str(origin),
        methods: String::from_str(methods),
        headers: String::from_str(headers),
        max_age: String::from_str("86400"),
    }
}

impl Cors {
    /// The policy of a deployment; a development build also allows the
    /// local front end.
    pub fn new(development: bool) -> (r: Cors)
        ensures
            r@ == if development {
                known_origins().push(development_origin())
            } else {
                known_origins()
            },
    {
        let mut allowed_origins: Vec<String> = Vec::new();
        allowed_origins.push(String::from_str("https://lovebrew.github.io"));
        allowed_origins.push(String::from_str("https://bundle.lovebrew.org"));
        if development {
            allowed_origins.push(String::from_str("http://localhost:3000"));
        }
        let r = Cors { allowed_origins };
        assert(r@ =~= if development {
            known_origins().push(development_origin())
        } else {
            known_origins()
        });
        r
    }

    /// Whether `origin` may read restricted answers.
    pub fn is_allowed(&self, origin: &str) -> (r: bool)
        ensures
            r == self@.contains(origin@),
    {
        let mut i: usize = 0;
        while i < self.allowed_origins.len()
            invariant
                forall|j: int| 0 <= j < i ==> self.allowed_origins@[j]@ != origin@,
            decreases self.allowed_origins.len() - i,
        {
            if same_text(self.allowed_origins[i].as_str(), origin) {
                assert(self@[i as int] == origin@);
                return true;
            }
            i = i + 1;
        }
        proof {
            if self@.contains(origin@) {
                let j = choose|j: int| 0 <= j < self@.len() && self@[j] == origin@;
                assert(self.allowed_origins@[j]@ == origin@);
            }
        }
        false
    }

    /// Decides the cross-origin headers of one response. The health probe
    /// is open to all; restricted paths are opened to allowed origins only;
    /// a pre-flight request that nothing else opened is answered openly,
    /// and a not-found pre-flight becomes "no content".
    pub fn on_response(
        &self,
        path: &str,
        origin: Option<&str>,
        request_headers: Option<&str>,
        is_options: bool,
        is_not_found: bool,
    ) -> (r: CorsDecision)
        ensures
            ({
                let requested = match request_headers {
                    Some(h) => h@,
                    None => default_request_headers(),
                };
                let o = match origin {
                    Some(s) => Some(s@),
                    None => None,
                };
                &&& match r.headers {
                    Some(h) => cors_headers_for(self@, path@, o, requested, is_options) == Some(headers_view(h)),
                    None => cors_headers_for(self@, path@, o, requested, is_options) is None,
                }
                &&& r.headers matches Some(h) ==> h.max_age@ == "86400"@
                &&& r.no_content == (path@ != "/health"@ && is_options && is_not_found)
                &&& r.rejected_origin == (path@ != "/health"@ && is_restricted_path(path@) && o is Some
                    && !self@.contains(o->0))
            }),
    {
        let requested = match request_headers {
            Some(h) => h,
            None => "Content-Type, Authorization",
        };
        if same_text(path, "/health") {
            return CorsDecision {
                headers: Some(set_cors_headers("*", "GET, OPTIONS", requested)),
                no_content: false,
                rejected_origin: false,
            };
        }
        let restricted = same_text(path, "/convert") || same_text(path, "/compile") || same_text(
            path,
            "/artifact",
        );
        let mut headers: Option<CorsHeaders> = None;
        let mut rejected_origin = false;
        if restricted {
            if let Some(o) = origin {
                if self.is_allowed(o) {
                    headers = Some(set_cors_headers(o, "POST, OPTIONS", requested));
                } else {
                    rejected_origin = true;
                }
            }
        }
        let mut no_content = false;
        if is_options {
            if is_not_found {
                no_content = true;
            }
            if headers.is_none() {
                headers = Some(set_cors_headers("*", "OPTIONS", requested));
            }
        }
        CorsDecision { headers, no_content, rejected_origin }
    }
}

} // verus!
