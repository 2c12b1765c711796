//! Routing table and the API-key gate.
use crate::text::text_eq;
use vstd::prelude::*;

verus! {

/// Request methods that the routing table distinguishes.
#[derive(Clone, Copy, Debug, PartialEq, Eq, Structural)]
pub enum HttpMethod {
    Get,
    Post,
    Other,
}

/// The operations that the gateway serves.
#[derive(Clone, Copy, Debug, PartialEq, Eq, Structural)]
pub enum Endpoint {
    StartSession,
    ReplySession,
    SummarizeSession,
    EndSession,
    ListExtensions,
    AddExtension,
    RemoveExtension,
    ProviderConfig,
    Metrics,
}

/// Why a request was refused before reaching a handler.
#[derive(Clone, Copy, Debug, PartialEq, Eq, Structural)]
pub enum Rejection {
    /// No route serves this method and path.
    NotFound,
    /// The route is gated and the `x-api-key` header is absent or differs
    /// from the shared secret.
    Unauthorized,
}

/// The endpoint that serves `method` on `path`, if any.
pub open spec fn route_of(method: HttpMethod, path: Seq<char>) -> Option<Endpoint> {
    if method == HttpMethod::Post && path == "/session/start"@ {
        Some(Endpoint::StartSession)
    } else if method == HttpMethod::Post && path == "/session/reply"@ {
        Some(Endpoint::ReplySession)
    } else if method == HttpMethod::Post && path == "/session/summarize"@ {
        Some(Endpoint::SummarizeSession)
    } else if method == HttpMethod::Post && path == "/session/end"@ {
        Some(Endpoint::EndSession)
    } else if method == HttpMethod::Get && path == "/extensions/list"@ {
        Some(Endpoint::ListExtensions)
    } else if method == HttpMethod::Post && path == "/extensions/add"@ {
        Some(Endpoint::AddExtension)
    } else if method == HttpMethod::Post && path == "/extensions/remove"@ {
        Some(Endpoint::RemoveExtension)
    } else if method == HttpMethod::Get && path == "/provider/config"@ {
        Some(Endpoint::ProviderConfig)
    } else if method == HttpMethod::Get && path == "/metrics"@ {
        Some(Endpoint::Metrics)
    } else {
        None
    }
}

/// Whether `e` sits behind the API-key gate.
pub open spec fn gated(e: Endpoint) -> bool {
    match e {
        Endpoint::ListExtensions | Endpoint::ProviderConfig | Endpoint::Metrics => false,
        _ => true,
    }
}

/// The header carries exactly the shared secret.
pub open spec fn key_accepted(header: Option<Seq<char>>, api_key: Seq<char>) -> bool {
    header == Some(api_key)
}

/// View of an optional header value.
pub open spec fn header_view(header: Option<&str>) -> Option<Seq<char>> {
    match header {
        Some(h) => Some(h@),
        None => None,
    }
}

impl Endpoint {
    /// Whether this endpoint sits behind the API-key gate.
    pub fn requires_api_key(&self) -> (r: bool)
        ensures
            r == gated(*self),
    {
        match self {
            Endpoint::ListExtensions | Endpoint::ProviderConfig | Endpoint::Metrics => false,
            _ => true,
        }
    }
}

/// Resolves the endpoint that serves `method` on `path`.
pub fn resolve_route(method: HttpMethod, path: &str) -> (r: Option<Endpoint>)
    ensures
        r == route_of(method, path@),
{
    match method {
        HttpMethod::Post => {
            if text_eq(path, "/session/start") {
                Some(Endpoint::StartSession)
            } else if text_eq(path, "/session/reply") {
                Some(Endpoint::ReplySession)
            } else if text_eq(path, "/session/summarize") {
                Some(Endpoint::SummarizeSession)
            } else if text_eq(path, "/session/end") {
                Some(Endpoint::EndSession)
            } else if text_eq(path, "/extensions/add") {
                Some(Endpoint::AddExtension)
            } else if text_eq(path, "/extensions/remove") {
                Some(Endpoint::RemoveExtension)
            } else {
                None
            }
        },
        HttpMethod::Get => {
            if text_eq(path, "/extensions/list") {
                Some(Endpoint::ListExtensions)
            } else if text_eq(path, "/provider/config") {
                Some(Endpoint::ProviderConfig)
            } else if text_eq(path, "/metrics") {
                Some(Endpoint::Metrics)
            } else {
                None
            }
        },
        HttpMethod::Other => None,
    }
}

/// The API-key gate: lets a request through, carrying the key, exactly when its
/// `x-api-key` header equals the shared secret character for character.
pub fn with_api_key(api_key: &String, header: Option<&str>) -> (r: Result<String, Rejection>)
    ensures
        key_accepted(header_view(header), api_key@) ==> (r matches Ok(k) && k@ == api_key@),
        !key_accepted(header_view(header), api_key@) ==> r == Err::<String, Rejection>(
            Rejection::Unauthorized,
        ),
{
    match header {
        Some(h) => {
            if text_eq(h, api_key.as_str()) {
                Ok(api_key.clone())
            } else {
                Err(Rejection::Unauthorized)
            }
        },
        None => Err(Rejection::Unauthorized),
    }
}

/// The assembled routing table, holding the shared secret that gated routes ask for.
pub struct Routes {
    pub api_key: String,
}

/// What the routing table does with a request: the endpoint that serves it, or
/// why it is refused.
pub open spec fn dispatch_spec(
    api_key: Seq<char>,
    method: HttpMethod,
    path: Seq<char>,
    header: Option<Seq<char>>,
) -> Result<Endpoint, Rejection> {
    match route_of(method, path) {
        None => Err(Rejection::NotFound),
        Some(e) => if gated(e) && !key_accepted(header, api_key) {
            Err(Rejection::Unauthorized)
        } else {
            Ok(e)
        },
    }
}

/// Assembles the routing table around the shared secret. Assembly cannot fail.
pub fn build_routes(api_key: String) -> (r: Routes)
    ensures
        r.api_key@ == api_key@,
{
    Routes { api_key }
}

impl Routes {
    /// Routes a request: the endpoint for its method and path, once the API key
    /// has been checked where the endpoint is gated.
    pub fn dispatch(&self, method: HttpMethod, path: &str, header: Option<&str>) -> (r: Result<
        Endpoint,
        Rejection,
    >)
        ensures
            r == dispatch_spec(self.api_key@, method, path@, header_view(header)),
    {
        match resolve_route(method, path) {
            None => Err(Rejection::NotFound),
            Some(e) => {
                if e.requires_api_key() {
                    match with_api_key(&self.api_key, header) {
                        Ok(_) => Ok(e),
                        Err(rej) => Err(rej),
                    }
                } else {
                    Ok(e)
                }
            },
        }
    }
}

/// On a gated route, a request is forwarded to its endpoint exactly when its
/// `x-api-key` header holds the configured secret; with a different or absent
/// header it is refused as unauthorized.
pub proof fn lemma_gate_forwards_only_the_secret(
    api_key: Seq<char>,
    method: HttpMethod,
    path: Seq<char>,
    header: Option<Seq<char>>,
)
    requires
        route_of(method, path) matches Some(e) && gated(e),
    ensures
        header == Some(api_key) ==> dispatch_spec(api_key, method, path, header) == Ok::<
            Endpoint,
            Rejection,
        >(route_of(method, path)->0),
        header != Some(api_key) ==> dispatch_spec(api_key, method, path, header) == Err::<
            Endpoint,
            Rejection,
        >(Rejection::Unauthorized),
{
}

/// Status code and body text for a refused request.
pub fn handle_rejection(r: Rejection) -> (out: (u16, String))
    ensures
        r == Rejection::Unauthorized ==> out.0 == 401 && out.1@ == "UNAUTHORIZED"@,
        r == Rejection::NotFound ==> out.0 == 404 && out.1@ == "NOT_FOUND"@,
{
    match r {
        Rejection::Unauthorized => (401, String::from_str("UNAUTHORIZED")),
        Rejection::NotFound => (404, String::from_str("NOT_FOUND")),
    }
}

} // verus!
