//! The route-tagging filter: marks every request and response as having passed
//! the gateway and tells the upstream which route the path belongs to.
use vstd::prelude::*;

use crate::headers::{header, headers_view, or_empty, value_or_empty, Header};
use crate::metadata::opt_view;
use crate::policy::{route_name, route_of_path, Route};

verus! {

/// The tagging filter's root; every request context it creates is alike.
pub struct GatewayRoot;

/// The tagging filter's per-request context.
pub struct GatewayFilter;

impl GatewayRoot {
    /// A context for a new request.
    pub fn create_http_context(&self, context_id: u32) -> (filter: GatewayFilter) {
        GatewayFilter
    }
}

/// The headers that the tagging filter sets on a request with the given `:path`.
pub open spec fn tag_headers(path: Option<Seq<char>>) -> Seq<(Seq<char>, Seq<char>)> {
    seq![
        ("x-gateway-wasm"@, "active"@),
        ("x-gateway-route"@, route_name(route_of_path(or_empty(path)))),
    ]
}

impl GatewayFilter {
    /// The headers to set on a request whose `:path` is `path`; the request
    /// always goes on.
    pub fn on_http_request_headers(&self, path: Option<String>) -> (headers: Vec<Header>)
        ensures
            headers_view(headers@) == tag_headers(opt_view(path)),
    {
        let path_value = value_or_empty(path);
        let route = Route::from_path(path_value.as_str()).as_str();
        let mut headers: Vec<Header> = Vec::new();
        headers.push(header("x-gateway-wasm", "active"));
        headers.push(header("x-gateway-route", route));
        assert(headers_view(headers@) =~= tag_headers(opt_view(path)));
        headers
    }

    /// The headers to set on a response.
    pub fn on_http_response_headers(&self) -> (headers: Vec<Header>)
        ensures
            headers_view(headers@) == seq![("x-gateway-wasm"@, "active"@)],
    {
        let mut headers: Vec<Header> = Vec::new();
        headers.push(header("x-gateway-wasm", "active"));
        assert(headers_view(headers@) =~= seq![("x-gateway-wasm"@, "active"@)]);
        headers
    }
}

} // verus!
