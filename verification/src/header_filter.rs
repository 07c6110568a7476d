//! The header plugin, second in the plugin chain: it normalises the tenant,
//! derives the policy profile from the route and records the chain.
use vstd::prelude::*;

use crate::headers::{header, headers_view, or_else, value_or, Header};
use crate::metadata::opt_view;
use crate::text::str_eq;

verus! {

/// The plugin's root.
pub struct HeaderRoot;

/// The plugin's per-request context.
pub struct HeaderFilter;

impl HeaderRoot {
    /// A context for a new request.
    pub fn create_http_context(&self, context_id: u32) -> (filter: HeaderFilter) {
        HeaderFilter
    }
}

/// The plugin's name and version, as `name/version`.
pub fn filter_version() -> (v: &'static str)
    ensures
        v@ == "header-filter/0.1.0"@,
{
    "header-filter/0.1.0"
}

/// The plugin chain that the gateway runs, in order.
pub open spec fn plugin_chain() -> Seq<char> {
    "auth-filter,header-filter,observe-filter"@
}

/// The profile of a route name: `protected` for `users`, `public` otherwise.
pub open spec fn profile_of(route: Seq<char>) -> Seq<char> {
    if route == "users"@ {
        "protected"@
    } else {
        "public"@
    }
}

/// The request headers that the plugin sets, given the `x-gateway-route` and
/// `x-tenant-id` that the request carries.
pub open spec fn header_request_headers(route: Option<Seq<char>>, tenant: Option<Seq<char>>) -> Seq<
    (Seq<char>, Seq<char>),
> {
    seq![
        ("x-tenant-id"@, or_else(tenant, "default-tenant"@)),
        ("x-gateway-policy-profile"@, profile_of(or_else(route, "unknown"@))),
        ("x-gateway-plugin-chain"@, plugin_chain()),
        ("x-gateway-filter-version"@, "header-filter/0.1.0"@),
    ]
}

/// The response headers that the plugin sets, given the request's
/// `x-tenant-id` and `x-gateway-policy-profile`.
pub open spec fn header_response_headers(
    tenant: Option<Seq<char>>,
    profile: Option<Seq<char>>,
) -> Seq<(Seq<char>, Seq<char>)> {
    seq![
        ("x-tenant-id"@, or_else(tenant, "default-tenant"@)),
        ("x-gateway-policy-profile"@, or_else(profile, "unknown"@)),
        ("x-gateway-plugin-chain"@, plugin_chain()),
        ("x-gateway-filter-version"@, "header-filter/0.1.0"@),
    ]
}

impl HeaderFilter {
    /// The headers to set on a request that carries `route` as
    /// `x-gateway-route` and `tenant` as `x-tenant-id`; the request always goes on.
    pub fn on_http_request_headers(&self, route: Option<String>, tenant: Option<String>) -> (headers: Vec<Header>)
        ensures
            headers_view(headers@) == header_request_headers(opt_view(route), opt_view(tenant)),
    {
        let route_value = value_or(route, "unknown");
        let tenant_value = value_or(tenant, "default-tenant");
        let profile = if str_eq(route_value.as_str(), "users") {
            "protected"
        } else {
            "public"
        };
        let mut headers: Vec<Header> = Vec::new();
        headers.push(header("x-tenant-id", tenant_value.as_str()));
        headers.push(header("x-gateway-policy-profile", profile));
        headers.push(header("x-gateway-plugin-chain", "auth-filter,header-filter,observe-filter"));
        headers.push(header("x-gateway-filter-version", filter_version()));
        assert(headers_view(headers@) =~= header_request_headers(opt_view(route), opt_view(tenant)));
        headers
    }

    /// The headers to set on a response, given the request's `x-tenant-id`
    /// and `x-gateway-policy-profile`.
    pub fn on_http_response_headers(&self, tenant: Option<String>, profile: Option<String>) -> (headers: Vec<Header>)
        ensures
            headers_view(headers@) == header_response_headers(opt_view(tenant), opt_view(profile)),
    {
        let tenant_value = value_or(tenant, "default-tenant");
        let profile_value = value_or(profile, "unknown");
        let mut headers: Vec<Header> = Vec::new();
        headers.push(header("x-tenant-id", tenant_value.as_str()));
        headers.push(header("x-gateway-policy-profile", profile_value.as_str()));
        headers.push(header("x-gateway-plugin-chain", "auth-filter,header-filter,observe-filter"));
        headers.push(header("x-gateway-filter-version", filter_version()));
        assert(headers_view(headers@) =~= header_response_headers(
            opt_view(tenant),
            opt_view(profile),
        ));
        headers
    }
}

} // verus!
