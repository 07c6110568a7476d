//! The gateway filter: route classification, request metadata, API-key
//! authentication and the headers it adds on the way in and out. Each
//! function takes what the proxy reported and returns what the proxy is to do.
use vstd::prelude::*;
use vstd::string::*;

use crate::config::{default_config, loaded, Config, ConfigView};
use crate::error_response::{unauthorized, unauthorized_body};
use crate::headers::{
    header, headers_view, or_empty, value_or_empty, Decision, DecisionView, Header,
    LocalResponse, LocalResponseView, RequestOutcome,
};
use crate::metadata::{ensure_or_generate, ensured_id, opt_view};
use crate::policy::{route_name, route_of_path, route_policy, Route};
use crate::text::str_eq;

verus! {

broadcast use vstd::string::group_string_axioms;

/// The filter's root: the policy, loaded once, that every request context shares.
pub struct GatewayRoot {
    pub config: Config,
}

/// The per-request filter context.
pub struct GatewayFilter {
    pub context_id: u32,
    pub config: Config,
    pub route: Route,
    pub request_id: String,
    pub trace_id: String,
}

pub struct GatewayFilterView {
    pub context_id: u32,
    pub config: ConfigView,
    pub route: Route,
    pub request_id: Seq<char>,
    pub trace_id: Seq<char>,
}

impl View for GatewayFilter {
    type V = GatewayFilterView;

    open spec fn view(&self) -> GatewayFilterView {
        GatewayFilterView {
            context_id: self.context_id,
            config: self.config@,
            route: self.route,
            request_id: self.request_id@,
            trace_id: self.trace_id@,
        }
    }
}

/// A context before its request's headers arrive.
pub open spec fn fresh_filter(context_id: u32, config: ConfigView) -> GatewayFilterView {
    GatewayFilterView {
        context_id,
        config,
        route: Route::Unknown,
        request_id: Seq::empty(),
        trace_id: Seq::empty(),
    }
}

/// A context after its request's headers arrived with the given path and
/// metadata headers: the route is the path's, the request and trace ids are
/// the ones sent, or `req-<id>` and `trace-<id>`.
pub open spec fn after_request(
    s: GatewayFilterView,
    path: Option<Seq<char>>,
    request_id: Option<Seq<char>>,
    trace_id: Option<Seq<char>>,
) -> GatewayFilterView {
    GatewayFilterView {
        route: route_of_path(or_empty(path)),
        request_id: ensured_id(request_id, "req"@, s.context_id),
        trace_id: ensured_id(trace_id, "trace"@, s.context_id),
        ..s
    }
}

/// The headers that the filter sets on every request it sees.
pub open spec fn standard_headers(s: GatewayFilterView) -> Seq<(Seq<char>, Seq<char>)> {
    let base = seq![
        ("x-gateway-wasm"@, "active"@),
        ("x-gateway-route"@, route_name(s.route)),
        ("x-organization"@, s.config.org_name),
        (s.config.request_id_header, s.request_id),
        (s.config.trace_id_header, s.trace_id),
    ];
    match route_policy(s.route, s.config) {
        Some(p) => base.push(("x-policy-profile"@, p.policy_profile)),
        None => base,
    }
}

/// A request is refused when its route's policy requires an API key and the
/// key sent (empty when none was sent) is not the configured one.
pub open spec fn refused(s: GatewayFilterView, api_key: Option<Seq<char>>) -> bool {
    match route_policy(s.route, s.config) {
        Some(p) => p.api_key_required && or_empty(api_key) != p.api_key,
        None => false,
    }
}

/// The `401` answer to a refused request.
pub open spec fn rejection(s: GatewayFilterView) -> LocalResponseView {
    LocalResponseView {
        status: 401,
        headers: seq![
            ("content-type"@, "application/json"@),
            ("x-gateway-wasm"@, "active"@),
            ("x-gateway-route"@, route_name(s.route)),
            (s.config.request_id_header, s.request_id),
            (s.config.trace_id_header, s.trace_id),
        ],
        body: unauthorized_body(route_name(s.route), s.request_id, s.trace_id),
    }
}

/// The headers that the filter sets on the upstream's response.
pub open spec fn response_headers(s: GatewayFilterView) -> Seq<(Seq<char>, Seq<char>)> {
    seq![
        ("x-gateway-wasm"@, "active"@),
        ("x-gateway-route"@, route_name(s.route)),
        (s.config.request_id_header, s.request_id),
        (s.config.trace_id_header, s.trace_id),
    ]
}

impl GatewayRoot {
    /// The root for the policy file `policy_file`.
    pub fn new(policy_file: &str) -> (root: Self)
        ensures
            root.config@ == loaded(policy_file@),
    {
        GatewayRoot { config: Config::load(policy_file) }
    }

    /// A fresh context for the request `context_id`, with its own copy of the policy.
    pub fn create_http_context(&self, context_id: u32) -> (filter: GatewayFilter)
        ensures
            filter@ == fresh_filter(context_id, self.config@),
    {
        GatewayFilter::new(context_id, self.config.clone())
    }
}

impl GatewayFilter {
    /// A fresh context for the request `context_id` under `config`.
    pub fn new(context_id: u32, config: Config) -> (filter: Self)
        ensures
            filter@ == fresh_filter(context_id, config@),
    {
        GatewayFilter {
            context_id,
            config,
            route: Route::Unknown,
            request_id: String::new(),
            trace_id: String::new(),
        }
    }

    /// The headers to set on the request.
    pub fn attach_standard_headers(&self) -> (headers: Vec<Header>)
        ensures
            headers_view(headers@) == standard_headers(self@),
    {
        let mut headers: Vec<Header> = Vec::new();
        headers.push(header("x-gateway-wasm", "active"));
        headers.push(header("x-gateway-route", self.route.as_str()));
        headers.push(header("x-organization", self.config.org_name.as_str()));
        headers.push(header(self.config.request_id_header.as_str(), self.request_id.as_str()));
        headers.push(header(self.config.trace_id_header.as_str(), self.trace_id.as_str()));
        match self.route.policy(&self.config) {
            Some(policy) => {
                headers.push(header("x-policy-profile", policy.policy_profile.as_str()));
            },
            None => {},
        }
        assert(headers_view(headers@) =~= standard_headers(self@));
        headers
    }

    /// The `401` answer to a request refused for its API key.
    pub fn reject_unauthorized(&self) -> (response: LocalResponse)
        ensures
            response@ == rejection(self@),
    {
        let body = unauthorized(self.route.as_str(), self.request_id.as_str(), self.trace_id.as_str());
        let mut headers: Vec<Header> = Vec::new();
        headers.push(header("content-type", "application/json"));
        headers.push(header("x-gateway-wasm", "active"));
        headers.push(header("x-gateway-route", self.route.as_str()));
        headers.push(header(self.config.request_id_header.as_str(), self.request_id.as_str()));
        headers.push(header(self.config.trace_id_header.as_str(), self.trace_id.as_str()));
        assert(headers_view(headers@) =~= rejection(self@).headers);
        LocalResponse { status: 401, headers, body }
    }

    /// Handles a request's headers: `path` is its `:path`, `request_id` and
    /// `trace_id` the values of the configured metadata headers, `api_key` the
    /// value of the configured authentication header. The context takes the
    /// request's route and ids; the standard headers are set; the request is
    /// answered with `401` exactly when it is refused.
    pub fn on_http_request_headers(
        &mut self,
        path: Option<String>,
        request_id: Option<String>,
        trace_id: Option<String>,
        api_key: Option<String>,
    ) -> (outcome: RequestOutcome)
        ensures
            final(self)@ == after_request(
                old(self)@,
                opt_view(path),
                opt_view(request_id),
                opt_view(trace_id),
            ),
            headers_view(outcome.request_headers@) == standard_headers(final(self)@),
            outcome.decision@ == (if refused(final(self)@, opt_view(api_key)) {
                DecisionView::Reject(rejection(final(self)@))
            } else {
                DecisionView::Continue
            }),
    {
        let path_value = value_or_empty(path);
        self.route = Route::from_path(path_value.as_str());
        self.request_id = ensure_or_generate(request_id, "req", self.context_id);
        self.trace_id = ensure_or_generate(trace_id, "trace", self.context_id);
        let request_headers = self.attach_standard_headers();
        let decision = match self.route.policy(&self.config) {
            None => Decision::Continue,
            Some(policy) => {
                if !policy.api_key_required {
                    Decision::Continue
                } else {
                    let provided = value_or_empty(api_key);
                    if str_eq(provided.as_str(), policy.api_key.as_str()) {
                        Decision::Continue
                    } else {
                        Decision::Reject(self.reject_unauthorized())
                    }
                }
            },
        };
        RequestOutcome { request_headers, decision }
    }

    /// The headers to set on the upstream's response.
    pub fn on_http_response_headers(&self) -> (headers: Vec<Header>)
        ensures
            headers_view(headers@) == response_headers(self@),
    {
        let mut headers: Vec<Header> = Vec::new();
        headers.push(header("x-gateway-wasm", "active"));
        headers.push(header("x-gateway-route", self.route.as_str()));
        headers.push(header(self.config.request_id_header.as_str(), self.request_id.as_str()));
        headers.push(header(self.config.trace_id_header.as_str(), self.trace_id.as_str()));
        assert(headers_view(headers@) =~= response_headers(self@));
        headers
    }
}

/// Under the built-in policy, `/users/*` requests are refused unless they
/// carry the key `users-secret`, `/orders/*` and unknown routes are never
/// refused, and the two known routes are tagged with the profiles
/// `protected` and `public`.
pub proof fn law_default_policy(s: GatewayFilterView, api_key: Option<Seq<char>>)
    requires
        s.config == default_config(),
    ensures
        s.route == Route::Users ==> (refused(s, api_key) <==> or_empty(api_key) != "users-secret"@),
        s.route != Route::Users ==> !refused(s, api_key),
        s.route == Route::Users ==> standard_headers(s).contains(
            ("x-policy-profile"@, "protected"@),
        ),
        s.route == Route::Orders ==> standard_headers(s).contains(("x-policy-profile"@, "public"@)),
{
    let st = standard_headers(s);
    if s.route != Route::Unknown {
        assert(st[5] == st.last());
    }
}

/// Every header that the filter sets on a response it also set, with the same
/// value, on the request; so does every header of a `401` answer but its
/// content type.
pub proof fn law_response_echoes_request(s: GatewayFilterView)
    ensures
        forall|i: int|
            0 <= i < response_headers(s).len() ==> standard_headers(s).contains(
                #[trigger] response_headers(s)[i],
            ),
        forall|i: int|
            1 <= i < rejection(s).headers.len() ==> standard_headers(s).contains(
                #[trigger] rejection(s).headers[i],
            ),
{
    let st = standard_headers(s);
    assert(st[0] == response_headers(s)[0]);
    assert(st[1] == response_headers(s)[1]);
    assert(st[3] == response_headers(s)[2]);
    assert(st[4] == response_headers(s)[3]);
    assert(st[0] == rejection(s).headers[1]);
    assert(st[1] == rejection(s).headers[2]);
    assert(st[3] == rejection(s).headers[3]);
    assert(st[4] == rejection(s).headers[4]);
}

/// A non-empty request id or trace id that the client sent is the one that
/// the request carries upstream and the response carries back.
pub proof fn law_client_ids_preserved(
    s: GatewayFilterView,
    path: Option<Seq<char>>,
    request_id: Option<Seq<char>>,
    trace_id: Option<Seq<char>>,
)
    ensures
        ({
            let t = after_request(s, path, request_id, trace_id);
            &&& (request_id is Some && request_id->0.len() > 0) ==> {
                &&& standard_headers(t).contains((s.config.request_id_header, request_id->0))
                &&& response_headers(t).contains((s.config.request_id_header, request_id->0))
            }
            &&& (trace_id is Some && trace_id->0.len() > 0) ==> {
                &&& standard_headers(t).contains((s.config.trace_id_header, trace_id->0))
                &&& response_headers(t).contains((s.config.trace_id_header, trace_id->0))
            }
        }),
{
    let t = after_request(s, path, request_id, trace_id);
    assert(standard_headers(t)[3] == (s.config.request_id_header, t.request_id));
    assert(standard_headers(t)[4] == (s.config.trace_id_header, t.trace_id));
    assert(response_headers(t)[2] == (s.config.request_id_header, t.request_id));
    assert(response_headers(t)[3] == (s.config.trace_id_header, t.trace_id));
}

/// Under every policy, a request is refused exactly when its route has a
/// policy that requires an API key and the key sent (empty when absent) is not
/// that policy's key: `/users/*` follows `users`, `/orders/*` follows
/// `orders`, and any other path is never refused. In particular a route whose
/// policy does not require a key lets every request through, and the key that
/// the policy names is always accepted.
pub proof fn law_refusal_follows_policy(s: GatewayFilterView, api_key: Option<Seq<char>>)
    ensures
        s.route == Route::Users ==> (refused(s, api_key) <==> (s.config.users.api_key_required
            && or_empty(api_key) != s.config.users.api_key)),
        s.route == Route::Orders ==> (refused(s, api_key) <==> (s.config.orders.api_key_required
            && or_empty(api_key) != s.config.orders.api_key)),
        s.route == Route::Unknown ==> !refused(s, api_key),
        (s.route == Route::Users && !s.config.users.api_key_required) ==> !refused(s, api_key),
        (s.route == Route::Orders && !s.config.orders.api_key_required) ==> !refused(s, api_key),
        (s.route == Route::Users && api_key == Some(s.config.users.api_key)) ==> !refused(
            s,
            api_key,
        ),
        (s.route == Route::Orders && api_key == Some(s.config.orders.api_key)) ==> !refused(
            s,
            api_key,
        ),
{
}

/// The headers set on a request carry the route the path was classified as,
/// the organisation name and the two ids under the configured header names;
/// a known route also carries its policy's profile, an unknown one none.
pub proof fn law_standard_headers_carry_request_facts(s: GatewayFilterView)
    ensures
        standard_headers(s).contains(("x-gateway-wasm"@, "active"@)),
        standard_headers(s).contains(("x-gateway-route"@, route_name(s.route))),
        standard_headers(s).contains(("x-organization"@, s.config.org_name)),
        standard_headers(s).contains((s.config.request_id_header, s.request_id)),
        standard_headers(s).contains((s.config.trace_id_header, s.trace_id)),
        s.route == Route::Users ==> standard_headers(s).contains(
            ("x-policy-profile"@, s.config.users.policy_profile),
        ),
        s.route == Route::Orders ==> standard_headers(s).contains(
            ("x-policy-profile"@, s.config.orders.policy_profile),
        ),
        s.route == Route::Unknown ==> standard_headers(s).len() == 5,
{
    let st = standard_headers(s);
    assert(st[0] == ("x-gateway-wasm"@, "active"@));
    assert(st[1] == ("x-gateway-route"@, route_name(s.route)));
    assert(st[2] == ("x-organization"@, s.config.org_name));
    assert(st[3] == (s.config.request_id_header, s.request_id));
    assert(st[4] == (s.config.trace_id_header, s.trace_id));
    if s.route != Route::Unknown {
        assert(st[5] == st.last());
    }
}

} // verus!
