//! The authentication plugin, first in the plugin chain: it names the route,
//! sets the request and trace ids, and refuses `/users/*` requests that lack
//! the API key.
use vstd::prelude::*;
use vstd::string::*;

use crate::headers::{
    header, headers_view, or_empty, value_or_empty, Decision, DecisionView, Header,
    LocalResponse, LocalResponseView, RequestOutcome,
};
use crate::metadata::{generated_id, opt_view};
use crate::policy::{route_name, route_of_path, Route};
use crate::text::{decimal, decimal_string, str_eq};

verus! {

broadcast use vstd::string::group_string_axioms;

/// The plugin's root.
pub struct AuthRoot;

/// The plugin's per-request context: its context id and the route it found.
pub struct AuthFilter {
    pub context_id: u32,
    pub route: &'static str,
}

impl AuthRoot {
    /// A context for the request `context_id`.
    pub fn create_http_context(&self, context_id: u32) -> (filter: AuthFilter)
        ensures
            filter.context_id == context_id,
            filter.route@ == "unknown"@,
    {
        AuthFilter::new(context_id)
    }
}

/// The request headers that the plugin sets, with the context's ids and route.
pub open spec fn auth_request_headers(context_id: u32, route: Seq<char>) -> Seq<
    (Seq<char>, Seq<char>),
> {
    seq![
        ("x-request-id"@, generated_id("req"@, context_id)),
        ("x-trace-id"@, generated_id("trace"@, context_id)),
        ("x-gateway-route"@, route),
        ("x-gateway-policy-profile"@, "platform-v3"@),
        ("x-gateway-decision"@, "allow"@),
    ]
}

/// The response headers that the plugin sets.
pub open spec fn auth_response_headers(context_id: u32, route: Seq<char>) -> Seq<
    (Seq<char>, Seq<char>),
> {
    seq![
        ("x-request-id"@, generated_id("req"@, context_id)),
        ("x-trace-id"@, generated_id("trace"@, context_id)),
        ("x-gateway-route"@, route),
        ("x-gateway-decision"@, "allow"@),
    ]
}

/// Only `/users/*` needs a key, and the key is `users-secret`; a missing key
/// counts as empty.
pub open spec fn auth_refused(route: Seq<char>, api_key: Option<Seq<char>>) -> bool {
    route == "users"@ && or_empty(api_key) != "users-secret"@
}

/// The `401` answer to a refused request.
pub open spec fn auth_rejection(route: Seq<char>) -> LocalResponseView {
    LocalResponseView {
        status: 401,
        headers: seq![
            ("content-type"@, "application/json"@),
            ("x-gateway-route"@, route),
            ("x-gateway-decision"@, "deny"@),
        ],
        body: "{\"error\":{\"code\":\"unauthorized\",\"message\":\"missing or invalid api key\"}}"@,
    }
}

impl AuthFilter {
    /// A context for the request `context_id`, its route not yet known.
    pub fn new(context_id: u32) -> (filter: Self)
        ensures
            filter.context_id == context_id,
            filter.route@ == "unknown"@,
    {
        AuthFilter { context_id, route: "unknown" }
    }

    /// The route name of a path.
    pub fn classify_route(path: &str) -> (route: &'static str)
        ensures
            route@ == route_name(route_of_path(path@)),
    {
        Route::from_path(path).as_str()
    }

    /// The context's request id, `req-<context id>`.
    pub fn request_id(&self) -> (id: String)
        ensures
            id@ == generated_id("req"@, self.context_id),
    {
        let mut id = "req-".to_string();
        id.append(decimal_string(self.context_id).as_str());
        proof {
            reveal_strlit("req-");
            reveal_strlit("req");
            reveal_strlit("-");
            assert("req-"@ =~= "req"@ + "-"@);
        }
        id
    }

    /// The context's trace id, `trace-<context id>`.
    pub fn trace_id(&self) -> (id: String)
        ensures
            id@ == generated_id("trace"@, self.context_id),
    {
        let mut id = "trace-".to_string();
        id.append(decimal_string(self.context_id).as_str());
        proof {
            reveal_strlit("trace-");
            reveal_strlit("trace");
            reveal_strlit("-");
            assert("trace-"@ =~= "trace"@ + "-"@);
        }
        id
    }

    /// Handles a request's headers: `path` is its `:path` and `api_key` its
    /// `x-api-key`. The context takes the path's route; the plugin's headers
    /// are set; a refused request is answered with `401`.
    pub fn on_http_request_headers(&mut self, path: Option<String>, api_key: Option<String>) -> (outcome: RequestOutcome)
        ensures
            final(self).context_id == old(self).context_id,
            final(self).route@ == route_name(route_of_path(or_empty(opt_view(path)))),
            headers_view(outcome.request_headers@) == auth_request_headers(
                final(self).context_id,
                final(self).route@,
            ),
            outcome.decision@ == (if auth_refused(final(self).route@, opt_view(api_key)) {
                DecisionView::Reject(auth_rejection(final(self).route@))
            } else {
                DecisionView::Continue
            }),
    {
        let path_value = value_or_empty(path);
        self.route = Self::classify_route(path_value.as_str());
        let request_id = self.request_id();
        let trace_id = self.trace_id();
        let mut request_headers: Vec<Header> = Vec::new();
        request_headers.push(header("x-request-id", request_id.as_str()));
        request_headers.push(header("x-trace-id", trace_id.as_str()));
        request_headers.push(header("x-gateway-route", self.route));
        request_headers.push(header("x-gateway-policy-profile", "platform-v3"));
        request_headers.push(header("x-gateway-decision", "allow"));
        assert(headers_view(request_headers@) =~= auth_request_headers(
            self.context_id,
            self.route@,
        ));
        if str_eq(self.route, "users") {
            let provided = value_or_empty(api_key);
            if !str_eq(provided.as_str(), "users-secret") {
                let mut headers: Vec<Header> = Vec::new();
                headers.push(header("content-type", "application/json"));
                headers.push(header("x-gateway-route", self.route));
                headers.push(header("x-gateway-decision", "deny"));
                assert(headers_view(headers@) =~= auth_rejection(self.route@).headers);
                let body =
                    "{\"error\":{\"code\":\"unauthorized\",\"message\":\"missing or invalid api key\"}}".to_string();
                let response = LocalResponse { status: 401, headers, body };
                return RequestOutcome { request_headers, decision: Decision::Reject(response) };
            }
        }
        RequestOutcome { request_headers, decision: Decision::Continue }
    }

    /// The headers to set on the upstream's response.
    pub fn on_http_response_headers(&self) -> (headers: Vec<Header>)
        ensures
            headers_view(headers@) == auth_response_headers(self.context_id, self.route@),
    {
        let request_id = self.request_id();
        let trace_id = self.trace_id();
        let mut headers: Vec<Header> = Vec::new();
        headers.push(header("x-request-id", request_id.as_str()));
        headers.push(header("x-trace-id", trace_id.as_str()));
        headers.push(header("x-gateway-route", self.route));
        headers.push(header("x-gateway-decision", "allow"));
        assert(headers_view(headers@) =~= auth_response_headers(self.context_id, self.route@));
        headers
    }
}

/// Only `/users/*` requests are ever refused, and a `/users/*` request that
/// carries the key `users-secret` never is.
pub proof fn law_auth_only_users_guarded(path: Seq<char>, api_key: Option<Seq<char>>)
    ensures
        auth_refused(route_name(route_of_path(path)), api_key) <==> (route_of_path(path)
            == Route::Users && or_empty(api_key) != "users-secret"@),
{
    reveal_strlit("users");
    reveal_strlit("orders");
    reveal_strlit("unknown");
    assert("orders"@.len() != "users"@.len());
    assert("unknown"@.len() != "users"@.len());
}

/// The plugin's request and response headers carry the route it found for the
/// path, `req-<context id>` and `trace-<context id>`, and the decision `allow`;
/// its `401` answer carries the same route and the decision `deny`.
pub proof fn law_auth_headers_carry_route_and_ids(context_id: u32, path: Seq<char>)
    ensures
        ({
            let r = route_name(route_of_path(path));
            let req = "req-"@ + decimal(context_id as nat);
            let trace = "trace-"@ + decimal(context_id as nat);
            &&& auth_request_headers(context_id, r).contains(("x-gateway-route"@, r))
            &&& auth_request_headers(context_id, r).contains(("x-request-id"@, req))
            &&& auth_request_headers(context_id, r).contains(("x-trace-id"@, trace))
            &&& auth_request_headers(context_id, r).contains(("x-gateway-decision"@, "allow"@))
            &&& auth_response_headers(context_id, r).contains(("x-gateway-route"@, r))
            &&& auth_response_headers(context_id, r).contains(("x-request-id"@, req))
            &&& auth_response_headers(context_id, r).contains(("x-trace-id"@, trace))
            &&& auth_rejection(r).headers.contains(("x-gateway-route"@, r))
            &&& auth_rejection(r).headers.contains(("x-gateway-decision"@, "deny"@))
            &&& auth_rejection(r).status == 401
        }),
{
    reveal_strlit("req-");
    reveal_strlit("req");
    reveal_strlit("trace-");
    reveal_strlit("trace");
    reveal_strlit("-");
    assert("req-"@ =~= "req"@ + "-"@);
    assert("trace-"@ =~= "trace"@ + "-"@);
    let r = route_name(route_of_path(path));
    let rq = auth_request_headers(context_id, r);
    let rs = auth_response_headers(context_id, r);
    let rj = auth_rejection(r).headers;
    assert(generated_id("req"@, context_id) =~= "req-"@ + decimal(context_id as nat));
    assert(generated_id("trace"@, context_id) =~= "trace-"@ + decimal(context_id as nat));
    assert(rq[0] == ("x-request-id"@, generated_id("req"@, context_id)));
    assert(rq[1] == ("x-trace-id"@, generated_id("trace"@, context_id)));
    assert(rq[2] == ("x-gateway-route"@, r));
    assert(rq[4] == ("x-gateway-decision"@, "allow"@));
    assert(rs[0] == ("x-request-id"@, generated_id("req"@, context_id)));
    assert(rs[1] == ("x-trace-id"@, generated_id("trace"@, context_id)));
    assert(rs[2] == ("x-gateway-route"@, r));
    assert(rj[1] == ("x-gateway-route"@, r));
    assert(rj[2] == ("x-gateway-decision"@, "deny"@));
}

} // verus!
