//! The observability plugin, last in the plugin chain: it tags request and
//! response with a span id derived from the context id.
use vstd::prelude::*;
use vstd::string::*;

use crate::headers::{header, headers_view, Header};
use crate::text::{decimal, decimal_string};

verus! {

broadcast use vstd::string::group_string_axioms;

/// The plugin's root.
pub struct ObserveRoot;

/// The plugin's per-request context.
pub struct ObserveFilter {
    pub context_id: u32,
}

impl ObserveRoot {
    /// A context for the request `context_id`.
    pub fn create_http_context(&self, context_id: u32) -> (filter: ObserveFilter)
        ensures
            filter.context_id == context_id,
    {
        ObserveFilter { context_id }
    }
}

/// The span id of a context: `obs-span-<context id>`.
pub open spec fn span_id(context_id: u32) -> Seq<char> {
    "obs-span-"@ + decimal(context_id as nat)
}

impl ObserveFilter {
    /// The context's span id.
    pub fn span(&self) -> (span: String)
        ensures
            span@ == span_id(self.context_id),
    {
        let mut span = "obs-span-".to_string();
        span.append(decimal_string(self.context_id).as_str());
        span
    }

    /// The headers to set on a request; the request always goes on.
    pub fn on_http_request_headers(&self) -> (headers: Vec<Header>)
        ensures
            headers_view(headers@) == seq![("x-observe-span"@, span_id(self.context_id))],
    {
        let span = self.span();
        let mut headers: Vec<Header> = Vec::new();
        headers.push(header("x-observe-span", span.as_str()));
        assert(headers_view(headers@) =~= seq![("x-observe-span"@, span_id(self.context_id))]);
        headers
    }

    /// The headers to set on a response: the same span as the request's.
    pub fn on_http_response_headers(&self) -> (headers: Vec<Header>)
        ensures
            headers_view(headers@) == seq![("x-observe-span"@, span_id(self.context_id))],
    {
        self.on_http_request_headers()
    }
}

} // verus!
