//! What a filter asks the proxy to do: headers to set, and local answers that
//! stop a request before it reaches the upstream.
use vstd::prelude::*;
use vstd::string::*;

verus! {

broadcast use vstd::string::group_string_axioms;

/// One header, by name and value.
pub struct Header {
    pub name: String,
    pub value: String,
}

impl View for Header {
    type V = (Seq<char>, Seq<char>);

    open spec fn view(&self) -> (Seq<char>, Seq<char>) {
        (self.name@, self.value@)
    }
}

/// The `(name, value)` pairs of a list of headers, in order.
pub open spec fn headers_view(headers: Seq<Header>) -> Seq<(Seq<char>, Seq<char>)> {
    headers.map_values(|h: Header| h@)
}

/// A header named `name` with the value `value`.
pub fn header(name: &str, value: &str) -> (h: Header)
    ensures
        h@ == (name@, value@),
{
    Header { name: name.to_string(), value: value.to_string() }
}

/// An answer that the proxy sends itself in place of the upstream's.
pub struct LocalResponse {
    pub status: u32,
    pub headers: Vec<Header>,
    pub body: String,
}

pub struct LocalResponseView {
    pub status: u32,
    pub headers: Seq<(Seq<char>, Seq<char>)>,
    pub body: Seq<char>,
}

impl View for LocalResponse {
    type V = LocalResponseView;

    open spec fn view(&self) -> LocalResponseView {
        LocalResponseView {
            status: self.status,
            headers: headers_view(self.headers@),
            body: self.body@,
        }
    }
}

/// Whether a request goes on to the upstream or is answered locally.
pub enum Decision {
    Continue,
    Reject(LocalResponse),
}

pub enum DecisionView {
    Continue,
    Reject(LocalResponseView),
}

impl View for Decision {
    type V = DecisionView;

    open spec fn view(&self) -> DecisionView {
        match self {
            Decision::Continue => DecisionView::Continue,
            Decision::Reject(r) => DecisionView::Reject(r@),
        }
    }
}

/// What a filter does with a request's headers: the headers it sets on the
/// request, in order, then its decision.
pub struct RequestOutcome {
    pub request_headers: Vec<Header>,
    pub decision: Decision,
}

/// The value of an optional header, empty when it is absent.
pub open spec fn or_empty(s: Option<Seq<char>>) -> Seq<char> {
    match s {
        Some(v) => v,
        None => Seq::empty(),
    }
}

/// The value of an optional header, or `fallback` when it is absent.
pub open spec fn or_else(s: Option<Seq<char>>, fallback: Seq<char>) -> Seq<char> {
    match s {
        Some(v) => v,
        None => fallback,
    }
}

/// The value of an optional header, empty when it is absent.
pub fn value_or_empty(s: Option<String>) -> (v: String)
    ensures
        v@ == or_empty(crate::metadata::opt_view(s)),
{
    match s {
        Some(v) => v,
        None => String::new(),
    }
}

/// The value of an optional header, or `fallback` when it is absent.
pub fn value_or(s: Option<String>, fallback: &str) -> (v: String)
    ensures
        v@ == or_else(crate::metadata::opt_view(s), fallback@),
{
    match s {
        Some(v) => v,
        None => fallback.to_string(),
    }
}

} // verus!
