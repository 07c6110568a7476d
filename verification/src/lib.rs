use vstd::prelude::*;

pub mod auth_filter;
pub mod config;
pub mod error_response;
pub mod gateway;
pub mod header_filter;
pub mod headers;
pub mod metadata;
pub mod observe_filter;
pub mod policy;
pub mod route_tag;
pub mod text;

verus! {
}
