use wasm_filter::auth_filter::{AuthFilter, AuthRoot};
use wasm_filter::config::Config;
use wasm_filter::gateway::{GatewayFilter, GatewayRoot};
use wasm_filter::header_filter::{filter_version, HeaderFilter};
use wasm_filter::headers::{Decision, Header};
use wasm_filter::observe_filter::{ObserveFilter, ObserveRoot};
use wasm_filter::policy::Route;
use wasm_filter::route_tag;

fn pairs(headers: &[Header]) -> Vec<(String, String)> {
    headers.iter().map(|h| (h.name.clone(), h.value.clone())).collect()
}

fn p(name: &str, value: &str) -> (String, String) {
    (name.to_string(), value.to_string())
}

fn s(v: &str) -> Option<String> {
    Some(v.to_string())
}

fn gateway(context_id: u32) -> GatewayFilter {
    GatewayRoot::new("").create_http_context(context_id)
}

#[test]
fn gateway_users_without_key_is_refused() {
    let mut f = gateway(10);
    let out = f.on_http_request_headers(s("/users/10"), None, None, None);
    assert_eq!(f.route, Route::Users);
    assert_eq!(f.request_id, "req-10");
    assert_eq!(f.trace_id, "trace-10");
    assert_eq!(
        pairs(&out.request_headers),
        vec![
            p("x-gateway-wasm", "active"),
            p("x-gateway-route", "users"),
            p("x-organization", "acme-gateway"),
            p("x-request-id", "req-10"),
            p("x-trace-id", "trace-10"),
            p("x-policy-profile", "protected"),
        ]
    );
    match out.decision {
        Decision::Reject(r) => {
            assert_eq!(r.status, 401);
            assert_eq!(
                pairs(&r.headers),
                vec![
                    p("content-type", "application/json"),
                    p("x-gateway-wasm", "active"),
                    p("x-gateway-route", "users"),
                    p("x-request-id", "req-10"),
                    p("x-trace-id", "trace-10"),
                ]
            );
            assert_eq!(
                r.body,
                "{\"error\":{\"code\":\"unauthorized\",\"message\":\"missing or invalid API key\",\"route\":\"users\",\"request_id\":\"req-10\",\"trace_id\":\"trace-10\"}}"
            );
        }
        Decision::Continue => panic!("a users request without key must be refused"),
    }
}

#[test]
fn gateway_users_with_wrong_key_is_refused() {
    let mut f = gateway(1);
    let out = f.on_http_request_headers(s("/users/10"), None, None, s("nope"));
    assert!(matches!(out.decision, Decision::Reject(_)));
    let mut f = gateway(1);
    let out = f.on_http_request_headers(s("/users/10"), None, None, s(""));
    assert!(matches!(out.decision, Decision::Reject(_)));
}

#[test]
fn gateway_users_with_key_passes() {
    let mut f = gateway(2);
    let out = f.on_http_request_headers(s("/users/10"), None, s("demo-trace-1"), s("users-secret"));
    assert!(matches!(out.decision, Decision::Continue));
    assert_eq!(f.trace_id, "demo-trace-1");
    assert!(pairs(&out.request_headers).contains(&p("x-policy-profile", "protected")));
    assert!(pairs(&out.request_headers).contains(&p("x-trace-id", "demo-trace-1")));
}

#[test]
fn gateway_orders_pass_without_key() {
    let mut f = gateway(3);
    let out = f.on_http_request_headers(s("/orders/99"), None, None, None);
    assert!(matches!(out.decision, Decision::Continue));
    assert_eq!(pairs(&out.request_headers)[5], p("x-policy-profile", "public"));
}

#[test]
fn gateway_unknown_route_passes_without_profile() {
    let mut f = gateway(4);
    let out = f.on_http_request_headers(s("/unknown"), None, None, None);
    assert!(matches!(out.decision, Decision::Continue));
    assert_eq!(out.request_headers.len(), 5);
    assert_eq!(pairs(&out.request_headers)[1], p("x-gateway-route", "unknown"));
    let mut f = gateway(4);
    let out = f.on_http_request_headers(None, None, None, None);
    assert_eq!(f.route, Route::Unknown);
    assert_eq!(out.request_headers.len(), 5);
}

#[test]
fn gateway_keeps_client_ids_and_echoes_them() {
    let mut f = gateway(5);
    let out = f.on_http_request_headers(s("/orders/1"), s("rid"), s("tid"), None);
    let req = pairs(&out.request_headers);
    let resp = pairs(&f.on_http_response_headers());
    assert_eq!(
        resp,
        vec![
            p("x-gateway-wasm", "active"),
            p("x-gateway-route", "orders"),
            p("x-request-id", "rid"),
            p("x-trace-id", "tid"),
        ]
    );
    for h in &resp {
        assert!(req.contains(h));
    }
}

#[test]
fn gateway_uses_configured_names_and_keys() {
    let root = GatewayRoot::new(
        "org_name = o\nrequest_id_header = x-r\ntrace_id_header = x-t\nusers.api_key = k\norders.api_key_required = on\n",
    );
    let mut f = root.create_http_context(6);
    let out = f.on_http_request_headers(s("/users/1"), None, None, s("k"));
    assert!(matches!(out.decision, Decision::Continue));
    assert_eq!(pairs(&out.request_headers)[2], p("x-organization", "o"));
    assert_eq!(pairs(&out.request_headers)[3], p("x-r", "req-6"));
    assert_eq!(pairs(&out.request_headers)[4], p("x-t", "trace-6"));
    let mut g = root.create_http_context(7);
    let out = g.on_http_request_headers(s("/orders/1"), None, None, s("orders-demo"));
    assert!(matches!(out.decision, Decision::Continue));
    let mut g = root.create_http_context(7);
    let out = g.on_http_request_headers(s("/orders/1"), None, None, None);
    assert!(matches!(out.decision, Decision::Reject(_)));
}

#[test]
fn gateway_filter_new_is_fresh() {
    let f = GatewayFilter::new(8, Config::default());
    assert_eq!(f.context_id, 8);
    assert_eq!(f.route, Route::Unknown);
    assert_eq!(f.request_id, "");
    assert_eq!(f.trace_id, "");
    assert_eq!(pairs(&f.attach_standard_headers())[1], p("x-gateway-route", "unknown"));
    assert_eq!(f.reject_unauthorized().status, 401);
}

#[test]
fn route_tag_filter_headers() {
    let f = route_tag::GatewayRoot.create_http_context(1);
    assert_eq!(
        pairs(&f.on_http_request_headers(s("/users/10"))),
        vec![p("x-gateway-wasm", "active"), p("x-gateway-route", "users")]
    );
    assert_eq!(
        pairs(&f.on_http_request_headers(s("/orders/99"))),
        vec![p("x-gateway-wasm", "active"), p("x-gateway-route", "orders")]
    );
    assert_eq!(
        pairs(&f.on_http_request_headers(s("/health"))),
        vec![p("x-gateway-wasm", "active"), p("x-gateway-route", "unknown")]
    );
    assert_eq!(pairs(&f.on_http_response_headers()), vec![p("x-gateway-wasm", "active")]);
}

#[test]
fn auth_filter_refuses_users_without_secret() {
    let mut f = AuthRoot.create_http_context(42);
    assert_eq!(f.route, "unknown");
    let out = f.on_http_request_headers(s("/users/10"), s("wrong"));
    assert_eq!(f.route, "users");
    assert_eq!(
        pairs(&out.request_headers),
        vec![
            p("x-request-id", "req-42"),
            p("x-trace-id", "trace-42"),
            p("x-gateway-route", "users"),
            p("x-gateway-policy-profile", "platform-v3"),
            p("x-gateway-decision", "allow"),
        ]
    );
    match out.decision {
        Decision::Reject(r) => {
            assert_eq!(r.status, 401);
            assert_eq!(
                pairs(&r.headers),
                vec![
                    p("content-type", "application/json"),
                    p("x-gateway-route", "users"),
                    p("x-gateway-decision", "deny"),
                ]
            );
            assert_eq!(
                r.body,
                r#"{"error":{"code":"unauthorized","message":"missing or invalid api key"}}"#
            );
        }
        Decision::Continue => panic!("must be refused"),
    }
}

#[test]
fn auth_filter_passes_users_with_secret_and_other_routes() {
    let mut f = AuthFilter::new(1);
    assert!(matches!(f.on_http_request_headers(s("/users/1"), s("users-secret")).decision, Decision::Continue));
    let mut f = AuthFilter::new(1);
    assert!(matches!(f.on_http_request_headers(s("/orders/1"), None).decision, Decision::Continue));
    let mut f = AuthFilter::new(1);
    assert!(matches!(f.on_http_request_headers(None, None).decision, Decision::Continue));
    assert_eq!(f.route, "unknown");
    let mut f = AuthFilter::new(1);
    assert!(matches!(f.on_http_request_headers(s("/users/1"), None).decision, Decision::Reject(_)));
}

#[test]
fn auth_filter_ids_and_response() {
    let mut f = AuthFilter::new(7);
    assert_eq!(AuthFilter::classify_route("/orders/x"), "orders");
    assert_eq!(AuthFilter::classify_route("/x"), "unknown");
    assert_eq!(f.request_id(), "req-7");
    assert_eq!(f.trace_id(), "trace-7");
    f.on_http_request_headers(s("/orders/2"), None);
    assert_eq!(
        pairs(&f.on_http_response_headers()),
        vec![
            p("x-request-id", "req-7"),
            p("x-trace-id", "trace-7"),
            p("x-gateway-route", "orders"),
            p("x-gateway-decision", "allow"),
        ]
    );
}

#[test]
fn header_filter_request_headers() {
    let f = HeaderFilter;
    assert_eq!(
        pairs(&f.on_http_request_headers(s("users"), s("team-a"))),
        vec![
            p("x-tenant-id", "team-a"),
            p("x-gateway-policy-profile", "protected"),
            p("x-gateway-plugin-chain", "auth-filter,header-filter,observe-filter"),
            p("x-gateway-filter-version", "header-filter/0.1.0"),
        ]
    );
    assert_eq!(
        pairs(&f.on_http_request_headers(None, None)),
        vec![
            p("x-tenant-id", "default-tenant"),
            p("x-gateway-policy-profile", "public"),
            p("x-gateway-plugin-chain", "auth-filter,header-filter,observe-filter"),
            p("x-gateway-filter-version", "header-filter/0.1.0"),
        ]
    );
    assert_eq!(pairs(&f.on_http_request_headers(s("orders"), s("team-b")))[1], p("x-gateway-policy-profile", "public"));
    assert_eq!(filter_version(), "header-filter/0.1.0");
}

#[test]
fn header_filter_response_headers() {
    let f = HeaderFilter;
    assert_eq!(
        pairs(&f.on_http_response_headers(None, None)),
        vec![
            p("x-tenant-id", "default-tenant"),
            p("x-gateway-policy-profile", "unknown"),
            p("x-gateway-plugin-chain", "auth-filter,header-filter,observe-filter"),
            p("x-gateway-filter-version", "header-filter/0.1.0"),
        ]
    );
    assert_eq!(
        pairs(&f.on_http_response_headers(s("t"), s("protected")))[0..2].to_vec(),
        vec![p("x-tenant-id", "t"), p("x-gateway-policy-profile", "protected")]
    );
}

#[test]
fn observe_filter_span() {
    let f = ObserveRoot.create_http_context(3);
    assert_eq!(f.span(), "obs-span-3");
    assert_eq!(pairs(&f.on_http_request_headers()), vec![p("x-observe-span", "obs-span-3")]);
    assert_eq!(pairs(&f.on_http_response_headers()), vec![p("x-observe-span", "obs-span-3")]);
    assert_ne!(ObserveFilter { context_id: 1 }.span(), ObserveFilter { context_id: 10 }.span());
}

#[test]
fn gateway_rejection_escapes_client_request_id() {
    let mut f = gateway(9);
    let out = f.on_http_request_headers(s("/users/1"), s("a\"b"), None, None);
    match out.decision {
        Decision::Reject(r) => assert_eq!(
            r.body,
            "{\"error\":{\"code\":\"unauthorized\",\"message\":\"missing or invalid API key\",\"route\":\"users\",\"request_id\":\"a\\\"b\",\"trace_id\":\"trace-9\"}}"
        ),
        Decision::Continue => panic!("must be refused"),
    }
}
