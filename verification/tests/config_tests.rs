use wasm_filter::config::{parse_bool, Config};
use wasm_filter::error_response::unauthorized;
use wasm_filter::metadata::ensure_or_generate;
use wasm_filter::policy::Route;
use wasm_filter::text::{decimal_string, starts_with, str_eq};

fn assert_defaults(c: &Config) {
    assert_eq!(c.org_name, "acme-gateway");
    assert_eq!(c.request_id_header, "x-request-id");
    assert_eq!(c.trace_id_header, "x-trace-id");
    assert_eq!(c.auth_header, "x-api-key");
    assert!(c.users.api_key_required);
    assert_eq!(c.users.api_key, "users-secret");
    assert_eq!(c.users.policy_profile, "protected");
    assert!(!c.orders.api_key_required);
    assert_eq!(c.orders.api_key, "orders-demo");
    assert_eq!(c.orders.policy_profile, "public");
}

#[test]
fn default_config_values() {
    assert_defaults(&Config::default());
}

#[test]
fn load_empty_file_is_default() {
    assert_defaults(&Config::load(""));
}

#[test]
fn load_only_comments_and_blank_lines_is_default() {
    assert_defaults(&Config::load("# policy\n\n   \n  # org_name = x\nnot a setting\n"));
}

#[test]
fn load_sets_every_known_key() {
    let raw = "org_name = demo-org\n\
               request_id_header = x-req\n\
               trace_id_header = x-tr\n\
               auth_header = x-key\n\
               users.api_key_required = false\n\
               users.api_key = u-key\n\
               orders.api_key_required = yes\n\
               orders.api_key = o-key\n";
    let c = Config::load(raw);
    assert_eq!(c.org_name, "demo-org");
    assert_eq!(c.request_id_header, "x-req");
    assert_eq!(c.trace_id_header, "x-tr");
    assert_eq!(c.auth_header, "x-key");
    assert!(!c.users.api_key_required);
    assert_eq!(c.users.api_key, "u-key");
    assert!(c.orders.api_key_required);
    assert_eq!(c.orders.api_key, "o-key");
    assert_eq!(c.users.policy_profile, "protected");
    assert_eq!(c.orders.policy_profile, "public");
}

#[test]
fn load_later_line_wins() {
    let c = Config::load("org_name=first\norg_name=second");
    assert_eq!(c.org_name, "second");
}

#[test]
fn load_concatenation_reads_in_order() {
    let a = "org_name = a\nusers.api_key = k1";
    let b = "users.api_key = k2\nauth_header = h";
    let joined = format!("{}\n{}", a, b);
    let c = Config::load(&joined);
    assert_eq!(c.org_name, "a");
    assert_eq!(c.users.api_key, "k2");
    assert_eq!(c.auth_header, "h");
}

#[test]
fn load_splits_at_first_equals_and_trims() {
    let c = Config::load("  org_name\t=  a=b  \r\n");
    assert_eq!(c.org_name, "a=b");
}

#[test]
fn load_ignores_unknown_keys_and_profile_keys() {
    let c = Config::load("users.policy_profile = open\nfoo = bar\n=value\n");
    assert_defaults(&c);
}

#[test]
fn load_empty_value_is_kept() {
    let c = Config::load("org_name =\n");
    assert_eq!(c.org_name, "");
}

#[test]
fn load_unicode_whitespace_is_trimmed() {
    let c = Config::load("\u{3000}org_name = \u{a0}wide\u{2003}\n");
    assert_eq!(c.org_name, "wide");
}

#[test]
fn load_comment_after_trim() {
    let c = Config::load("   # org_name = hidden\norg_name = shown # not a comment");
    assert_eq!(c.org_name, "shown # not a comment");
}

#[test]
fn load_bool_words() {
    assert!(!Config::load("users.api_key_required = TRUE").users.api_key_required);
    assert!(Config::load("orders.api_key_required = on").orders.api_key_required);
    assert!(Config::load("orders.api_key_required = 1").orders.api_key_required);
    assert!(!Config::load("users.api_key_required = 0").users.api_key_required);
}

#[test]
fn parse_bool_words() {
    assert!(parse_bool("1"));
    assert!(parse_bool("true"));
    assert!(parse_bool("yes"));
    assert!(parse_bool("on"));
    assert!(!parse_bool("True"));
    assert!(!parse_bool("off"));
    assert!(!parse_bool(""));
    assert!(!parse_bool(" yes"));
}

#[test]
fn config_clone_keeps_values() {
    let c = Config::load("org_name = cloned");
    let d = c.clone();
    assert_eq!(d.org_name, "cloned");
    assert_eq!(d.users.api_key, "users-secret");
}

#[test]
fn unauthorized_body_exact() {
    assert_eq!(
        unauthorized("users", "req-1", "trace-1"),
        "{\"error\":{\"code\":\"unauthorized\",\"message\":\"missing or invalid API key\",\"route\":\"users\",\"request_id\":\"req-1\",\"trace_id\":\"trace-1\"}}"
    );
}

#[test]
fn unauthorized_body_escapes_values() {
    assert_eq!(
        unauthorized("a\"b", "", "t"),
        "{\"error\":{\"code\":\"unauthorized\",\"message\":\"missing or invalid API key\",\"route\":\"a\\\"b\",\"request_id\":\"\",\"trace_id\":\"t\"}}"
    );
}

#[test]
fn unauthorized_body_escapes_backslash_and_controls() {
    let body = unauthorized("r", "x\\y\n\u{1}", "\t\u{1f}\u{8}\u{c}\r\u{7f}é");
    assert_eq!(
        body,
        "{\"error\":{\"code\":\"unauthorized\",\"message\":\"missing or invalid API key\",\"route\":\"r\",\"request_id\":\"x\\\\y\\n\\u0001\",\"trace_id\":\"\\t\\u001f\\b\\f\\r\u{7f}é\"}}"
    );
}

#[test]
fn unauthorized_body_client_quote_cannot_add_keys() {
    let body = unauthorized("users", "a\",\"admin\":\"yes", "t");
    assert!(body.contains("\"request_id\":\"a\\\",\\\"admin\\\":\\\"yes\""));
    assert!(!body.contains("\"admin\":"));
}

#[test]
fn ensure_keeps_non_empty_value() {
    assert_eq!(ensure_or_generate(Some("abc".to_string()), "req", 7), "abc");
}

#[test]
fn ensure_generates_for_empty_or_missing() {
    assert_eq!(ensure_or_generate(Some(String::new()), "req", 7), "req-7");
    assert_eq!(ensure_or_generate(None, "trace", 0), "trace-0");
    assert_eq!(ensure_or_generate(None, "req", 4294967295), "req-4294967295");
    assert_eq!(ensure_or_generate(None, "", 120), "-120");
}

#[test]
fn ensure_is_idempotent() {
    let first = ensure_or_generate(None, "req", 3);
    let again = ensure_or_generate(Some(first.clone()), "req", 99);
    assert_eq!(first, again);
}

#[test]
fn generated_ids_differ_between_contexts() {
    assert_ne!(ensure_or_generate(None, "req", 1), ensure_or_generate(None, "req", 11));
    assert_ne!(ensure_or_generate(None, "req", 12), ensure_or_generate(None, "req", 21));
}

#[test]
fn decimal_rendering() {
    assert_eq!(decimal_string(0), "0");
    assert_eq!(decimal_string(9), "9");
    assert_eq!(decimal_string(10), "10");
    assert_eq!(decimal_string(1234567890), "1234567890");
    assert_eq!(decimal_string(u32::MAX), u32::MAX.to_string());
}

#[test]
fn text_helpers() {
    assert!(str_eq("abc", "abc"));
    assert!(!str_eq("abc", "abd"));
    assert!(!str_eq("ab", "abc"));
    assert!(starts_with("/users/10", "/users/"));
    assert!(!starts_with("/users", "/users/"));
    assert!(starts_with("", ""));
}

#[test]
fn route_from_path() {
    assert_eq!(Route::from_path("/users/10"), Route::Users);
    assert_eq!(Route::from_path("/users/"), Route::Users);
    assert_eq!(Route::from_path("/orders/99"), Route::Orders);
    assert_eq!(Route::from_path("/users"), Route::Unknown);
    assert_eq!(Route::from_path("/health"), Route::Unknown);
    assert_eq!(Route::from_path(""), Route::Unknown);
    assert_eq!(Route::from_path("/Users/1"), Route::Unknown);
}

#[test]
fn route_names() {
    assert_eq!(Route::Users.as_str(), "users");
    assert_eq!(Route::Orders.as_str(), "orders");
    assert_eq!(Route::Unknown.as_str(), "unknown");
}

#[test]
fn route_of_own_path() {
    for r in [Route::Users, Route::Orders] {
        let p = format!("/{}/anything/at/all", r.as_str());
        assert_eq!(Route::from_path(&p), r);
    }
}

#[test]
fn route_policy_lookup() {
    let c = Config::default();
    assert_eq!(Route::Users.policy(&c).unwrap().api_key, "users-secret");
    assert_eq!(Route::Orders.policy(&c).unwrap().policy_profile, "public");
    assert!(Route::Unknown.policy(&c).is_none());
}

#[test]
fn load_ignores_inserted_ignorable_lines() {
    let base = "org_name = a\nusers.api_key = k";
    let padded = "  \n# note\norg_name = a\nno equals here\nfoo.bar = 1\n\nusers.api_key = k\n# end";
    let x = Config::load(base);
    let y = Config::load(padded);
    assert_eq!(x.org_name, y.org_name);
    assert_eq!(x.users.api_key, y.users.api_key);
    assert_eq!(x.users.api_key_required, y.users.api_key_required);
    assert_eq!(x.auth_header, y.auth_header);
    assert_eq!(x.orders.api_key, y.orders.api_key);
}
