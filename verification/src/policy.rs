//! Route classification and the policy that applies to each route.
use vstd::prelude::*;

use crate::config::{Config, ConfigView, RoutePolicy, RoutePolicyView};
use crate::text::{has_prefix, starts_with};

verus! {

/// The routes that the gateway tells apart.
#[derive(Clone, Copy, Debug, PartialEq, Eq, Structural)]
pub enum Route {
    Users,
    Orders,
    Unknown,
}

/// The route of a request path: `/users/...` and `/orders/...` are known, every
/// other path is unknown.
pub open spec fn route_of_path(path: Seq<char>) -> Route {
    if has_prefix(path, "/users/"@) {
        Route::Users
    } else if has_prefix(path, "/orders/"@) {
        Route::Orders
    } else {
        Route::Unknown
    }
}

/// The name under which a route is reported.
pub open spec fn route_name(route: Route) -> Seq<char> {
    match route {
        Route::Users => "users"@,
        Route::Orders => "orders"@,
        Route::Unknown => "unknown"@,
    }
}

/// The policy of a route under `cfg`; unknown routes have none.
pub open spec fn route_policy(route: Route, cfg: ConfigView) -> Option<RoutePolicyView> {
    match route {
        Route::Users => Some(cfg.users),
        Route::Orders => Some(cfg.orders),
        Route::Unknown => None,
    }
}

impl Route {
    /// Classifies a request path.
    pub fn from_path(path: &str) -> (route: Self)
        ensures
            route == route_of_path(path@),
    {
        if starts_with(path, "/users/") {
            Route::Users
        } else if starts_with(path, "/orders/") {
            Route::Orders
        } else {
            Route::Unknown
        }
    }

    /// The route's name.
    pub fn as_str(&self) -> (name: &'static str)
        ensures
            name@ == route_name(*self),
    {
        match self {
            Route::Users => "users",
            Route::Orders => "orders",
            Route::Unknown => "unknown",
        }
    }

    /// The policy in `config` that governs this route, if any.
    pub fn policy<'a>(&self, config: &'a Config) -> (policy: Option<&'a RoutePolicy>)
        ensures
            policy is Some <==> route_policy(*self, config@) is Some,
            policy matches Some(p) ==> route_policy(*self, config@) == Some(p@),
            *self == Route::Users ==> policy == Some(&config.users),
            *self == Route::Orders ==> policy == Some(&config.orders),
    {
        match self {
            Route::Users => Some(&config.users),
            Route::Orders => Some(&config.orders),
            Route::Unknown => None,
        }
    }
}

/// A known route is recovered from any path under its own name: the path
/// `/<name>/<rest>` is classified as the route called `<name>`.
pub proof fn law_route_of_own_path(route: Route, rest: Seq<char>)
    requires
        route != Route::Unknown,
    ensures
        route_of_path("/"@ + route_name(route) + "/"@ + rest) == route,
{
    reveal_strlit("/");
    reveal_strlit("users");
    reveal_strlit("orders");
    reveal_strlit("/users/");
    reveal_strlit("/orders/");
    let p = "/"@ + route_name(route) + "/"@ + rest;
    if route == Route::Users {
        assert(p.subrange(0, 7) =~= "/users/"@);
    } else {
        assert(p.subrange(0, 8) =~= "/orders/"@);
        assert(p.subrange(0, 7) != "/users/"@) by {
            assert(p.subrange(0, 7)[1] != "/users/"@[1]);
        }
    }
}

/// The routes are reported under pairwise different names.
pub proof fn law_route_names_distinct(a: Route, b: Route)
    requires
        route_name(a) == route_name(b),
    ensures
        a == b,
{
    reveal_strlit("users");
    reveal_strlit("orders");
    reveal_strlit("unknown");
    assert("users"@.len() == 5);
    assert("orders"@.len() == 6);
    assert("unknown"@.len() == 7);
}

/// A path is classified as a known route only under that route's own prefix,
/// slash included: `/users/...` for users and `/orders/...` for orders. Paths
/// such as `/orders`, `/ordersx` or `/orders-archive/1` are unknown.
pub proof fn law_known_route_has_its_prefix(path: Seq<char>)
    ensures
        route_of_path(path) == Route::Users <==> (path.len() >= 7 && path.subrange(0, 7)
            == seq!['/', 'u', 's', 'e', 'r', 's', '/']),
        route_of_path(path) == Route::Orders ==> (path.len() >= 8 && path.subrange(0, 8)
            == seq!['/', 'o', 'r', 'd', 'e', 'r', 's', '/']),
        (path.len() >= 8 && path.subrange(0, 8) == seq!['/', 'o', 'r', 'd', 'e', 'r', 's', '/'])
            ==> route_of_path(path) == Route::Orders,
        (path.len() < 8 || path[7] != '/') ==> route_of_path(path) != Route::Orders,
        (path.len() < 7 || path[6] != '/') ==> route_of_path(path) != Route::Users,
{
    reveal_strlit("/users/");
    reveal_strlit("/orders/");
    assert("/users/"@ =~= seq!['/', 'u', 's', 'e', 'r', 's', '/']);
    assert("/orders/"@ =~= seq!['/', 'o', 'r', 'd', 'e', 'r', 's', '/']);
    if path.len() >= 8 && path.subrange(0, 8) == seq!['/', 'o', 'r', 'd', 'e', 'r', 's', '/'] {
        assert(path[1] == 'o');
        assert(path.subrange(0, 7)[1] == 'o');
    }
    if path.len() >= 7 && path.subrange(0, 7) == seq!['/', 'u', 's', 'e', 'r', 's', '/'] {
        assert(path[6] == '/');
    }
    if path.len() >= 8 && path.subrange(0, 8) == seq!['/', 'o', 'r', 'd', 'e', 'r', 's', '/'] {
        assert(path[6] == 's');
        assert(path[7] == '/');
    }
    if path.len() >= 7 && path[6] != '/' {
        assert(path.subrange(0, 7)[6] != '/');
    }
    if path.len() >= 8 && path[7] != '/' {
        assert(path.subrange(0, 8)[7] != '/');
    }
}

} // verus!
