//! The route table, built once from the configuration, and the dispatch of
//! each request to the service that serves it.
use vstd::prelude::*;
use crate::config::{ProxyConfig, ServerConfig, WebConfig};
use crate::text::{chars_of, occurs_at, occurs_at_exec};

verus! {

/// The services a request can be routed to.
#[derive(Clone, Copy, Debug, PartialEq, Eq, Structural)]
pub enum Service {
    WebSocketProxy,
    TcpProxy,
    ReverseProxy,
    Api,
    Web,
}

/// The request methods the routes tell apart.
#[derive(Clone, Copy, Debug, PartialEq, Eq, Structural)]
pub enum Method {
    Get,
    Head,
    Post,
    Other,
}

/// One entry of the route table: an exact path, or with `catch_all` every
/// path that starts with `pattern`.
pub struct Route {
    pub pattern: String,
    pub catch_all: bool,
    pub method: Method,
    pub service: Service,
}

/// A route as plain values: pattern, catch-all, method, service.
pub type RouteView = (Seq<char>, bool, Method, Service);

impl View for Route {
    type V = RouteView;

    open spec fn view(&self) -> RouteView {
        (self.pattern@, self.catch_all, self.method, self.service)
    }
}

/// Where a request goes.
#[derive(Clone, Copy, Debug, PartialEq, Eq, Structural)]
pub enum Dispatch {
    Serve(Service),
    /// Some route has the path, none of them the method.
    MethodNotAllowed,
    /// No route has the path: the default not-found page answers.
    NotFound,
}

/// The path under which every sub-path of `p` is routed.
pub open spec fn catch_all_prefix(p: Seq<char>) -> Seq<char> {
    if p.len() > 0 && p.last() == '/' { p } else { p.push('/') }
}

pub open spec fn exact_route(c: Option<ProxyConfig>, m: Method, s: Service) -> Seq<RouteView> {
    match c {
        Some(p) => seq![(p.path@, false, m, s)],
        None => Seq::empty(),
    }
}

pub open spec fn catch_all_route(c: Option<ProxyConfig>, m: Method, s: Service) -> Seq<RouteView> {
    match c {
        Some(p) => seq![(catch_all_prefix(p.path@), true, m, s)],
        None => Seq::empty(),
    }
}

pub open spec fn web_route(c: Option<WebConfig>, catch_all: bool) -> Seq<RouteView> {
    match c {
        Some(w) => seq![(if catch_all { catch_all_prefix(w.path@) } else { w.path@ }, catch_all, Method::Get, Service::Web)],
        None => Seq::empty(),
    }
}

/// The routes of a configuration: each configured backend's path, the API
/// endpoint, the web application's path, and then the catch-all routes
/// under the reverse proxy and the web application.
pub open spec fn route_table(c: ServerConfig) -> Seq<RouteView> {
    exact_route(c.websocket_proxy, Method::Post, Service::WebSocketProxy)
        + exact_route(c.tcp_proxy, Method::Post, Service::TcpProxy)
        + exact_route(c.reverse_proxy, Method::Get, Service::ReverseProxy)
        + seq![("/api"@, false, Method::Post, Service::Api)]
        + web_route(c.web, false)
        + catch_all_route(c.reverse_proxy, Method::Get, Service::ReverseProxy)
        + web_route(c.web, true)
}

pub open spec fn route_matches(r: RouteView, path: Seq<char>) -> bool {
    if r.1 { occurs_at(path, r.0, 0) } else { path == r.0 }
}

/// A GET route also answers HEAD.
pub open spec fn method_allows(route: Method, m: Method) -> bool {
    m == route || (route == Method::Get && m == Method::Head)
}

/// The service of the first route that has both the path and the method.
pub open spec fn first_serving(t: Seq<RouteView>, m: Method, path: Seq<char>) -> Option<Service>
    decreases t.len(),
{
    if t.len() == 0 {
        None
    } else if route_matches(t[0], path) && method_allows(t[0].2, m) {
        Some(t[0].3)
    } else {
        first_serving(t.drop_first(), m, path)
    }
}

pub open spec fn dispatch_spec(t: Seq<RouteView>, m: Method, path: Seq<char>) -> Dispatch {
    match first_serving(t, m, path) {
        Some(s) => Dispatch::Serve(s),
        None => if exists|i: int| 0 <= i < t.len() && route_matches(t[i], path) {
            Dispatch::MethodNotAllowed
        } else {
            Dispatch::NotFound
        },
    }
}

fn catch_all_pattern(p: &String) -> (r: String)
    ensures
        r@ == catch_all_prefix(p@),
{
    let v = chars_of(p.as_str());
    if v.len() > 0 && v[v.len() - 1] == '/' {
        p.clone()
    } else {
        let mut r = p.clone();
        r.append("/");
        proof {
            reveal_strlit("/");
        }
        assert(r@ =~= p@.push('/'));
        r
    }
}

/// Builds the route table of a configuration.
pub fn build_routes(c: &ServerConfig) -> (r: Vec<Route>)
    ensures
        r@.map_values(|x: Route| x@) == route_table(*c),
{
    let mut r: Vec<Route> = Vec::new();
    let ghost t0 = r@.map_values(|x: Route| x@);
    assert(t0 =~= Seq::<RouteView>::empty());
    if let Some(p) = &c.websocket_proxy {
        r.push(Route { pattern: p.path.clone(), catch_all: false, method: Method::Post, service: Service::WebSocketProxy });
    }
    let ghost t1 = exact_route(c.websocket_proxy, Method::Post, Service::WebSocketProxy);
    assert(r@.map_values(|x: Route| x@) =~= t1);
    if let Some(p) = &c.tcp_proxy {
        r.push(Route { pattern: p.path.clone(), catch_all: false, method: Method::Post, service: Service::TcpProxy });
    }
    let ghost t2 = t1 + exact_route(c.tcp_proxy, Method::Post, Service::TcpProxy);
    assert(r@.map_values(|x: Route| x@) =~= t2);
    if let Some(p) = &c.reverse_proxy {
        r.push(Route { pattern: p.path.clone(), catch_all: false, method: Method::Get, service: Service::ReverseProxy });
    }
    let ghost t3 = t2 + exact_route(c.reverse_proxy, Method::Get, Service::ReverseProxy);
    assert(r@.map_values(|x: Route| x@) =~= t3);
    r.push(Route { pattern: String::from_str("/api"), catch_all: false, method: Method::Post, service: Service::Api });
    let ghost t4 = t3 + seq![("/api"@, false, Method::Post, Service::Api)];
    assert(r@.map_values(|x: Route| x@) =~= t4);
    if let Some(w) = &c.web {
        r.push(Route { pattern: w.path.clone(), catch_all: false, method: Method::Get, service: Service::Web });
    }
    let ghost t5 = t4 + web_route(c.web, false);
    assert(r@.map_values(|x: Route| x@) =~= t5);
    if let Some(p) = &c.reverse_proxy {
        r.push(Route { pattern: catch_all_pattern(&p.path), catch_all: true, method: Method::Get, service: Service::ReverseProxy });
    }
    let ghost t6 = t5 + catch_all_route(c.reverse_proxy, Method::Get, Service::ReverseProxy);
    assert(r@.map_values(|x: Route| x@) =~= t6);
    if let Some(w) = &c.web {
        r.push(Route { pattern: catch_all_pattern(&w.path), catch_all: true, method: Method::Get, service: Service::Web });
    }
    assert(r@.map_values(|x: Route| x@) =~= route_table(*c));
    r
}

fn route_matches_exec(route: &Route, path: &Vec<char>, path_str: &String) -> (r: bool)
    requires
        path@ == path_str@,
    ensures
        r == route_matches(route@, path@),
{
    if route.catch_all {
        let pattern = chars_of(route.pattern.as_str());
        occurs_at_exec(path, &pattern, 0)
    } else {
        route.pattern == *path_str
    }
}

fn method_allows_exec(route: Method, m: Method) -> (r: bool)
    ensures
        r == method_allows(route, m),
{
    m == route || (route == Method::Get && m == Method::Head)
}

/// Picks the service for a request: the first route with the path and the
/// method; a path that some route has with another method only is refused;
/// a path that no route has goes to the not-found page.
pub fn dispatch(routes: &Vec<Route>, m: Method, path: &str) -> (r: Dispatch)
    ensures
        r == dispatch_spec(routes@.map_values(|x: Route| x@), m, path@),
{
    let ghost t = routes@.map_values(|x: Route| x@);
    let pv = chars_of(path);
    let ps = String::from_str(path);
    let mut seen_path = false;
    let mut i: usize = 0;
    assert(t.skip(0) =~= t);
    while i < routes.len()
        invariant
            t == routes@.map_values(|x: Route| x@),
            pv@ == path@,
            ps@ == path@,
            i <= routes.len(),
            first_serving(t, m, path@) == first_serving(t.skip(i as int), m, path@),
            seen_path <==> exists|j: int| 0 <= j < i && route_matches(t[j], path@),
        decreases routes.len() - i,
    {
        assert(t.skip(i as int).drop_first() =~= t.skip(i + 1));
        assert(t.skip(i as int)[0] == routes@[i as int]@);
        let matched = route_matches_exec(&routes[i], &pv, &ps);
        if matched && method_allows_exec(routes[i].method, m) {
            return Dispatch::Serve(routes[i].service);
        }
        seen_path = seen_path || matched;
        i = i + 1;
    }
    if seen_path {
        Dispatch::MethodNotAllowed
    } else {
        Dispatch::NotFound
    }
}

proof fn lemma_served_from_table(t: Seq<RouteView>, m: Method, path: Seq<char>)
    ensures
        first_serving(t, m, path) matches Some(s) ==> exists|i: int| 0 <= i < t.len() && t[i].3 == s,
    decreases t.len(),
{
    if t.len() > 0 && !(route_matches(t[0], path) && method_allows(t[0].2, m)) {
        lemma_served_from_table(t.drop_first(), m, path);
        if let Some(s) = first_serving(t, m, path) {
            let i = choose|i: int| 0 <= i < t.drop_first().len() && t.drop_first()[i].3 == s;
            assert(t[i + 1].3 == s);
        }
    }
}

/// Without a TCP backend in the configuration no request, whatever its
/// method and path, is routed to the TCP bridge: a path that no other route
/// has gets the default not-found page.
pub proof fn lemma_unconfigured_tcp_not_routed(c: ServerConfig, m: Method, path: Seq<char>)
    requires
        c.tcp_proxy is None,
    ensures
        dispatch_spec(route_table(c), m, path) != Dispatch::Serve(Service::TcpProxy),
        (forall|i: int| 0 <= i < route_table(c).len() ==> !route_matches(route_table(c)[i], path))
            ==> dispatch_spec(route_table(c), m, path) == Dispatch::NotFound,
{
    let t = route_table(c);
    assert(exact_route(c.tcp_proxy, Method::Post, Service::TcpProxy) =~= Seq::<RouteView>::empty());
    assert forall|i: int| 0 <= i < t.len() implies t[i].3 != Service::TcpProxy by {}
    lemma_served_from_table(t, m, path);
    if forall|i: int| 0 <= i < t.len() ==> !route_matches(t[i], path) {
        lemma_nothing_served(t, m, path);
    }
}

proof fn lemma_nothing_served(t: Seq<RouteView>, m: Method, path: Seq<char>)
    requires
        forall|i: int| 0 <= i < t.len() ==> !route_matches(t[i], path),
    ensures
        first_serving(t, m, path) is None,
    decreases t.len(),
{
    if t.len() > 0 {
        assert(!route_matches(t[0], path));
        assert forall|i: int| 0 <= i < t.drop_first().len() implies !route_matches(t.drop_first()[i], path) by {
            assert(t.drop_first()[i] == t[i + 1]);
        }
        lemma_nothing_served(t.drop_first(), m, path);
    }
}

} // verus!
