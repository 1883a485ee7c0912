//! The served path table.
use vstd::prelude::*;

verus! {

#[derive(Clone, Copy, Debug, PartialEq, Eq, Structural)]
pub enum Method {
    Get,
    Post,
}

/// The handlers the service offers.
#[derive(Clone, Copy, Debug, PartialEq, Eq, Structural)]
pub enum Endpoint {
    Health,
    ListItems,
    CreateItem,
    Login,
}

pub open spec fn health_path() -> Seq<char> {
    "/health"@
}

pub open spec fn items_path() -> Seq<char> {
    "/items"@
}

pub open spec fn login_path() -> Seq<char> {
    "/login"@
}

/// The path an endpoint is served at.
pub open spec fn path_of(e: Endpoint) -> Seq<char> {
    match e {
        Endpoint::Health => health_path(),
        Endpoint::ListItems => items_path(),
        Endpoint::CreateItem => items_path(),
        Endpoint::Login => login_path(),
    }
}

/// The method an endpoint answers.
pub open spec fn method_of(e: Endpoint) -> Method {
    match e {
        Endpoint::Health => Method::Get,
        Endpoint::ListItems => Method::Get,
        Endpoint::CreateItem => Method::Post,
        Endpoint::Login => Method::Post,
    }
}

/// Which endpoint, if any, a request with this method and path reaches.
pub open spec fn route_of(method: Method, path: Seq<char>) -> Option<Endpoint> {
    if path == health_path() && method == Method::Get {
        Some(Endpoint::Health)
    } else if path == items_path() && method == Method::Get {
        Some(Endpoint::ListItems)
    } else if path == items_path() && method == Method::Post {
        Some(Endpoint::CreateItem)
    } else if path == login_path() && method == Method::Post {
        Some(Endpoint::Login)
    } else {
        None
    }
}

pub fn endpoint_path(e: Endpoint) -> (r: &'static str)
    ensures
        r@ == path_of(e),
{
    match e {
        Endpoint::Health => "/health",
        Endpoint::ListItems => "/items",
        Endpoint::CreateItem => "/items",
        Endpoint::Login => "/login",
    }
}

pub fn endpoint_method(e: Endpoint) -> (r: Method)
    ensures
        r == method_of(e),
{
    match e {
        Endpoint::Health => Method::Get,
        Endpoint::ListItems => Method::Get,
        Endpoint::CreateItem => Method::Post,
        Endpoint::Login => Method::Post,
    }
}

/// Every endpoint, in the order they are registered.
pub fn endpoints() -> (r: Vec<Endpoint>)
    ensures
        r@ == seq![Endpoint::Health, Endpoint::ListItems, Endpoint::CreateItem, Endpoint::Login],
{
    vec![Endpoint::Health, Endpoint::ListItems, Endpoint::CreateItem, Endpoint::Login]
}

/// Dispatches a request to its endpoint.
pub fn route(method: Method, path: &str) -> (r: Option<Endpoint>)
    ensures
        r == route_of(method, path@),
{
    let p = path.to_owned();
    let is_health = p == "/health".to_owned();
    let is_items = p == "/items".to_owned();
    let is_login = p == "/login".to_owned();
    if is_health && method == Method::Get {
        Some(Endpoint::Health)
    } else if is_items && method == Method::Get {
        Some(Endpoint::ListItems)
    } else if is_items && method == Method::Post {
        Some(Endpoint::CreateItem)
    } else if is_login && method == Method::Post {
        Some(Endpoint::Login)
    } else {
        None
    }
}

/// Each endpoint is reached by its own method and path: the table holds no
/// two entries for one request.
pub proof fn endpoints_are_reachable(e: Endpoint)
    ensures
        route_of(method_of(e), path_of(e)) == Some(e),
{
    reveal_strlit("/health");
    reveal_strlit("/items");
    reveal_strlit("/login");
    assert(health_path()[1] != items_path()[1]);
    assert(health_path()[1] != login_path()[1]);
    assert(items_path()[1] != login_path()[1]);
}

} // verus!
