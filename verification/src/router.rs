//! The two routes of the framework variant of the server, and the axum
//! router that serves them.

use axum::routing::get;
use axum::Router;
use vstd::prelude::*;

verus! {

/// What `GET /` answers.
pub const GREETING: &'static str = "Hello from Rust server";

/// What `GET /health` answers.
pub const HEALTHY: &'static str = "OK";

/// A route of the server.
#[derive(Clone, Copy, Debug, PartialEq, Eq, Structural)]
pub enum Route {
    /// `/`, which greets.
    Root,
    /// `/health`, which says that the server is up.
    Health,
}

impl Route {
    /// The path of the route, as a sequence of characters.
    pub open spec fn path_text(self) -> Seq<char> {
        match self {
            Route::Root => "/"@,
            Route::Health => "/health"@,
        }
    }

    /// The text that the route answers with, as a sequence of characters.
    pub open spec fn body_text(self) -> Seq<char> {
        match self {
            Route::Root => GREETING@,
            Route::Health => HEALTHY@,
        }
    }

    /// The path of the route.
    pub fn path(self) -> (r: &'static str)
        ensures
            r@ == self.path_text(),
    {
        match self {
            Route::Root => "/",
            Route::Health => "/health",
        }
    }

    /// The text that the route answers with.
    pub fn body(self) -> (r: &'static str)
        ensures
            r@ == self.body_text(),
    {
        match self {
            Route::Root => handler(),
            Route::Health => ok(),
        }
    }
}

/// The handler of `/`: the greeting.
pub fn handler() -> (r: &'static str)
    ensures
        r@ == GREETING@,
{
    GREETING
}

/// The handler of `/health`.
pub fn ok() -> (r: &'static str)
    ensures
        r@ == HEALTHY@,
{
    HEALTHY
}

/// `axum::Router`, taken as it is: nothing of its inside is known here, and
/// a value of it is only made, extended and handed on.
#[verifier::external_type_specification]
#[verifier::external_body]
#[verifier::reject_recursive_types(S)]
pub struct ExRouter<S>(Router<S>);

/// What a router serves, where it serves fixed texts and nothing else: for
/// each static path on which it answers a `GET`, the text of the answer.
/// `None` for every other router: one with a capture or a wildcard in a
/// path, a handler for another method, a service, a nested router, a
/// fallback of its own or a layer.
pub uninterp spec fn served_texts(router: Router) -> Option<Map<Seq<char>, Seq<char>>>;

/// A table of routes without a route.
pub open spec fn no_routes() -> Map<Seq<char>, Seq<char>> {
    Map::empty()
}

/// `axum::Router::new`: a router that has no route yet, and so answers every
/// request with "404 Not Found".
#[verifier::external_body]
fn empty_router() -> (bare: Router)
    ensures
        served_texts(bare) == Some(no_routes()),
{
    Router::new()
}

/// Is `path` a static path, as axum takes one: does it begin with a slash
/// and hold neither a colon nor an asterisk, which would begin a capture or
/// a wildcard?
pub open spec fn is_static_path(path: Seq<char>) -> bool {
    path.len() > 0 && path[0] == '/' && forall|i: int|
        0 <= i < path.len() ==> #[trigger] path[i] != ':' && path[i] != '*'
}

/// `axum::Router::route` with a handler wrapped by `axum::routing::get`: the
/// router has one more route, at `path`, which answers a `GET` with `body`.
/// The handler is a closure whose future is ready at once. Axum panics on a
/// path that does not begin with a slash, on a capture or a wildcard that it
/// cannot place, and where the router has a `GET` route at the path already;
/// all three are left out here.
#[verifier::external_body]
fn with_route(router: Router, path: &'static str, body: &'static str) -> (extended: Router)
    requires
        served_texts(router) is Some,
        is_static_path(path@),
        !served_texts(router)->0.dom().contains(path@),
    ensures
        served_texts(extended) == Some(served_texts(router)->0.insert(path@, body@)),
{
    router.route(path, get(move || std::future::ready(body)))
}

/// What the server's router answers to a `GET`, by path.
pub open spec fn fixed_routes() -> Map<Seq<char>, Seq<char>> {
    no_routes().insert(Route::Root.path_text(), Route::Root.body_text()).insert(
        Route::Health.path_text(),
        Route::Health.body_text(),
    )
}

/// The two routes are apart, their paths are static ones, and the table of
/// the server's router holds them and no other path.
pub proof fn lemma_fixed_routes()
    ensures
        Route::Root.path_text() != Route::Health.path_text(),
        is_static_path(Route::Root.path_text()),
        is_static_path(Route::Health.path_text()),
        fixed_routes().dom() =~= set![Route::Root.path_text(), Route::Health.path_text()],
        fixed_routes()[Route::Root.path_text()] == GREETING@,
        fixed_routes()[Route::Health.path_text()] == HEALTHY@,
{
    reveal_strlit("/");
    reveal_strlit("/health");
    assert(Route::Root.path_text().len() != Route::Health.path_text().len());
}

/// The router of the server: `/` greets, `/health` says `OK`, and there is
/// no other route.
pub fn router() -> (r: Router)
    ensures
        served_texts(r) == Some(fixed_routes()),
{
    proof {
        lemma_fixed_routes();
    }
    let bare = empty_router();
    let greeting = with_route(bare, Route::Root.path(), Route::Root.body());
    with_route(greeting, Route::Health.path(), Route::Health.body())
}

} // verus!
