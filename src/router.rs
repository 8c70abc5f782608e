//! Exact-match dispatch from (method, path) to a handler.
use vstd::prelude::*;

use crate::handlers::{create_user, delete_user, get_user, modify_user, Db};
use crate::message::{HandlerError, Method, Request, Response, ResponseView};

verus! {

pub const OK: u16 = 200;

pub const NOT_FOUND: u16 = 404;

pub const INTERNAL_SERVER_ERROR: u16 = 500;

/// Where a request is dispatched.
#[derive(PartialEq, Eq, Structural, Clone, Copy, Debug)]
pub enum Route {
    CreateUser,
    GetUser,
    DeleteUser,
    ModifyUser,
    NotFound,
}

/// The route for a method and a path: both must match a registered pair
/// exactly.
pub open spec fn route_of(method: Method, path: Seq<char>) -> Route {
    if method is Post && path == "/create-user"@ {
        Route::CreateUser
    } else if method is Get && path == "/get-user"@ {
        Route::GetUser
    } else if method is Delete && path == "/delete-user"@ {
        Route::DeleteUser
    } else if method is Put && path == "/modify-user"@ {
        Route::ModifyUser
    } else {
        Route::NotFound
    }
}

/// Whether (method, path) is one of the four registered pairs.
pub open spec fn is_registered(method: Method, path: Seq<char>) -> bool {
    ||| (method is Post && path == "/create-user"@)
    ||| (method is Get && path == "/get-user"@)
    ||| (method is Delete && path == "/delete-user"@)
    ||| (method is Put && path == "/modify-user"@)
}

pub open spec fn not_found_body() -> Seq<char> {
    "404 NOT FOUND"@
}

pub open spec fn server_error_body() -> Seq<char> {
    "500 INTERNAL SERVER ERROR"@
}

/// The acknowledgement body of each registered route.
pub open spec fn route_body(route: Route) -> Seq<char> {
    match route {
        Route::CreateUser => "user created!"@,
        Route::GetUser => "get user!"@,
        Route::DeleteUser => "delete user!"@,
        Route::ModifyUser => "modify  user!"@,
        Route::NotFound => not_found_body(),
    }
}

/// The response to a request that reached `route`.
pub open spec fn route_response(route: Route) -> ResponseView {
    ResponseView {
        status: if route == Route::NotFound { NOT_FOUND } else { OK },
        body: route_body(route),
    }
}

fn path_is(path: &String, expected: &str) -> (r: bool)
    ensures
        r == (path@ == expected@),
{
    let p = path.as_str();
    let n = p.unicode_len();
    if n != expected.unicode_len() {
        return false;
    }
    let mut i: usize = 0;
    while i < n
        invariant
            n == p@.len(),
            n == expected@.len(),
            p@ == path@,
            0 <= i <= n,
            forall|j: int| 0 <= j < i ==> p@[j] == expected@[j],
        decreases n - i,
    {
        if p.get_char(i) != expected.get_char(i) {
            return false;
        }
        i = i + 1;
    }
    assert(p@ =~= expected@);
    true
}

/// Picks the route of a method and a path.
pub fn route(method: &Method, path: &String) -> (r: Route)
    ensures
        r == route_of(*method, path@),
{
    match method {
        Method::Post => if path_is(path, "/create-user") { Route::CreateUser } else { Route::NotFound },
        Method::Get => if path_is(path, "/get-user") { Route::GetUser } else { Route::NotFound },
        Method::Delete => if path_is(path, "/delete-user") { Route::DeleteUser } else { Route::NotFound },
        Method::Put => if path_is(path, "/modify-user") { Route::ModifyUser } else { Route::NotFound },
        _ => Route::NotFound,
    }
}

/// The fixed response for a request that matches no route.
pub fn not_found() -> (r: Response)
    ensures
        r@ == route_response(Route::NotFound),
{
    Response { status: NOT_FOUND, body: "404 NOT FOUND".to_owned() }
}

/// Dispatches a request to its handler, or answers 404 when no route matches.
pub fn handle_request(req: Request, db: &Db) -> (r: Result<Response, HandlerError>)
    ensures
        r is Ok,
        r->Ok_0@ == route_response(route_of(req.method, req.path@)),
{
    match route(&req.method, &req.path) {
        Route::CreateUser => create_user(req, db),
        Route::GetUser => get_user(req),
        Route::DeleteUser => delete_user(req),
        Route::ModifyUser => modify_user(req),
        Route::NotFound => Ok(not_found()),
    }
}

/// Turns the outcome of a handler into the response sent back: a handler error
/// becomes a 500 response instead of reaching the connection.
pub fn respond(outcome: Result<Response, HandlerError>) -> (r: Response)
    ensures
        outcome is Ok ==> r == outcome->Ok_0,
        outcome is Err ==> r@ == (ResponseView { status: INTERNAL_SERVER_ERROR, body: server_error_body() }),
{
    match outcome {
        Ok(resp) => resp,
        Err(_) => Response { status: INTERNAL_SERVER_ERROR, body: "500 INTERNAL SERVER ERROR".to_owned() },
    }
}

} // verus!

verus! {

/// Any pair of method and path outside the four registered ones, including a
/// registered path under another method and a registered method on another
/// path, is answered 404 with the fixed not-found body.
pub proof fn lemma_unregistered_is_not_found(method: Method, path: Seq<char>)
    requires
        !is_registered(method, path),
    ensures
        route_of(method, path) == Route::NotFound,
        route_response(route_of(method, path)) == (ResponseView { status: NOT_FOUND, body: not_found_body() }),
{
}

/// Each registered pair is answered 200 with its route's fixed body, and two
/// requests that agree on method and path get the same response whatever
/// their other contents (the headers).
pub proof fn lemma_registered_is_ok(a: Request, b: Request)
    requires
        is_registered(a.method, a.path@),
        a.method == b.method,
        a.path@ == b.path@,
    ensures
        route_of(a.method, a.path@) != Route::NotFound,
        route_response(route_of(a.method, a.path@)).status == OK,
        route_response(route_of(a.method, a.path@)).body == route_body(route_of(a.method, a.path@)),
        route_response(route_of(a.method, a.path@)) == route_response(route_of(b.method, b.path@)),
{
}

} // verus!
