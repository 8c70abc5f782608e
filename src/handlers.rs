//! The user-resource handlers. Each answers with a fixed acknowledgement.
use vstd::prelude::*;

use crate::message::{HandlerError, Request, Response};
use crate::router::{route_response, Route, OK};

verus! {

/// State shared read-only by every connection.
pub type Db = std::sync::Arc<std::collections::HashMap<String, String>>;

/// A user record as clients send it. No handler reads one yet.
pub struct User {
    pub username: String,
    pub password: String,
}

/// Creates a user.
pub fn create_user(_req: Request, _db: &Db) -> (r: Result<Response, HandlerError>)
    ensures
        r is Ok,
        r->Ok_0@ == route_response(Route::CreateUser),
{
    Ok(Response { status: OK, body: "user created!".to_owned() })
}

/// Reads a user.
pub fn get_user(_req: Request) -> (r: Result<Response, HandlerError>)
    ensures
        r is Ok,
        r->Ok_0@ == route_response(Route::GetUser),
{
    Ok(Response { status: OK, body: "get user!".to_owned() })
}

/// Deletes a user.
pub fn delete_user(_req: Request) -> (r: Result<Response, HandlerError>)
    ensures
        r is Ok,
        r->Ok_0@ == route_response(Route::DeleteUser),
{
    Ok(Response { status: OK, body: "delete user!".to_owned() })
}

/// Modifies a user.
pub fn modify_user(_req: Request) -> (r: Result<Response, HandlerError>)
    ensures
        r is Ok,
        r->Ok_0@ == route_response(Route::ModifyUser),
{
    Ok(Response { status: OK, body: "modify  user!".to_owned() })
}

} // verus!
