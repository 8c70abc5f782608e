//! A small HTTP user-resource service: exact-match routing, a logging layer in
//! front of the router, and the accept/shutdown state machine that drives the
//! server loop.

pub mod handlers;
pub mod message;
pub mod middleware;
pub mod router;
pub mod shutdown;

pub use handlers::{create_user, delete_user, get_user, modify_user, Db, User};
