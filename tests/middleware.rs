use std::collections::HashMap;
use std::sync::Arc;

use user_server::message::{Method, Request};
use user_server::middleware::{Event, Logger, Router, Service};
use user_server::router::Route;

fn chain() -> Logger<Router> {
    Logger::new(Router::new(Arc::new(HashMap::new())))
}

fn request(method: Method, uri: &str, path: &str) -> Request {
    Request {
        method,
        uri: uri.to_string(),
        path: path.to_string(),
        headers: Vec::new(),
    }
}

fn logged(e: &Event) -> Option<(String, String, String)> {
    match e {
        Event::Logged { method, uri, path } => {
            let m = match method {
                Method::Get => "GET".to_string(),
                Method::Post => "POST".to_string(),
                Method::Extension(t) => t.clone(),
                _ => "OTHER".to_string(),
            };
            Some((m, uri.clone(), path.clone()))
        }
        Event::Dispatched(_) => None,
    }
}

#[test]
fn one_log_entry_before_dispatch() {
    let mut svc = chain();
    let mut trace = Vec::new();
    let r = svc.call(request(Method::Get, "/get-user?id=3", "/get-user"), &mut trace).ok().unwrap();
    assert_eq!((r.status, r.body.as_str()), (200, "get user!"));
    assert_eq!(trace.len(), 2);
    assert_eq!(
        logged(&trace[0]),
        Some(("GET".to_string(), "/get-user?id=3".to_string(), "/get-user".to_string()))
    );
    assert!(matches!(trace[1], Event::Dispatched(Route::GetUser)));
}

#[test]
fn unmatched_request_is_logged_too() {
    let mut svc = chain();
    let mut trace = Vec::new();
    let r = svc.call(request(Method::Extension("PURGE".to_string()), "/x", "/x"), &mut trace).ok().unwrap();
    assert_eq!((r.status, r.body.as_str()), (404, "404 NOT FOUND"));
    assert_eq!(trace.len(), 2);
    assert_eq!(logged(&trace[0]), Some(("PURGE".to_string(), "/x".to_string(), "/x".to_string())));
    assert!(matches!(trace[1], Event::Dispatched(Route::NotFound)));
}

#[test]
fn log_entries_follow_request_order() {
    let mut svc = chain();
    let mut trace = Vec::new();
    svc.call(request(Method::Post, "/create-user", "/create-user"), &mut trace).ok().unwrap();
    svc.call(request(Method::Get, "/nope", "/nope"), &mut trace).ok().unwrap();
    assert_eq!(trace.len(), 4);
    assert_eq!(logged(&trace[0]).unwrap().0, "POST");
    assert!(matches!(trace[1], Event::Dispatched(Route::CreateUser)));
    assert_eq!(logged(&trace[2]).unwrap().2, "/nope");
    assert!(matches!(trace[3], Event::Dispatched(Route::NotFound)));
}

#[test]
fn nested_loggers_pass_through() {
    let mut svc = Logger::new(chain());
    let mut trace = Vec::new();
    let r = svc.call(request(Method::Put, "/modify-user", "/modify-user"), &mut trace).ok().unwrap();
    assert_eq!((r.status, r.body.as_str()), (200, "modify  user!"));
    assert_eq!(trace.len(), 3);
    assert!(logged(&trace[0]).is_some());
    assert!(logged(&trace[1]).is_some());
    assert!(matches!(trace[2], Event::Dispatched(Route::ModifyUser)));
    assert!(svc.poll_ready());
}

#[test]
fn method_clone_keeps_extension_token() {
    let m = Method::Extension("PROPFIND".to_string());
    match m.clone() {
        Method::Extension(t) => assert_eq!(t, "PROPFIND"),
        _ => panic!("clone changed the method"),
    }
}
