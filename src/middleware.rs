//! Request-handling services and the logging layer that wraps one.
use vstd::prelude::*;

use crate::handlers::Db;
use crate::message::{HandlerError, Method, Request, Response};
use crate::router::{handle_request, route_of, route_response, Route};

verus! {

/// What a service records while it handles a request.
#[derive(Debug)]
pub enum Event {
    /// A logging layer saw a request.
    Logged { method: Method, uri: String, path: String },
    /// The router handed a request to the handler of a route.
    Dispatched(Route),
}

/// A stage of request handling. A stage either answers a request itself or
/// passes it on to the next stage that it wraps.
pub trait Service: Sized {
    /// Whether the service can take a request now.
    spec fn ready(&self) -> bool;

    /// Whether `r` is an answer the service may give to `req`.
    spec fn answers(&self, req: Request, r: Result<Response, HandlerError>) -> bool;

    /// The events that handling `req` records, in order.
    spec fn events(&self, req: Request) -> Seq<Event>;

    fn poll_ready(&mut self) -> (r: bool)
        ensures
            r == old(self).ready(),
            *final(self) == *old(self);

    fn call(&mut self, req: Request, trace: &mut Vec<Event>) -> (r: Result<Response, HandlerError>)
        ensures
            old(self).answers(req, r),
            final(trace)@ == old(trace)@ + old(self).events(req);
}

/// The router as a service, bound to the shared state.
pub struct Router {
    pub db: Db,
}

impl Router {
    pub fn new(db: Db) -> (r: Self)
        ensures
            r.db == db,
    {
        Router { db }
    }
}

impl Service for Router {
    open spec fn ready(&self) -> bool {
        true
    }

    open spec fn answers(&self, req: Request, r: Result<Response, HandlerError>) -> bool {
        &&& r is Ok
        &&& r->Ok_0@ == route_response(route_of(req.method, req.path@))
    }

    open spec fn events(&self, req: Request) -> Seq<Event> {
        seq![Event::Dispatched(route_of(req.method, req.path@))]
    }

    fn poll_ready(&mut self) -> (r: bool) {
        true
    }

    fn call(&mut self, req: Request, trace: &mut Vec<Event>) -> (r: Result<Response, HandlerError>) {
        let route = crate::router::route(&req.method, &req.path);
        trace.push(Event::Dispatched(route));
        handle_request(req, &self.db)
    }
}

/// A logging layer: records one observation of each request, then passes it on
/// unchanged and hands back the inner answer unchanged.
pub struct Logger<S> {
    pub inner: S,
}

/// The observation that the logging layer records for `req`.
pub open spec fn log_entry(req: Request) -> Event {
    Event::Logged { method: req.method, uri: req.uri, path: req.path }
}

impl<S> Logger<S> {
    pub fn new(inner: S) -> (r: Self)
        ensures
            r.inner == inner,
    {
        Logger { inner }
    }
}

impl<S: Service> Service for Logger<S> {
    open spec fn ready(&self) -> bool {
        self.inner.ready()
    }

    open spec fn answers(&self, req: Request, r: Result<Response, HandlerError>) -> bool {
        self.inner.answers(req, r)
    }

    open spec fn events(&self, req: Request) -> Seq<Event> {
        seq![log_entry(req)] + self.inner.events(req)
    }

    fn poll_ready(&mut self) -> (r: bool) {
        self.inner.poll_ready()
    }

    fn call(&mut self, req: Request, trace: &mut Vec<Event>) -> (r: Result<Response, HandlerError>) {
        trace.push(Event::Logged { method: req.method.clone(), uri: req.uri.clone(), path: req.path.clone() });
        let r = self.inner.call(req, trace);
        r
    }
}

} // verus!

verus! {

/// A request through the logging layer in front of the router leaves exactly
/// one log observation, which carries its method and path and is recorded
/// before the request is dispatched; this holds for unmatched requests too.
pub proof fn lemma_logged_once_before_dispatch(chain: Logger<Router>, req: Request)
    ensures
        chain.events(req).len() == 2,
        chain.events(req)[0] == log_entry(req),
        chain.events(req)[1] == Event::Dispatched(route_of(req.method, req.path@)),
        forall|i: int| 0 <= i < chain.events(req).len() && (#[trigger] chain.events(req)[i]) is Logged ==> i == 0,
        log_entry(req) matches Event::Logged { method, path, .. } && method == req.method && path == req.path,
{
    let events = chain.events(req);
    assert(events =~= seq![log_entry(req), Event::Dispatched(route_of(req.method, req.path@))]);
}

} // verus!
