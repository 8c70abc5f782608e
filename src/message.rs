//! The request and response values that the router and the handlers work on.
use vstd::prelude::*;

verus! {

/// An HTTP request method.
#[derive(Debug)]
pub enum Method {
    Get,
    Post,
    Put,
    Delete,
    Head,
    Options,
    Connect,
    Patch,
    Trace,
    /// Any other method token, as written on the wire.
    Extension(String),
}

impl Clone for Method {
    fn clone(&self) -> (r: Self)
        ensures
            r == *self,
    {
        match self {
            Method::Get => Method::Get,
            Method::Post => Method::Post,
            Method::Put => Method::Put,
            Method::Delete => Method::Delete,
            Method::Head => Method::Head,
            Method::Options => Method::Options,
            Method::Connect => Method::Connect,
            Method::Patch => Method::Patch,
            Method::Trace => Method::Trace,
            Method::Extension(token) => Method::Extension(token.clone()),
        }
    }
}

/// The part of a request that the server looks at.
#[derive(Debug)]
pub struct Request {
    pub method: Method,
    /// The request target as received (path and query).
    pub uri: String,
    /// The path component of the request target.
    pub path: String,
    /// Header names and values, in the order received.
    pub headers: Vec<(String, String)>,
}

/// A response: a status code and a text body.
#[derive(Debug)]
pub struct Response {
    pub status: u16,
    pub body: String,
}

/// A response as a mathematical value.
pub struct ResponseView {
    pub status: u16,
    pub body: Seq<char>,
}

impl View for Response {
    type V = ResponseView;

    open spec fn view(&self) -> ResponseView {
        ResponseView { status: self.status, body: self.body@ }
    }
}

/// The error a handler may fail with.
#[derive(Debug)]
pub struct HandlerError {
    pub message: String,
}

} // verus!
