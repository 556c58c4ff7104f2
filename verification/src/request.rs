use vstd::prelude::*;
use crate::consul_error::ConsulError;
use crate::request_url::{parsed_url, request_url, RequestUrl};

verus! {

/// The HTTP methods that the client uses.
#[derive(Debug, Clone, Copy, PartialEq, Eq, Structural)]
pub enum Method {
    Get,
    Post,
    Put,
    Delete,
}

/// Where a request goes: a parsed URL, or an address that the HTTP client
/// parses when it sends the request.
pub enum Target {
    Parsed(RequestUrl),
    Address(String),
}

/// A request to send: its method, where it goes and its body, if any.
pub struct Request {
    pub method: Method,
    pub target: Target,
    pub body: Option<String>,
}

/// What a request to the parsed address `address` comes to: a request with
/// `method`, to the URL that `address` parses to, with `body`; or `BadURL`
/// where `address` does not parse.
pub open spec fn request_outcome(
    r: Result<Request, ConsulError>,
    method: Method,
    address: Seq<char>,
    body: Option<Seq<char>>,
) -> bool {
    match parsed_url(address) {
        Some(u) => r matches Ok(q) && {
            &&& q.method == method
            &&& q.target matches Target::Parsed(t) && t@ == u
            &&& q.body.deep_view() == body
        },
        None => r == Err::<Request, ConsulError>(ConsulError::BadURL),
    }
}

/// A request with `method` to `address`, parsed, with `body`; an address that
/// is no URL is a `BadURL`.
pub fn parsed_request(method: Method, address: &str, body: Option<String>) -> (r: Result<
    Request,
    ConsulError,
>)
    ensures
        request_outcome(r, method, address@, body.deep_view()),
{
    match request_url(address) {
        Ok(u) => Ok(Request { method, target: Target::Parsed(u), body }),
        Err(e) => Err(e),
    }
}

} // verus!
