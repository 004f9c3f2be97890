//! The engine's view of an incoming HTTP request: the method as a string and
//! the headers as name/value string pairs, in arrival order.

use vstd::prelude::*;

use crate::config::Header;

verus! {

/// An incoming request, reduced to what matching reads. The hosting server
/// converts its transport-level request into this shape (skipping header
/// values that are not valid strings) before calling the engine.
#[derive(Clone, Debug)]
pub struct HttpRequest {
    /// The HTTP method, e.g. `GET`.
    pub method: String,
    /// The request headers, in arrival order.
    pub headers: Vec<Header>,
}

impl HttpRequest {
    /// Build a request from its method and headers.
    pub fn new(method: String, headers: Vec<Header>) -> (r: Self)
        ensures
            r.method == method,
            r.headers == headers,
    {
        HttpRequest { method, headers }
    }
}

} // verus!
