//! How the daemon is reached, and the API version that is spoken.

use vstd::prelude::*;

verus! {

/// The text that a query parameter carries for `true`.
pub const TRUE_STR: &'static str = "true";

/// The text that a query parameter carries for `false`.
pub const FALSE_STR: &'static str = "false";

/// The transport over which the daemon is reached.
#[derive(Debug, Clone, Copy, PartialEq, Eq, Structural)]
pub enum ClientType {
    /// Plain HTTP over TCP.
    Http,
    /// HTTP over TLS.
    SSL,
    /// A Unix domain socket.
    Unix,
    /// A Windows named pipe.
    NamedPipe,
}

/// The version of the API, as in the path prefix `/v1.40`.
#[derive(Debug, Clone, Copy, PartialEq, Eq, Structural)]
pub struct ClientVersion {
    pub major_version: usize,
    pub minor_version: usize,
}

/// The method of a request.
#[derive(Debug, Clone, Copy, PartialEq, Eq, Structural)]
pub enum Method {
    Get,
    Post,
    Delete,
}

/// What a request carries as its body.
#[derive(Debug, Clone, Copy, PartialEq, Eq, Structural)]
pub enum Payload {
    /// Nothing.
    Empty,
    /// The request's configuration, written as JSON.
    Json,
}

/// What a request is made of, as far as its endpoint fixes it: its method,
/// its path below the version prefix, whether it takes the query that its
/// options give, and what it carries as its body.
#[derive(Debug, Clone, PartialEq, Eq)]
pub struct Route {
    pub method: Method,
    pub path: String,
    pub query: bool,
    pub payload: Payload,
}

impl Route {
    /// Whether the route has the given method, path, use of a query and
    /// payload.
    pub open spec fn is(&self, method: Method, path: Seq<char>, query: bool, payload: Payload) -> bool {
        self.method == method && self.path@ == path && self.query == query && self.payload
            == payload
    }
}

} // verus!
