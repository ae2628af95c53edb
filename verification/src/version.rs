//! The answer of the version endpoint.

use crate::docker::{Method, Payload, Route};
use vstd::prelude::*;
use vstd::string::StringExecFns;

verus! {

/// The version of the daemon and of what it runs on.
#[derive(Debug)]
#[allow(non_snake_case)]
pub struct Version {
    pub Version: String,
    pub ApiVersion: String,
    pub GitCommit: String,
    pub GoVersion: String,
    pub Os: String,
    pub Arch: String,
    pub KernelVersion: String,
    pub BuildTime: Option<String>,
    pub Experimental: Option<bool>,
}

/// The request that asks the daemon for its version.
pub fn version() -> (route: Route)
    ensures
        route.is(Method::Get, "/version"@, false, Payload::Empty),
{
    Route {
        method: Method::Get,
        path: String::from_str("/version"),
        query: false,
        payload: Payload::Empty,
    }
}

} // verus!
