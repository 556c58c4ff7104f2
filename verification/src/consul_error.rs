use vstd::prelude::*;

verus! {

/// The ways in which a call to the Consul HTTP API can fail.
#[derive(Debug, Clone, Copy, PartialEq, Eq, Structural)]
pub enum ConsulError {
    /// The request's address is not a valid URL.
    BadURL,
    /// The request could not be sent or its reply could not be read.
    HTTPFailure,
    /// A body could not be encoded to, or decoded from, JSON.
    BadJSON,
    /// The agent answered with a status other than 200 OK.
    RemoteFailure,
}

} // verus!
