use vstd::prelude::*;
use hyper::client::Client;

verus! {

#[verifier::external_type_specification]
#[verifier::external_body]
pub struct ExClient(hyper::client::Client);

/// Calls `hyper::client::Client::new`, which builds a client with a default
/// connection pool.  Nothing is claimed of the client.
#[verifier::external_body]
pub(crate) fn new_http_client() -> Client {
    Client::new()
}

} // verus!
