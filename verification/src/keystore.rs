use vstd::prelude::*;
use hyper::client::Client;
use crate::consul_error::ConsulError;
use crate::request::{parsed_request, request_outcome, Method, Request};
use crate::text::concat_str;

verus! {

/// The address under which an agent at `address` answers the key-value
/// endpoints.  The scheme is part of `address`.
pub open spec fn kv_endpoint(address: Seq<char>) -> Seq<char> {
    address + "/v1/kv"@
}

/// An entry of the key-value store.
#[derive(Debug, Clone)]
pub struct KeystoreEntry {
    pub CreateIndex: u32,
    pub ModifyIndex: u32,
    pub Key: String,
    pub Flags: u32,
    pub Value: String,
    pub Session: String,
}

/// Reads and writes the key-value store of a Consul agent.
pub struct Keystore<'a> {
    endpoint: String,
    client: &'a Client,
}

impl<'a> Keystore<'a> {
    /// The address that the requests of this store start with.
    pub closed spec fn endpoint_view(&self) -> Seq<char> {
        self.endpoint@
    }

    /// The HTTP client that the requests go through.
    pub closed spec fn http(&self) -> &'a Client {
        self.client
    }

    /// The key-value store of the agent at `address` (scheme, host and
    /// port), reached through `client`.
    pub fn new(client: &'a Client, address: &str) -> (r: Keystore<'a>)
        ensures
            r.endpoint_view() == kv_endpoint(address@),
            r.http() == client,
    {
        Keystore { endpoint: concat_str(address, "/v1/kv"), client }
    }

    /// The HTTP client that the requests go through.
    pub fn http_client(&self) -> (r: &'a Client)
        ensures
            r == self.http(),
    {
        self.client
    }

    /// The request that reads the entries under `key`.
    pub fn get_request(&self, key: &str) -> (r: Result<Request, ConsulError>)
        ensures
            request_outcome(r, Method::Get, self.endpoint_view() + "/"@ + key@, None),
    {
        let address = concat_str(concat_str(self.endpoint.as_str(), "/").as_str(), key);
        parsed_request(Method::Get, address.as_str(), None)
    }

    /// The request that lists services, under the store's address.
    pub fn services_request(&self) -> (r: Result<Request, ConsulError>)
        ensures
            request_outcome(r, Method::Get, self.endpoint_view() + "/services"@, None),
    {
        parsed_request(Method::Get, concat_str(self.endpoint.as_str(), "/services").as_str(), None)
    }

    /// The request that writes `value` under `key`: a PUT of `value`.
    pub fn set_request(&self, key: &str, value: &str) -> (r: Result<Request, ConsulError>)
        ensures
            request_outcome(r, Method::Put, self.endpoint_view() + "/"@ + key@, Some(value@)),
    {
        let address = concat_str(concat_str(self.endpoint.as_str(), "/").as_str(), key);
        parsed_request(Method::Put, address.as_str(), Some(String::from_str(value)))
    }

    /// The request that deletes the entry under `key`.
    pub fn delete_request(&self, key: &str) -> (r: Result<Request, ConsulError>)
        ensures
            request_outcome(r, Method::Delete, self.endpoint_view() + "/"@ + key@, None),
    {
        let address = concat_str(concat_str(self.endpoint.as_str(), "/").as_str(), key);
        parsed_request(Method::Delete, address.as_str(), None)
    }
}

} // verus!
