use vstd::prelude::*;
use std::sync::Arc;
use hyper::client::Client;
use crate::consul_error::ConsulError;
use crate::request::{parsed_request, request_outcome, Method, Request};
use crate::text::concat_str;

verus! {

/// The address under which an agent at `address` answers the catalog endpoints.
pub open spec fn catalog_endpoint(address: Seq<char>) -> Seq<char> {
    "http://"@ + address + "/v1/catalog"@
}

/// Queries the catalog endpoints of a Consul agent.
#[derive(Clone)]
pub struct Catalog {
    endpoint: String,
    client: Arc<Client>,
}

/// A node that provides a service, as the catalog lists it.
#[derive(Debug, Clone)]
pub struct ServiceNode {
    pub Node: String,
    pub Address: String,
    pub ServiceID: String,
    pub ServiceName: String,
    pub ServiceTags: Vec<String>,
    pub ServiceAddress: String,
    pub ServicePort: u16,
}

impl Catalog {
    /// The address that the requests of this catalog start with.
    pub closed spec fn endpoint_view(&self) -> Seq<char> {
        self.endpoint@
    }

    /// The HTTP client that the requests go through.
    pub closed spec fn http(&self) -> Arc<Client> {
        self.client
    }

    /// The catalog of the agent at `address` (host and port), reached through
    /// `client`.
    pub fn new(client: Arc<Client>, address: &str) -> (r: Catalog)
        ensures
            r.endpoint_view() == catalog_endpoint(address@),
            r.http() == client,
    {
        let with_scheme = concat_str("http://", address);
        Catalog { endpoint: concat_str(with_scheme.as_str(), "/v1/catalog"), client }
    }

    /// The HTTP client that the requests go through.
    pub fn http_client(&self) -> (r: &Arc<Client>)
        ensures
            *r == self.http(),
    {
        &self.client
    }

    /// The request that lists the services of the catalog with
    /// their tags.
    pub fn services_request(&self) -> (r: Result<Request, ConsulError>)
        ensures
            request_outcome(r, Method::Get, self.endpoint_view() + "/services"@, None),
    {
        parsed_request(Method::Get, concat_str(self.endpoint.as_str(), "/services").as_str(), None)
    }

    /// The request that lists the nodes providing `service`.
    pub fn service_request(&self, service: &str) -> (r: Result<Request, ConsulError>)
        ensures
            request_outcome(r, Method::Get, self.endpoint_view() + "/service/"@ + service@, None),
    {
        let address = concat_str(concat_str(self.endpoint.as_str(), "/service/").as_str(), service);
        parsed_request(Method::Get, address.as_str(), None)
    }
}

} // verus!
