use vstd::prelude::*;
use std::sync::Arc;
use hyper::client::Client;
use crate::consul_error::ConsulError;
use crate::request::{parsed_request, request_outcome, Method, Request};
use crate::text::concat_str;

verus! {

/// The address under which an agent at `address` answers its own endpoints.
pub open spec fn agent_endpoint(address: Seq<char>) -> Seq<char> {
    "http://"@ + address + "/v1/agent"@
}

/// The address of the request that marks the check `check_id` as passing,
/// with `note` as its note where one is given.
pub open spec fn check_pass_address(
    endpoint: Seq<char>,
    check_id: Seq<char>,
    note: Option<Seq<char>>,
) -> Seq<char> {
    match note {
        Some(n) => endpoint + "/check/pass/"@ + check_id + "?note="@ + n,
        None => endpoint + "/check/pass/"@ + check_id,
    }
}

/// Queries the agent endpoints of a Consul agent.
#[derive(Clone)]
pub struct Agent {
    endpoint: String,
    client: Arc<Client>,
}

impl Agent {
    /// The address that the requests of this agent start with.
    pub closed spec fn endpoint_view(&self) -> Seq<char> {
        self.endpoint@
    }

    /// The HTTP client that the requests go through.
    pub closed spec fn http(&self) -> Arc<Client> {
        self.client
    }

    /// An agent at `address` (host and port) reached through `client`.
    pub fn new(client: Arc<Client>, address: &str) -> (r: Agent)
        ensures
            r.endpoint_view() == agent_endpoint(address@),
            r.http() == client,
    {
        let with_scheme = concat_str("http://", address);
        Agent { endpoint: concat_str(with_scheme.as_str(), "/v1/agent"), client }
    }

    /// The HTTP client that the requests go through.
    pub fn http_client(&self) -> (r: &Arc<Client>)
        ensures
            *r == self.http(),
    {
        &self.client
    }

    /// The request that lists the services registered with the agent.
    pub fn services_request(&self) -> (r: Result<Request, ConsulError>)
        ensures
            request_outcome(r, Method::Get, self.endpoint_view() + "/services"@, None),
    {
        parsed_request(Method::Get, concat_str(self.endpoint.as_str(), "/services").as_str(), None)
    }

    /// The request that lists the cluster members the agent knows.
    pub fn members_request(&self) -> (r: Result<Request, ConsulError>)
        ensures
            request_outcome(r, Method::Get, self.endpoint_view() + "/members"@, None),
    {
        parsed_request(Method::Get, concat_str(self.endpoint.as_str(), "/members").as_str(), None)
    }

    /// The request that registers a check with a time-to-live, from the
    /// check's JSON encoding (`None` where it could not be encoded, a
    /// `BadJSON`, which is decided before the URL is parsed): a POST of the
    /// encoding.
    pub fn register_ttl_check_request(&self, encoded: Option<String>) -> (r: Result<
        Request,
        ConsulError,
    >)
        ensures
            match encoded {
                None => r == Err::<Request, ConsulError>(ConsulError::BadJSON),
                Some(body) => request_outcome(
                    r,
                    Method::Post,
                    self.endpoint_view() + "/check/register"@,
                    Some(body@),
                ),
            },
    {
        match encoded {
            None => Err(ConsulError::BadJSON),
            Some(body) => parsed_request(
                Method::Post,
                concat_str(self.endpoint.as_str(), "/check/register").as_str(),
                Some(body),
            ),
        }
    }

    /// The request that marks the check `check_id` as passing,
    /// with `note` attached where one is given.
    pub fn check_pass_request(&self, check_id: &str, note: Option<&str>) -> (r: Result<
        Request,
        ConsulError,
    >)
        ensures
            request_outcome(
                r,
                Method::Get,
                check_pass_address(self.endpoint_view(), check_id@, note.deep_view()),
                None,
            ),
    {
        let path = concat_str(concat_str(self.endpoint.as_str(), "/check/pass/").as_str(), check_id);
        match note {
            Some(n) => {
                let with_note = concat_str(path.as_str(), "?note=");
                parsed_request(Method::Get, concat_str(with_note.as_str(), n).as_str(), None)
            },
            None => parsed_request(Method::Get, path.as_str(), None),
        }
    }

    /// The request for the agent's own configuration and member
    /// information.
    pub fn get_self_request(&self) -> (r: Result<Request, ConsulError>)
        ensures
            request_outcome(r, Method::Get, self.endpoint_view() + "/self"@, None),
    {
        parsed_request(Method::Get, concat_str(self.endpoint.as_str(), "/self").as_str(), None)
    }
}

} // verus!
