use vstd::prelude::*;
use std::sync::Arc;
use crate::agent::{agent_endpoint, Agent};
use crate::catalog::{catalog_endpoint, Catalog};
use crate::health::{health_endpoint, Health};
use crate::http::new_http_client;

verus! {

/// A client of a Consul agent: its agent, catalog and health endpoints, all
/// reached through one HTTP client.
#[derive(Clone)]
pub struct ConsulClient {
    pub agent: Agent,
    pub catalog: Catalog,
    pub health: Health,
}

impl ConsulClient {
    /// A client of the agent at `address` (host and port).
    pub fn new(address: &str) -> (r: ConsulClient)
        ensures
            r.agent.endpoint_view() == agent_endpoint(address@),
            r.catalog.endpoint_view() == catalog_endpoint(address@),
            r.health.endpoint_view() == health_endpoint(address@),
            r.agent.http() == r.catalog.http(),
            r.agent.http() == r.health.http(),
    {
        let http_client = Arc::new(new_http_client());
        ConsulClient {
            agent: Agent::new(http_client.clone(), address),
            catalog: Catalog::new(http_client.clone(), address),
            health: Health::new(http_client.clone(), address),
        }
    }
}

} // verus!
