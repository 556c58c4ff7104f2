use vstd::prelude::*;
use std::collections::HashMap;

verus! {

/// A cluster member known to the agent.
#[derive(Debug, Clone)]
pub struct AgentMember {
    pub Name: String,
    pub Addr: String,
    pub Port: u16,
    pub Tags: HashMap<String, String>,
    pub Status: usize,
    pub ProtocolMin: u8,
    pub ProtocolMax: u8,
    pub ProtocolCur: u8,
    pub DelegateMin: u8,
    pub DelegateMax: u8,
    pub DelegateCur: u8,
}

/// A health check and its state.
#[derive(Debug, Clone)]
pub struct Check {
    pub Node: String,
    pub CheckID: String,
    pub Name: String,
    pub Status: String,
    pub Notes: String,
    pub Output: String,
    pub ServiceID: String,
    pub ServiceName: String,
}

/// A node of the cluster.
#[derive(Debug, Clone)]
pub struct Node {
    pub Node: String,
    pub Address: String,
    pub TaggedAddresses: Option<TaggedAddress>,
}

/// The addresses a node has besides its own.
#[derive(Debug, Clone)]
pub struct TaggedAddress {
    pub wan: String,
}

/// A service registered with an agent.
#[derive(Debug, Clone)]
pub struct Service {
    pub ID: String,
    pub Service: String,
    pub Tags: Option<Vec<String>>,
    pub Address: String,
    pub Port: u16,
}

/// A service together with its node and the checks that concern it.
#[derive(Debug, Clone)]
pub struct ServiceHealth {
    pub Node: Node,
    pub Service: Service,
    pub Checks: Vec<Check>,
}

/// A service to register.
#[derive(Debug, Clone)]
pub struct RegisterService {
    pub ID: String,
    pub Name: String,
    pub Tags: Vec<String>,
    pub Port: u16,
    pub Address: String,
}

/// A check whose state its owner reports before a time-to-live runs out.
#[derive(Debug, Clone)]
pub struct TtlHealthCheck {
    pub ServiceID: String,
    pub ID: Option<String>,
    pub Name: String,
    pub Notes: String,
    pub TTL: String,
}

} // verus!
