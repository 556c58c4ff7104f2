//! A client for the HTTP API of a Consul agent: the requests it makes and
//! what it concludes from the replies.
#![allow(non_snake_case)]

pub mod agent;
pub mod catalog;
pub mod client;
pub mod consul_error;
pub mod form;
pub mod health;
pub mod http;
pub mod keystore;
pub mod laws;
pub mod text;
pub mod request;
pub mod request_url;
pub mod reply;
pub mod structs;

pub use agent::Agent;
pub use catalog::{Catalog, ServiceNode};
pub use client::ConsulClient;
pub use consul_error::ConsulError;
pub use health::Health;
pub use keystore::{Keystore, KeystoreEntry};
pub use structs::{AgentMember, Check, Node, RegisterService, Service, ServiceHealth, TaggedAddress, TtlHealthCheck};
