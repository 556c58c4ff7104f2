use std::sync::Arc;

use consul::request::{parsed_request, Method, Request, Target};
use consul::request_url::request_url;
use consul::{Agent, Catalog, ConsulClient, ConsulError, Health, Keystore};

fn http() -> Arc<hyper::client::Client> {
    Arc::new(hyper::client::Client::new())
}

fn parsed_target(req: &Request) -> String {
    match &req.target {
        Target::Parsed(u) => u.as_str().to_string(),
        Target::Address(_) => panic!("expected a parsed URL"),
    }
}

fn address_target(req: &Request) -> String {
    match &req.target {
        Target::Address(a) => a.clone(),
        Target::Parsed(_) => panic!("expected an address"),
    }
}

fn assert_get(req: &Request, address: &str) {
    assert_eq!(req.method, Method::Get);
    assert_eq!(parsed_target(req), address);
    assert!(req.body.is_none());
}

#[test]
fn agent_request_addresses() {
    let agent = Agent::new(http(), "localhost:8500");
    assert_get(&agent.services_request().unwrap(), "http://localhost:8500/v1/agent/services");
    assert_get(&agent.members_request().unwrap(), "http://localhost:8500/v1/agent/members");
    assert_get(&agent.get_self_request().unwrap(), "http://localhost:8500/v1/agent/self");
}

#[test]
fn agent_check_pass_addresses() {
    let agent = Agent::new(http(), "localhost:8503");
    assert_get(
        &agent.check_pass_request("redis", None).unwrap(),
        "http://localhost:8503/v1/agent/check/pass/redis",
    );
    assert_get(
        &agent.check_pass_request("service", Some("stuff")).unwrap(),
        "http://localhost:8503/v1/agent/check/pass/service?note=stuff",
    );
}

#[test]
fn agent_register_needs_an_encoded_body_first() {
    let agent = Agent::new(http(), "localhost:8502");
    assert!(matches!(agent.register_ttl_check_request(None), Err(ConsulError::BadJSON)));
    let req = agent.register_ttl_check_request(Some(String::from("{}"))).unwrap();
    assert_eq!(req.method, Method::Post);
    assert_eq!(parsed_target(&req), "http://localhost:8502/v1/agent/check/register");
    assert_eq!(req.body, Some(String::from("{}")));
    let broken = Agent::new(http(), "exa mple:80");
    assert!(matches!(broken.register_ttl_check_request(None), Err(ConsulError::BadJSON)));
    assert!(matches!(
        broken.register_ttl_check_request(Some(String::from("{}"))),
        Err(ConsulError::BadURL)
    ));
}

#[test]
fn bad_address_is_bad_url() {
    let agent = Agent::new(http(), "exa mple:80");
    assert!(matches!(agent.services_request(), Err(ConsulError::BadURL)));
    assert!(matches!(request_url("no scheme here"), Err(ConsulError::BadURL)));
    assert!(matches!(parsed_request(Method::Get, "::", None), Err(ConsulError::BadURL)));
}

#[test]
fn parse_normalizes_the_url() {
    let url = request_url("HTTP://EXAMPLE.com:80").unwrap();
    assert_eq!(url.as_str(), "http://example.com/");
    assert_eq!(url.url().as_str(), "http://example.com/");
    assert_eq!(url.into_url().as_str(), "http://example.com/");
    let req = parsed_request(Method::Delete, "HTTP://Example.COM/a", Some(String::from("b"))).unwrap();
    assert_eq!(req.method, Method::Delete);
    assert_eq!(parsed_target(&req), "http://example.com/a");
    assert_eq!(req.body, Some(String::from("b")));
}

#[test]
fn catalog_request_addresses() {
    let catalog = Catalog::new(http(), "localhost:8504");
    assert_get(&catalog.services_request().unwrap(), "http://localhost:8504/v1/catalog/services");
    assert_get(
        &catalog.service_request("redis").unwrap(),
        "http://localhost:8504/v1/catalog/service/redis",
    );
}

#[test]
fn health_service_without_parameters() {
    let health = Health::new(http(), "localhost:8505");
    let req = health.service_request("redis", None, None, None, None).unwrap();
    assert_eq!(req.method, Method::Get);
    assert!(req.body.is_none());
    assert_eq!(address_target(&req), "http://localhost:8505/v1/health/service/redis");
}

#[test]
fn health_service_with_all_parameters() {
    let health = Health::new(http(), "localhost:8505");
    let req = health
        .service_request("redis", Some("dc1"), Some("_agent"), Some("master"), Some(true))
        .unwrap();
    assert_eq!(
        address_target(&req),
        "http://localhost:8505/v1/health/service/redis?dc=dc1&near=_agent&tag=master&passing=true"
    );
}

#[test]
fn health_service_with_some_parameters() {
    let health = Health::new(http(), "localhost:8505");
    let req = health.service_request("redis", None, Some("n1"), None, Some(false)).unwrap();
    assert_eq!(address_target(&req), "http://localhost:8505/v1/health/service/redis?near=n1&passing=false");
    let req = health.service_request("redis", None, None, Some("v2"), None).unwrap();
    assert_eq!(address_target(&req), "http://localhost:8505/v1/health/service/redis?tag=v2");
}

#[test]
fn health_service_query_alone() {
    assert_eq!(Health::service_query(None, None, None, None), "");
    assert_eq!(Health::service_query(Some("a"), None, Some("b"), None), "?dc=a&tag=b");
    assert_eq!(Health::service_query(None, None, None, Some(false)), "?passing=false");
    let url = request_url("http://h/x").unwrap();
    assert_eq!(Health::with_service_query(&url, None, Some("n"), None, None), "http://h/x?near=n");
    assert_eq!(Health::with_service_query(&url, None, None, None, None), "http://h/x");
}

#[test]
fn health_service_values_are_not_encoded() {
    let health = Health::new(http(), "localhost:8505");
    let req = health.service_request("redis", Some("a&b"), None, None, None).unwrap();
    assert_eq!(address_target(&req), "http://localhost:8505/v1/health/service/redis?dc=a&b");
}

#[test]
fn health_service_bad_url() {
    let health = Health::new(http(), "exa mple");
    assert!(matches!(
        health.service_request("redis", Some("dc1"), None, None, None),
        Err(ConsulError::BadURL)
    ));
}

#[test]
fn health_checks_query() {
    let health = Health::new(http(), "localhost:8505");
    let url = health.checks_url("redis").unwrap();
    assert_eq!(url.as_str(), "http://localhost:8505/v1/health/checks/redis");
    assert!(Health::checks_query_fits(&url, Some("dc 1"), None, Some(true)));
    let req = Health::checks_request(url, Some("dc 1"), None, Some(true));
    assert_get(&req, "http://localhost:8505/v1/health/checks/redis?dc=dc+1&passing=true");
}

#[test]
fn health_checks_query_without_parameters_opens_a_query() {
    let health = Health::new(http(), "localhost:8505");
    let url = health.checks_url("redis").unwrap();
    let req = Health::checks_request(url, None, None, None);
    assert_get(&req, "http://localhost:8505/v1/health/checks/redis?");
}

#[test]
fn health_checks_query_keeps_a_fragment_last() {
    let url = request_url("http://h/c#frag").unwrap();
    let req = Health::checks_request(url, None, Some("n&m"), None);
    assert_get(&req, "http://h/c?near=n%26m#frag");
}

#[test]
fn health_checks_pairs_in_order() {
    let pairs = Health::checks_pairs(Some("dc1"), Some("n"), Some(false));
    assert_eq!(
        pairs,
        vec![
            (String::from("dc"), String::from("dc1")),
            (String::from("near"), String::from("n")),
            (String::from("passing"), String::from("false")),
        ]
    );
    assert!(Health::checks_pairs(None, None, None).is_empty());
}

#[test]
fn keystore_requests() {
    let client = hyper::client::Client::new();
    let store = Keystore::new(&client, "http://localhost:8500");
    assert_get(&store.get_request("testkey").unwrap(), "http://localhost:8500/v1/kv/testkey");
    assert_get(&store.services_request().unwrap(), "http://localhost:8500/v1/kv/services");
    let set = store.set_request("testkey", "testvalue").unwrap();
    assert_eq!(set.method, Method::Put);
    assert_eq!(parsed_target(&set), "http://localhost:8500/v1/kv/testkey");
    assert_eq!(set.body, Some(String::from("testvalue")));
    let delete = store.delete_request("testkey").unwrap();
    assert_eq!(delete.method, Method::Delete);
    assert_eq!(parsed_target(&delete), "http://localhost:8500/v1/kv/testkey");
    assert!(delete.body.is_none());
    assert!(std::ptr::eq(store.http_client(), &client));
    let bare = Keystore::new(&client, "no-scheme");
    assert!(matches!(bare.get_request("k"), Err(ConsulError::BadURL)));
}

#[test]
fn client_shares_one_address() {
    let client = ConsulClient::new("localhost:8504");
    assert_get(&client.agent.services_request().unwrap(), "http://localhost:8504/v1/agent/services");
    assert_get(&client.catalog.services_request().unwrap(), "http://localhost:8504/v1/catalog/services");
    let req = client.health.service_request("redis", None, None, None, None).unwrap();
    assert_eq!(address_target(&req), "http://localhost:8504/v1/health/service/redis");
    assert!(Arc::ptr_eq(client.agent.http_client(), client.health.http_client()));
    assert!(Arc::ptr_eq(client.agent.http_client(), client.catalog.http_client()));
}

#[test]
fn health_checks_query_extends_an_existing_query() {
    let url = request_url("http://h/c?x=1").unwrap();
    assert!(Health::checks_query_fits(&url, Some("a"), None, None));
    assert_get(&Health::checks_request(url, Some("a"), None, None), "http://h/c?x=1&dc=a");
    let empty = request_url("http://h/c?").unwrap();
    assert_get(&Health::checks_request(empty, Some("a"), None, Some(false)), "http://h/c?dc=a&passing=false");
}

#[test]
fn health_checks_query_encodes_bytes() {
    let url = request_url("http://h/c").unwrap();
    let req = Health::checks_request(url, Some("é*-._~"), Some("a=b+c"), None);
    assert_get(&req, "http://h/c?dc=%C3%A9*-._%7E&near=a%3Db%2Bc");
}
