use sidecar_supervisor::endpoint::{BackendEndpoint, EndpointRegistry, RegistryError};
use sidecar_supervisor::port::{find_available_port, PortPolicy, DEFAULT_PORT};

#[test]
fn standard_port_is_8000() {
    assert_eq!(find_available_port(), 8000);
    assert_eq!(DEFAULT_PORT, 8000);
}

#[test]
fn port_allocation_is_deterministic() {
    assert_eq!(find_available_port(), find_available_port());
    let policy = PortPolicy::standard();
    assert_eq!(policy, PortPolicy::Fixed(8000));
    assert_eq!(policy.allocate(), policy.allocate());
}

#[test]
fn fixed_policy_yields_its_port() {
    assert_eq!(PortPolicy::Fixed(0).allocate(), 0);
    assert_eq!(PortPolicy::Fixed(9123).allocate(), 9123);
    assert_eq!(PortPolicy::Fixed(u16::MAX).allocate(), 65535);
}

#[test]
fn query_after_publish_returns_the_url() {
    let mut registry = EndpointRegistry::new();
    assert_eq!(registry.publish(BackendEndpoint::new("127.0.0.1", 8000)), Ok(()));
    assert_eq!(registry.get_backend_url(), Ok(String::from("http://127.0.0.1:8000")));
}

#[test]
fn every_query_returns_the_same_url() {
    let mut registry = EndpointRegistry::new();
    registry.publish(BackendEndpoint::loopback(8000)).unwrap();
    let first = registry.get_backend_url();
    for _ in 0..16 {
        assert_eq!(registry.get_backend_url(), first);
    }
    assert_eq!(first, Ok(String::from("http://127.0.0.1:8000")));
}

#[test]
fn empty_registry_has_nothing_to_answer() {
    let registry = EndpointRegistry::new();
    assert!(!registry.is_published());
    assert_eq!(registry.query(), None);
    assert_eq!(registry.get_backend_url(), Err(RegistryError::NotPublished));
}

#[test]
fn second_publication_is_refused_and_changes_nothing() {
    let mut registry = EndpointRegistry::new();
    assert_eq!(registry.publish(BackendEndpoint::loopback(8000)), Ok(()));
    assert!(registry.is_published());
    assert_eq!(
        registry.publish(BackendEndpoint::new("localhost", 9000)),
        Err(RegistryError::AlreadyPublished)
    );
    assert_eq!(registry.query(), Some(&BackendEndpoint::loopback(8000)));
    assert_eq!(registry.get_backend_url(), Ok(String::from("http://127.0.0.1:8000")));
}

#[test]
fn loopback_endpoint_is_on_127_0_0_1() {
    let endpoint = BackendEndpoint::loopback(8000);
    assert_eq!(endpoint.host, "127.0.0.1");
    assert_eq!(endpoint.port, 8000);
    assert_eq!(endpoint, BackendEndpoint::new("127.0.0.1", 8000));
    assert_eq!(endpoint.duplicate(), endpoint);
}

#[test]
fn base_url_writes_the_port_in_decimal() {
    assert_eq!(BackendEndpoint::new("localhost", 0).base_url(), "http://localhost:0");
    assert_eq!(BackendEndpoint::new("localhost", 80).base_url(), "http://localhost:80");
    assert_eq!(BackendEndpoint::new("10.0.0.7", 65535).base_url(), "http://10.0.0.7:65535");
    assert_eq!(BackendEndpoint::new("", 1).base_url(), "http://:1");
}

#[test]
fn health_url_is_the_notes_path_on_the_endpoint() {
    assert_eq!(
        BackendEndpoint::loopback(8000).health_url(),
        "http://127.0.0.1:8000/api/notes"
    );
    assert_eq!(
        BackendEndpoint::loopback(find_available_port()).health_url(),
        format!("http://127.0.0.1:{}/api/notes", 8000)
    );
}
