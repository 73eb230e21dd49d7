use cloudlet_host::backend::{Backend, BackendError, Response};
use cloudlet_host::driver::{Capabilities, DriverError, Pterodactyl, RemoteController};

fn valid_backend() -> Backend {
    Backend {
        url: Some("https://panel".to_string()),
        token: Some("tok".to_string()),
        user: Some("alice".to_string()),
        resolved: None,
    }
}

fn node_response(nodes: &[(u32, &str)]) -> Option<Response> {
    let entries: Vec<String> = nodes
        .iter()
        .map(|(id, name)| format!("{{\"attributes\":{{\"id\":{},\"name\":\"{}\"}}}}", id, name))
        .collect();
    let body = format!("{{\"data\":[{}]}}", entries.join(","));
    Some(Response { status_code: 200, reason_phrase: "OK".to_string(), bytes: body.into_bytes() })
}

fn ready_driver() -> Pterodactyl {
    let mut driver = Pterodactyl::new("cloud1".to_string());
    let user_page = "{\"data\":[{\"attributes\":{\"id\":5,\"username\":\"alice\"}}]}";
    let response = Some(Response {
        status_code: 200,
        reason_phrase: "OK".to_string(),
        bytes: user_page.as_bytes().to_vec(),
    });
    let backend =
        Backend::new_filled_and_resolved(valid_backend(), None, None, None, response);
    let info = driver.init(backend, vec!["author1".to_string()], "1.0.0".to_string());
    assert!(info.ready);
    driver
}

#[test]
fn init_reports_ready_on_successful_resolution() {
    let driver = ready_driver();
    let backend = driver.get_backend().unwrap();
    assert_eq!(backend.resolved.as_ref().unwrap().user, 5);
}

#[test]
fn init_reports_not_ready_on_failed_resolution() {
    let mut driver = Pterodactyl::new("cloud1".to_string());
    let backend: Result<Backend, BackendError> =
        Backend::new_filled_and_resolved(valid_backend(), None, None, None, None);
    let info = driver.init(backend, vec!["author1".to_string()], "1.0.0".to_string());
    assert!(!info.ready);
    assert_eq!(info.version, "1.0.0");
    assert!(driver.get_backend().is_none());
}

#[test]
fn init_cloudlet_fails_fast_when_not_ready() {
    let mut driver = Pterodactyl::new("cloud1".to_string());
    let result = driver.init_cloudlet(
        "worker1".to_string(),
        Capabilities { child: Some("node1".to_string()) },
        RemoteController { address: "https://controller".to_string() },
        node_response(&[(1, "node1")]),
    );
    assert!(matches!(result, Err(DriverError::NotReady)));
}

#[test]
fn init_cloudlet_without_child_capability_is_capability_missing() {
    let mut driver = ready_driver();
    let result = driver.init_cloudlet(
        "worker1".to_string(),
        Capabilities { child: None },
        RemoteController { address: "https://controller".to_string() },
        node_response(&[(1, "node1")]),
    );
    // A missing capability is its own failure, never an unknown node.
    assert!(matches!(result, Err(DriverError::CapabilityMissing)));
}

#[test]
fn init_cloudlet_with_unresolvable_node_is_node_not_found() {
    let mut driver = ready_driver();
    let result = driver.init_cloudlet(
        "worker1".to_string(),
        Capabilities { child: Some("ghost".to_string()) },
        RemoteController { address: "https://controller".to_string() },
        node_response(&[(1, "node1")]),
    );
    match result {
        Err(DriverError::NodeNotFound(name)) => assert_eq!(name, "ghost"),
        _ => panic!("an unresolvable node must be reported as NodeNotFound"),
    }
}

#[test]
fn init_cloudlet_binds_resolved_node_id_and_registers() {
    let mut driver = ready_driver();
    let wrapper = driver
        .init_cloudlet(
            "worker1".to_string(),
            Capabilities { child: Some("node2".to_string()) },
            RemoteController { address: "https://controller".to_string() },
            node_response(&[(1, "node1"), (7, "node2")]),
        )
        .unwrap();
    assert_eq!(wrapper.inner.name, "worker1");
    assert_eq!(wrapper.inner.cloud_identifier, "cloud1");
    assert_eq!(wrapper.inner.node_id, Some(7));
    assert_eq!(wrapper.inner.capabilities.child.as_deref(), Some("node2"));
    // The cloudlet keeps a read-only copy of the resolved backend.
    let backend = wrapper.get_backend().unwrap();
    assert_eq!(backend.resolved.as_ref().unwrap().user, 5);
    assert_eq!(driver.cloudlets.len(), 1);
    assert_eq!(driver.cloudlets[0].name, "worker1");
}

#[test]
fn registration_appends_without_removal() {
    let mut driver = ready_driver();
    for (name, node) in [("worker1", "node1"), ("worker2", "node2")] {
        driver
            .init_cloudlet(
                name.to_string(),
                Capabilities { child: Some(node.to_string()) },
                RemoteController { address: "https://controller".to_string() },
                node_response(&[(1, "node1"), (2, "node2")]),
            )
            .unwrap();
    }
    assert_eq!(driver.cloudlets.len(), 2);
    assert_eq!(driver.cloudlets[0].name, "worker1");
    assert_eq!(driver.cloudlets[1].name, "worker2");
}
