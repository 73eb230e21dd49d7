use cloudlet_host::backend::{
    find_node, find_user, resolve_user_id, Backend, BackendError, RemoteNode, RemoteUser,
    ResolvedValues, Response,
};

fn file_config(url: &str, token: &str, user: &str) -> Backend {
    Backend {
        url: Some(url.to_string()),
        token: Some(token.to_string()),
        user: Some(user.to_string()),
        resolved: None,
    }
}

fn ok_response(body: String) -> Option<Response> {
    Some(Response { status_code: 200, reason_phrase: "OK".to_string(), bytes: body.into_bytes() })
}

fn user_list(users: &[(u32, &str)]) -> String {
    let entries: Vec<String> = users
        .iter()
        .map(|(id, name)| {
            format!("{{\"attributes\":{{\"id\":{},\"username\":\"{}\"}}}}", id, name)
        })
        .collect();
    format!("{{\"data\":[{}]}}", entries.join(","))
}

fn node_list(nodes: &[(u32, &str)]) -> String {
    let entries: Vec<String> = nodes
        .iter()
        .map(|(id, name)| format!("{{\"attributes\":{{\"id\":{},\"name\":\"{}\"}}}}", id, name))
        .collect();
    format!("{{\"data\":[{}]}}", entries.join(","))
}

#[test]
fn new_empty_has_empty_required_fields() {
    let b = Backend::new_empty();
    assert_eq!(b.url.as_deref(), Some(""));
    assert_eq!(b.token.as_deref(), Some(""));
    assert_eq!(b.user.as_deref(), Some(""));
    assert!(b.resolved.is_none());
}

#[test]
fn load_or_empty_keeps_loaded_config() {
    let b = Backend::load_or_empty(Some(file_config("https://panel", "tok", "admin")));
    assert_eq!(b.url.as_deref(), Some("https://panel"));
    assert_eq!(b.token.as_deref(), Some("tok"));
    assert_eq!(b.user.as_deref(), Some("admin"));
}

#[test]
fn load_or_empty_falls_back_to_template() {
    let b = Backend::load_or_empty(None);
    assert_eq!(b.url.as_deref(), Some(""));
    assert!(b.resolved.is_none());
}

#[test]
fn new_filled_accepts_complete_config() {
    let b = Backend::new_filled(file_config("https://panel", "tok", "admin"), None, None, None)
        .unwrap();
    assert_eq!(b.url.as_deref(), Some("https://panel"));
    assert_eq!(b.token.as_deref(), Some("tok"));
    assert_eq!(b.user.as_deref(), Some("admin"));
}

#[test]
fn new_filled_environment_overrides_file_field_by_field() {
    let b = Backend::new_filled(
        file_config("https://file", "filetok", "fileuser"),
        Some("https://env".to_string()),
        None,
        Some("envuser".to_string()),
    )
    .unwrap();
    assert_eq!(b.url.as_deref(), Some("https://env"));
    assert_eq!(b.token.as_deref(), Some("filetok"));
    assert_eq!(b.user.as_deref(), Some("envuser"));
}

#[test]
fn new_filled_names_every_missing_field() {
    let e = Backend::new_filled(file_config("", "tok", ""), None, None, None).unwrap_err();
    assert!(e.missing_url);
    assert!(!e.missing_token);
    assert!(e.missing_user);

    let e = Backend::new_filled(Backend::new_empty(), None, None, None).unwrap_err();
    assert!(e.missing_url && e.missing_token && e.missing_user);
}

#[test]
fn new_filled_environment_can_complete_an_empty_file() {
    let b = Backend::new_filled(
        Backend::new_empty(),
        Some("https://env".to_string()),
        Some("tok".to_string()),
        Some("admin".to_string()),
    )
    .unwrap();
    assert_eq!(b.url.as_deref(), Some("https://env"));
}

#[test]
fn matching_username_resolves_and_caches_id() {
    let config = file_config("https://panel", "tok", "alice");
    let response = ok_response(user_list(&[(3, "bob"), (5, "alice"), (9, "alice")]));
    let b = Backend::new_filled_and_resolved(config, None, None, None, response).unwrap();
    // First exact match wins: id 5, not 9.
    assert_eq!(b.resolved.as_ref().unwrap().user, 5);
}

#[test]
fn missing_username_fails_naming_it() {
    let config = file_config("https://panel", "tok", "carol");
    let response = ok_response(user_list(&[(3, "bob"), (5, "alice")]));
    let err = Backend::new_filled_and_resolved(config, None, None, None, response).unwrap_err();
    match err {
        BackendError::Resolve(e) => assert_eq!(e.username, "carol"),
        BackendError::Config(_) => panic!("resolution failure reported as a config failure"),
    }
}

#[test]
fn invalid_config_fails_before_any_resolution() {
    let err = Backend::new_filled_and_resolved(Backend::new_empty(), None, None, None, None)
        .unwrap_err();
    assert!(matches!(err, BackendError::Config(_)));
}

#[test]
fn username_match_is_case_sensitive() {
    let b = file_config("https://panel", "tok", "alice");
    let response = ok_response(user_list(&[(5, "Alice")]));
    assert!(b.get_user_by_name(&"alice".to_string(), response).is_none());
}

#[test]
fn get_user_by_name_soft_failures_yield_none() {
    let b = file_config("https://panel", "tok", "alice");
    // No response at all.
    assert!(b.get_user_by_name(&"alice".to_string(), None).is_none());
    // Unexpected status code.
    let forbidden = Some(Response {
        status_code: 403,
        reason_phrase: "Forbidden".to_string(),
        bytes: user_list(&[(5, "alice")]).into_bytes(),
    });
    assert!(b.get_user_by_name(&"alice".to_string(), forbidden).is_none());
    // Undecodable body.
    let garbage = ok_response("{\"data\": \"not a list\"".to_string());
    assert!(b.get_user_by_name(&"alice".to_string(), garbage).is_none());
    // Valid JSON of the wrong shape.
    let wrong_shape = ok_response("{\"results\":[]}".to_string());
    assert!(b.get_user_by_name(&"alice".to_string(), wrong_shape).is_none());
}

#[test]
fn get_node_by_name_finds_node_on_first_page() {
    let b = file_config("https://panel", "tok", "alice");
    let response = ok_response(node_list(&[(1, "node1"), (2, "node2")]));
    let node = b.get_node_by_name(&"node2".to_string(), response).unwrap();
    assert_eq!(node.id, 2);
    assert_eq!(node.name, "node2");
}

#[test]
fn node_lookup_consults_only_the_first_page() {
    // The remote API paginates at 50 nodes per page.  A node that exists
    // only on page two is reported as not found: the client deliberately
    // preserves this first-page-only limitation.
    let b = file_config("https://panel", "tok", "alice");
    let first_page: Vec<(u32, String)> = (1..=50).map(|i| (i, format!("node{}", i))).collect();
    let borrowed: Vec<(u32, &str)> =
        first_page.iter().map(|(i, n)| (*i, n.as_str())).collect();
    let response = ok_response(node_list(&borrowed));
    // "node51" lives on page two of the remote directory.
    assert!(b.get_node_by_name(&"node51".to_string(), response).is_none());
}

#[test]
fn resolved_values_require_a_response() {
    let config = file_config("https://panel", "tok", "alice");
    let err = ResolvedValues::new_resolved(&config, None).unwrap_err();
    assert_eq!(err.username, "alice");
}

#[test]
fn request_url_and_bearer_token_formatting() {
    let b = file_config("https://panel", "tok123", "alice");
    assert_eq!(b.request_url("/api/application", "users"), "https://panel/api/application/users");
    assert_eq!(b.request_url("/api/application", "nodes"), "https://panel/api/application/nodes");
    assert_eq!(b.bearer_token(), "Bearer tok123");
}

#[test]
fn find_user_returns_first_exact_match() {
    let users = vec![
        RemoteUser { id: 1, username: "bob".to_string() },
        RemoteUser { id: 2, username: "alice".to_string() },
        RemoteUser { id: 3, username: "alice".to_string() },
    ];
    let found = find_user(&users, &"alice".to_string()).unwrap();
    assert_eq!(found.id, 2);
    assert!(find_user(&users, &"carol".to_string()).is_none());
}

#[test]
fn find_node_returns_first_exact_match() {
    let nodes = vec![
        RemoteNode { id: 4, name: "node1".to_string() },
        RemoteNode { id: 6, name: "node1".to_string() },
    ];
    let found = find_node(&nodes, &"node1".to_string()).unwrap();
    assert_eq!(found.id, 4);
    assert!(find_node(&nodes, &"node9".to_string()).is_none());
}

#[test]
fn resolve_user_id_succeeds_exactly_on_a_match() {
    let users = vec![RemoteUser { id: 5, username: "alice".to_string() }];
    assert_eq!(resolve_user_id(&users, &"alice".to_string()).unwrap(), 5);
    let err = resolve_user_id(&users, &"bob".to_string()).unwrap_err();
    assert_eq!(err.username, "bob");
}

#[test]
fn oversized_ids_make_the_body_undecodable() {
    let b = file_config("https://panel", "tok", "alice");
    let body = format!(
        "{{\"data\":[{{\"attributes\":{{\"id\":{},\"username\":\"alice\"}}}}]}}",
        (u32::MAX as u64) + 1
    );
    assert!(b.get_user_by_name(&"alice".to_string(), ok_response(body)).is_none());
}
