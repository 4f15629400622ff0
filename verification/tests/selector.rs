use cotoxy::consul::{service_address_of, Endpoint, ServiceNode, TaggedAddresses};
use cotoxy::error::Error;
use cotoxy::proxy_server::{select_backend, SelectServer};

fn node(address: &str, service_address: Option<&str>, service_port: u16) -> ServiceNode {
    ServiceNode {
        id: "id".to_string(),
        node: "node".to_string(),
        address: address.to_string(),
        datacenter: "dc1".to_string(),
        tagged_addresses: TaggedAddresses {
            lan: address.to_string(),
            wan: address.to_string(),
        },
        node_meta: Vec::new(),
        create_index: 1,
        modify_index: 1,
        service_address: service_address.map(|s| s.to_string()),
        service_enable_tag_override: false,
        service_id: "svc-id".to_string(),
        service_name: "svc".to_string(),
        service_port,
        service_tags: Vec::new(),
    }
}

#[test]
fn first_reachable_candidate_wins() {
    // The third candidate is the first reachable one: the selector connects
    // to it and attempts nothing after it.
    let nodes = vec![
        node("10.0.0.1", None, 81),
        node("10.0.0.2", None, 82),
        node("10.0.0.3", None, 83),
        node("10.0.0.4", None, 84),
    ];
    let outcomes = vec![false, false, true, true];
    let run = select_backend(nodes, None, 1000, &outcomes);
    assert_eq!(run.attempted.len(), 3);
    assert_eq!(run.attempted[0].host, "10.0.0.1");
    assert_eq!(run.attempted[1].host, "10.0.0.2");
    assert_eq!(run.attempted[2].host, "10.0.0.3");
    let ep = run.result.unwrap();
    assert_eq!(ep.host, "10.0.0.3");
    assert_eq!(ep.port, 83);
}

#[test]
fn empty_candidate_list_fails() {
    let run = select_backend(Vec::new(), None, 1000, &Vec::new());
    assert_eq!(run.attempted.len(), 0);
    assert_eq!(run.result, Err(Error::NoAvailableBackend));
}

#[test]
fn fully_unreachable_list_fails_after_every_candidate() {
    let nodes = vec![
        node("10.0.0.1", None, 81),
        node("10.0.0.2", None, 82),
    ];
    let outcomes = vec![false, false];
    let run = select_backend(nodes, None, 1000, &outcomes);
    assert_eq!(run.attempted.len(), 2);
    assert_eq!(run.result, Err(Error::NoAvailableBackend));
}

#[test]
fn candidates_are_tried_in_directory_order() {
    let nodes = vec![
        node("10.0.0.9", None, 9),
        node("10.0.0.5", None, 5),
        node("10.0.0.7", None, 7),
    ];
    let outcomes = vec![false, false, false];
    let run = select_backend(nodes, None, 1000, &outcomes);
    let hosts: Vec<&str> = run.attempted.iter().map(|e| e.host.as_str()).collect();
    assert_eq!(hosts, vec!["10.0.0.9", "10.0.0.5", "10.0.0.7"]);
    let ports: Vec<u16> = run.attempted.iter().map(|e| e.port).collect();
    assert_eq!(ports, vec![9, 5, 7]);
}

#[test]
fn port_override_applies_to_every_candidate() {
    let nodes = vec![
        node("10.0.0.1", None, 81),
        node("10.0.0.2", None, 9999),
        node("10.0.0.3", Some("10.9.9.9"), 7),
    ];
    let outcomes = vec![false, false, false];
    let run = select_backend(nodes, Some(443), 1000, &outcomes);
    assert_eq!(run.attempted.len(), 3);
    for ep in &run.attempted {
        assert_eq!(ep.port, 443);
    }
}

#[test]
fn effective_address_prefers_service_address() {
    let with_override = node("10.0.0.1", Some("10.0.0.9"), 8080);
    let ep = with_override.socket_addr(None);
    assert_eq!(ep.host, "10.0.0.9");
    assert_eq!(ep.port, 8080);

    let without_override = node("10.0.0.1", None, 8080);
    let ep = without_override.socket_addr(None);
    assert_eq!(ep.host, "10.0.0.1");
    assert_eq!(ep.port, 8080);
}

#[test]
fn effective_port_prefers_operator_override() {
    let n = node("10.0.0.1", None, 8080);
    assert_eq!(n.socket_addr(Some(443)).port, 443);
    assert_eq!(n.socket_addr(None).port, 8080);
}

#[test]
fn empty_service_address_means_absent() {
    assert_eq!(service_address_of(""), None);
    assert_eq!(service_address_of("10.0.0.9"), Some("10.0.0.9".to_string()));
}

#[test]
fn failover_scenario_second_candidate_accepts() {
    // Directory reports two nodes on port 8080; 10.0.0.1 refuses, so the
    // proxy connects to 10.0.0.2:8080.
    let nodes = vec![node("10.0.0.1", None, 8080), node("10.0.0.2", None, 8080)];
    let outcomes = vec![false, true];
    let run = select_backend(nodes, None, 1000, &outcomes);
    assert_eq!(run.attempted.len(), 2);
    let ep = run.result.unwrap();
    assert_eq!(ep.host, "10.0.0.2");
    assert_eq!(ep.port, 8080);
}

#[test]
fn service_address_scenario_connects_to_override() {
    // A node with ServiceAddress 10.0.0.9 and Address 10.0.0.1: the proxy
    // connects to 10.0.0.9, not 10.0.0.1.
    let nodes = vec![node("10.0.0.1", Some("10.0.0.9"), 8080)];
    let outcomes = vec![true];
    let run = select_backend(nodes, None, 1000, &outcomes);
    let ep = run.result.unwrap();
    assert_eq!(ep.host, "10.0.0.9");
    assert_ne!(ep.host, "10.0.0.1");
}

#[test]
fn timeout_is_logged_distinct_from_refusal_and_selection_advances() {
    // A connect attempt that exceeds the configured timeout: the failure
    // record says timeout — not refused — and the selector moves on to the
    // next candidate without waiting further.
    let mut sel = SelectServer::new(None, 1000);
    assert_eq!(sel.connect_timeout_ms, 1000);
    sel.on_candidates(vec![
        node("203.0.113.1", None, 8080),
        node("10.0.0.2", None, 8080),
    ]);
    let first = sel.next_candidate().unwrap();
    assert_eq!(first.host, "203.0.113.1");
    let failure = sel.on_connect_failed(true);
    assert!(failure.timed_out);
    assert_eq!(failure.error, Error::ConnectTimeout);
    assert_eq!(failure.endpoint.host, "203.0.113.1");
    let second = sel.next_candidate().unwrap();
    assert_eq!(second.host, "10.0.0.2");

    let mut sel = SelectServer::new(None, 1000);
    sel.on_candidates(vec![node("10.0.0.1", None, 8080)]);
    sel.next_candidate().unwrap();
    let refused = sel.on_connect_failed(false);
    assert!(!refused.timed_out);
    assert_eq!(refused.error, Error::ConnectAttemptError);
}

#[test]
fn exhausted_selector_reports_no_available_backend() {
    let mut sel = SelectServer::new(None, 1000);
    sel.on_candidates(vec![node("10.0.0.1", None, 8080)]);
    sel.next_candidate().unwrap();
    sel.on_connect_failed(false);
    match sel.next_candidate() {
        Err(e) => assert_eq!(e, Error::NoAvailableBackend),
        Ok(_) => panic!("an exhausted selector must fail"),
    }
}

#[test]
fn endpoint_clone_keeps_its_parts() {
    let ep = Endpoint::new("192.0.2.1".to_string(), 17382);
    let copy = ep.clone();
    assert_eq!(copy.host, "192.0.2.1");
    assert_eq!(copy.port, 17382);
}
