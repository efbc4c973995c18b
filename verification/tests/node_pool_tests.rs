use iota_client::{Client, Error, HealthySet, SyncAction, SyncEvent, Synchronizer};

fn node_list() -> Vec<String> {
    vec![
        String::from("https://one.example"),
        String::from("https://two.example"),
        String::from("https://three.example"),
    ]
}

#[test]
fn healthy_set_is_exactly_the_answering_subset() {
    let nodes = node_list();
    let healthy = HealthySet::from_probe_results(&nodes, &vec![true, false, true]);
    assert_eq!(healthy.len(), 2);
    let picked = healthy.get_node().unwrap();
    assert!(picked == nodes[0] || picked == nodes[2]);
    assert_ne!(picked, nodes[1]);
}

#[test]
fn sync_cycle_replaces_without_stale_entries() {
    let mut client = Client::builder()
        .with_node(String::from("https://one.example"))
        .with_node(String::from("https://two.example"))
        .with_node(String::from("https://three.example"))
        .build();
    client.sync_nodes(&vec![true, true, true]);
    let node = client.get_node().unwrap();
    assert!(node.starts_with("https://"));
    // The next cycle reports every node unhealthy: the set must end up empty,
    // not keep what the earlier cycle found.
    client.sync_nodes(&vec![false, false, false]);
    assert!(matches!(client.get_node(), Err(Error::NodePoolEmpty)));
}

#[test]
fn empty_pool_fails_fast() {
    let pool = HealthySet::new();
    assert!(matches!(pool.get_node(), Err(Error::NodePoolEmpty)));
}

#[test]
fn synchronizer_probes_until_cancelled() {
    let mut sync = Synchronizer::new();
    assert_eq!(sync.on_event(SyncEvent::IntervalElapsed), SyncAction::Probe);
    assert_eq!(sync.on_event(SyncEvent::IntervalElapsed), SyncAction::Probe);
    // Cancellation during the wait short-circuits it: no further probe cycle.
    assert_eq!(sync.on_event(SyncEvent::CancelReceived), SyncAction::Shutdown);
    assert_eq!(sync.on_event(SyncEvent::IntervalElapsed), SyncAction::Shutdown);
}
