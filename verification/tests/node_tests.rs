use flo_core::node::{NodeConfig, NodeError, NodeRegistry, PingUpdate};

fn cfg(node_id: i32, region: u32) -> NodeConfig {
    NodeConfig {
        node_id,
        address: format!("node-{}", node_id),
        region,
    }
}

fn registry(nodes: Vec<NodeConfig>) -> NodeRegistry {
    let mut r = NodeRegistry::new();
    r.set_nodes(nodes);
    r
}

#[test]
fn set_nodes_starts_without_pings() {
    let r = registry(vec![cfg(1, 0), cfg(2, 1)]);
    let snapshot = r.list();
    assert_eq!(snapshot.len(), 2);
    assert_eq!(snapshot[0].node_id, 1);
    assert_eq!(snapshot[0].address, "node-1");
    assert_eq!(snapshot[0].current_ping, None);
    assert_eq!(snapshot[0].fail_count, 0);
}

#[test]
fn pong_records_ping_and_emits_update() {
    let mut r = registry(vec![cfg(1, 0)]);
    let update = r.record_pong(1, 35).unwrap();
    assert_eq!(
        update,
        PingUpdate {
            node_id: 1,
            ping: Some(35)
        }
    );
    assert_eq!(r.list()[0].current_ping, Some(35));
    // An unknown node yields no update.
    assert!(r.record_pong(9, 10).is_none());
}

#[test]
fn three_failures_mark_node_missing() {
    let mut r = registry(vec![cfg(1, 0)]);
    r.record_pong(1, 35).unwrap();
    assert!(r.record_failure(1).is_none());
    assert!(r.record_failure(1).is_none());
    // The ping survives the first two failures.
    assert_eq!(r.list()[0].current_ping, Some(35));
    // The third failure clears it and emits the missing-node update.
    let update = r.record_failure(1).unwrap();
    assert_eq!(
        update,
        PingUpdate {
            node_id: 1,
            ping: None
        }
    );
    assert_eq!(r.list()[0].current_ping, None);
    // Further failures keep it missing without another update.
    assert!(r.record_failure(1).is_none());
    assert_eq!(r.list()[0].current_ping, None);
}

#[test]
fn pong_resets_the_fail_counter() {
    let mut r = registry(vec![cfg(1, 0)]);
    r.record_failure(1);
    r.record_failure(1);
    r.record_pong(1, 20).unwrap();
    assert_eq!(r.list()[0].fail_count, 0);
    assert_eq!(r.list()[0].current_ping, Some(20));
}

#[test]
fn select_prefers_lowest_ping_in_region() {
    let mut r = registry(vec![cfg(1, 0), cfg(2, 1), cfg(3, 1)]);
    r.record_pong(1, 5).unwrap();
    r.record_pong(2, 50).unwrap();
    r.record_pong(3, 30).unwrap();
    // Region 1 has live nodes: the faster of the two wins even though a
    // node outside the region is faster still.
    assert_eq!(r.select_node(Some(1)).unwrap(), 3);
    // Without a preferred region the global minimum wins.
    assert_eq!(r.select_node(None).unwrap(), 1);
}

#[test]
fn select_falls_back_outside_dead_region() {
    let mut r = registry(vec![cfg(1, 0), cfg(2, 1)]);
    r.record_pong(1, 40).unwrap();
    // Region 1's only node has no ping: fall back to the global minimum.
    assert_eq!(r.select_node(Some(1)).unwrap(), 1);
}

#[test]
fn select_returns_live_node_when_one_exists() {
    let mut r = registry(vec![cfg(1, 0), cfg(2, 0)]);
    r.record_pong(2, 80).unwrap();
    assert_eq!(r.select_node(None).unwrap(), 2);
}

#[test]
fn select_with_no_pings_still_answers() {
    let r = registry(vec![cfg(4, 0), cfg(5, 0)]);
    assert_eq!(r.select_node(None).unwrap(), 4);
}

#[test]
fn select_on_empty_registry_fails() {
    let r = NodeRegistry::new();
    assert_eq!(r.select_node(None).unwrap_err(), NodeError::NoNodesAvailable);
}
