use tpu_pipeline::gate::{IngressClass, InterceptionGate, InterceptionMode, PacketBatch};

fn batch(payload: &[u8]) -> PacketBatch {
    PacketBatch { payloads: vec![payload.to_vec()], source: IngressClass::Transactions }
}

#[test]
fn test_gate_starts_direct_and_forwards() {
    let gate = InterceptionGate::new(500);
    assert_eq!(gate.mode, InterceptionMode::Direct);
    let routed = gate.route(batch(b"tx-1"));
    assert!(routed.is_some());
}

#[test]
fn test_heartbeat_drops_next_batch() {
    let mut gate = InterceptionGate::new(500);
    gate.on_heartbeat(1_000);
    assert_eq!(gate.mode, InterceptionMode::Relayed);
    assert!(gate.route(batch(b"tx-2")).is_none());
}

#[test]
fn test_timeout_reverts_to_direct_and_forwards() {
    let mut gate = InterceptionGate::new(500);
    gate.on_heartbeat(1_000);
    // within the lease nothing changes
    assert!(!gate.on_wait_elapsed(1_499));
    assert_eq!(gate.mode, InterceptionMode::Relayed);
    // once the lease expires the interceptor reverts and forwards again
    assert!(gate.on_wait_elapsed(1_500));
    assert_eq!(gate.mode, InterceptionMode::Direct);
    assert!(gate.route(batch(b"tx-3")).is_some());
}

#[test]
fn test_fresh_heartbeat_extends_the_lease() {
    let mut gate = InterceptionGate::new(500);
    gate.on_heartbeat(1_000);
    gate.on_heartbeat(1_400);
    assert!(!gate.on_wait_elapsed(1_600));
    assert_eq!(gate.mode, InterceptionMode::Relayed);
    assert!(gate.on_wait_elapsed(1_900));
    assert_eq!(gate.mode, InterceptionMode::Direct);
}

#[test]
fn test_heartbeat_lease_saturates_at_end_of_time() {
    let mut gate = InterceptionGate::new(u64::MAX);
    gate.on_heartbeat(10);
    assert_eq!(gate.relay_deadline_ms, u64::MAX);
    assert!(!gate.on_wait_elapsed(u64::MAX - 1));
}

#[test]
fn test_closed_heartbeat_channel_fails_closed() {
    let mut gate = InterceptionGate::new(500);
    gate.on_heartbeat(1_000);
    gate.on_heartbeat_channel_closed();
    assert_eq!(gate.mode, InterceptionMode::Direct);
    assert!(gate.route(batch(b"tx-4")).is_some());
}

#[test]
fn test_forwarded_batch_is_unchanged() {
    let gate = InterceptionGate::new(500);
    let sent = PacketBatch {
        payloads: vec![b"first".to_vec(), b"second".to_vec(), b"third".to_vec()],
        source: IngressClass::Forwards,
    };
    let routed = gate.route(sent).expect("direct mode forwards");
    assert_eq!(
        routed.payloads,
        vec![b"first".to_vec(), b"second".to_vec(), b"third".to_vec()]
    );
    assert_eq!(routed.source, IngressClass::Forwards);
}
