use tpu_pipeline::blacklist::AccountId;
use tpu_pipeline::config::{
    BlockBuilderFeeInfo, ConnectionParams, TransportLimits, MAX_QUIC_CONNECTIONS_PER_PEER,
};
use tpu_pipeline::gate::IngressClass;
use tpu_pipeline::topology::{standard_topology, QueueId, StageId};

fn limits() -> TransportLimits {
    TransportLimits {
        max_staked_connections: 2000,
        max_unstaked_connections: 500,
        max_connections_per_ipaddr_per_min: 64,
        coalesce_ms: 5,
    }
}

#[test]
fn test_standard_topology_is_fully_wired() {
    let with_tee = standard_topology(true);
    assert!(with_tee.is_fully_wired());
    assert_eq!(with_tee.queues.len(), 12);
    let without_tee = standard_topology(false);
    assert!(without_tee.is_fully_wired());
    assert_eq!(without_tee.queues.len(), 11);
}

#[test]
fn test_entries_flow_through_the_tee_only_when_configured() {
    let with_tee = standard_topology(true);
    let entries = with_tee.queues.iter().find(|q| q.id == QueueId::Entries).unwrap();
    assert_eq!(entries.consumers, vec![StageId::EntryNotifier]);
    let handoff = with_tee.queues.iter().find(|q| q.id == QueueId::BroadcastEntries).unwrap();
    assert_eq!(handoff.producers, vec![StageId::EntryNotifier]);
    assert_eq!(handoff.consumers, vec![StageId::Broadcast]);

    let without_tee = standard_topology(false);
    let entries = without_tee.queues.iter().find(|q| q.id == QueueId::Entries).unwrap();
    assert_eq!(entries.consumers, vec![StageId::Broadcast]);
    assert!(without_tee.queues.iter().all(|q| q.id != QueueId::BroadcastEntries));
}

#[test]
fn test_heartbeats_reach_the_interception_gate() {
    let topo = standard_topology(false);
    let heartbeats = topo.queues.iter().find(|q| q.id == QueueId::Heartbeats).unwrap();
    assert_eq!(heartbeats.producers, vec![StageId::Relayer]);
    assert_eq!(heartbeats.consumers, vec![StageId::FetchStageManager]);
}

#[test]
fn test_transaction_class_connection_params() {
    let p = ConnectionParams::for_ingress_class(IngressClass::Transactions, &limits());
    assert_eq!(p.max_connections_per_peer, MAX_QUIC_CONNECTIONS_PER_PEER);
    assert_eq!(p.max_staked_connections, 2000);
    assert_eq!(p.max_unstaked_connections, 500);
    assert_eq!(p.max_connections_per_ipaddr_per_min, 64);
    assert_eq!(p.coalesce_ms, 5);
}

#[test]
fn test_forward_class_refuses_unstaked_connections() {
    let p = ConnectionParams::for_ingress_class(IngressClass::Forwards, &limits());
    assert_eq!(p.max_connections_per_peer, MAX_QUIC_CONNECTIONS_PER_PEER);
    assert_eq!(p.max_staked_connections, 2500);
    assert_eq!(p.max_unstaked_connections, 0);
}

#[test]
fn test_vote_class_single_connection_per_peer() {
    let p = ConnectionParams::for_ingress_class(IngressClass::Votes, &limits());
    assert_eq!(p.max_connections_per_peer, 1);
    assert_eq!(p.max_staked_connections, 2500);
    assert_eq!(p.max_unstaked_connections, 0);
}

#[test]
fn test_combined_budget_saturates() {
    let l = TransportLimits {
        max_staked_connections: usize::MAX,
        max_unstaked_connections: 5,
        max_connections_per_ipaddr_per_min: 1,
        coalesce_ms: 1,
    };
    let p = ConnectionParams::for_ingress_class(IngressClass::Votes, &l);
    assert_eq!(p.max_staked_connections, usize::MAX);
}

#[test]
fn test_fee_info_accessors() {
    let me = AccountId::from_bytes(vec![9; 32]).unwrap();
    let mut info = BlockBuilderFeeInfo::new(me.clone());
    assert!(info.block_builder.same_as(&me));
    assert_eq!(info.block_builder_commission, 0);
    let builder = AccountId::from_bytes(vec![4; 32]).unwrap();
    info.update(builder.clone(), 5);
    assert!(info.block_builder.same_as(&builder));
    assert_eq!(info.block_builder_commission, 5);
}
