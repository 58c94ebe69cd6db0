//! Construction-time configuration surface.
//!
//! The transports get per-class connection parameters derived from one set of
//! base limits: the vote and forward classes are restricted to staked peers
//! (their unstaked budget is folded into the staked one), and only the
//! primary transaction class allows several connections per peer. The
//! fee/tip advertisement record is the one piece of state written by the
//! bundle path and read by the block-engine path after construction; the
//! caller guards it with a lock, this module defines the record and its
//! accessors.

use vstd::prelude::*;

use crate::blacklist::AccountId;
use crate::gate::IngressClass;

verus! {

/// Connections allowed from a single peer on the primary transaction class:
/// several, to tolerate NAT and open/close overlap.
pub const MAX_QUIC_CONNECTIONS_PER_PEER: usize = 8;

/// Base connection and rate limits shared by every transport endpoint.
#[derive(Clone, Copy, PartialEq, Eq, Structural, Debug)]
pub struct TransportLimits {
    /// Connection budget for staked peers.
    pub max_staked_connections: usize,
    /// Connection budget for unstaked peers.
    pub max_unstaked_connections: usize,
    /// Per-address connection rate limit.
    pub max_connections_per_ipaddr_per_min: u64,
    /// Arrival-coalescing window used by the transports.
    pub coalesce_ms: u64,
}

/// Connection parameters handed to one transport endpoint.
#[derive(Clone, Copy, PartialEq, Eq, Structural, Debug)]
pub struct ConnectionParams {
    /// Simultaneous connections allowed from one peer.
    pub max_connections_per_peer: usize,
    /// Connection budget for staked peers.
    pub max_staked_connections: usize,
    /// Connection budget for unstaked peers.
    pub max_unstaked_connections: usize,
    /// Per-address connection rate limit.
    pub max_connections_per_ipaddr_per_min: u64,
    /// Arrival-coalescing window.
    pub coalesce_ms: u64,
}

/// Sum of the two connection budgets, saturating at the machine limit.
pub open spec fn combined_connection_budget(a: usize, b: usize) -> usize {
    if a + b <= usize::MAX {
        (a + b) as usize
    } else {
        usize::MAX
    }
}

impl ConnectionParams {
    /// Derives the parameters of one ingress class from the base limits:
    /// votes accept a single connection per peer, and both the vote and the
    /// forward class accept no unstaked connections at all, handing their
    /// whole combined budget to staked peers — unstaked nodes may neither
    /// vote through this pipeline nor forward transactions into it.
    pub fn for_ingress_class(class: IngressClass, limits: &TransportLimits) -> (r:
        ConnectionParams)
        ensures
            r.max_connections_per_ipaddr_per_min == limits.max_connections_per_ipaddr_per_min,
            r.coalesce_ms == limits.coalesce_ms,
            class is Transactions ==> r.max_connections_per_peer == MAX_QUIC_CONNECTIONS_PER_PEER
                && r.max_staked_connections == limits.max_staked_connections
                && r.max_unstaked_connections == limits.max_unstaked_connections,
            class is Forwards ==> r.max_connections_per_peer == MAX_QUIC_CONNECTIONS_PER_PEER
                && r.max_staked_connections == combined_connection_budget(
                limits.max_staked_connections,
                limits.max_unstaked_connections,
            ) && r.max_unstaked_connections == 0,
            class is Votes ==> r.max_connections_per_peer == 1 && r.max_staked_connections
                == combined_connection_budget(
                limits.max_staked_connections,
                limits.max_unstaked_connections,
            ) && r.max_unstaked_connections == 0,
    {
        let combined: usize = if limits.max_staked_connections <= usize::MAX
            - limits.max_unstaked_connections {
            limits.max_staked_connections + limits.max_unstaked_connections
        } else {
            usize::MAX
        };
        match class {
            IngressClass::Transactions => ConnectionParams {
                max_connections_per_peer: MAX_QUIC_CONNECTIONS_PER_PEER,
                max_staked_connections: limits.max_staked_connections,
                max_unstaked_connections: limits.max_unstaked_connections,
                max_connections_per_ipaddr_per_min: limits.max_connections_per_ipaddr_per_min,
                coalesce_ms: limits.coalesce_ms,
            },
            IngressClass::Forwards => ConnectionParams {
                max_connections_per_peer: MAX_QUIC_CONNECTIONS_PER_PEER,
                max_staked_connections: combined,
                max_unstaked_connections: 0,
                max_connections_per_ipaddr_per_min: limits.max_connections_per_ipaddr_per_min,
                coalesce_ms: limits.coalesce_ms,
            },
            IngressClass::Votes => ConnectionParams {
                max_connections_per_peer: 1,
                max_staked_connections: combined,
                max_unstaked_connections: 0,
                max_connections_per_ipaddr_per_min: limits.max_connections_per_ipaddr_per_min,
                coalesce_ms: limits.coalesce_ms,
            },
        }
    }
}

/// The block-builder fee advertisement: recipient identity and commission
/// rate. Written by the bundle path, read by the block-engine advertisement
/// path; the two run concurrently, so the owner keeps this record behind a
/// mutual-exclusion lock and a reader always observes a fully written value.
#[derive(Clone, Debug)]
pub struct BlockBuilderFeeInfo {
    /// Identity that collects the block-builder fee.
    pub block_builder: AccountId,
    /// Commission rate advertised for that builder.
    pub block_builder_commission: u64,
}

impl BlockBuilderFeeInfo {
    /// At construction the pipeline's own identity is advertised with no
    /// commission.
    pub fn new(block_builder: AccountId) -> (r: BlockBuilderFeeInfo)
        ensures
            r.block_builder@ == block_builder@,
            r.block_builder_commission == 0,
    {
        BlockBuilderFeeInfo { block_builder, block_builder_commission: 0 }
    }

    /// Write accessor of the bundle path: replaces both fields at once, so no
    /// reader can observe the recipient of one builder with the commission of
    /// another.
    pub fn update(&mut self, block_builder: AccountId, commission: u64)
        ensures
            final(self).block_builder@ == block_builder@,
            final(self).block_builder_commission == commission,
    {
        self.block_builder = block_builder;
        self.block_builder_commission = commission;
    }
}

} // verus!
