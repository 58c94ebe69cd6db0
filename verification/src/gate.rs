//! Interception of primary-ingress traffic between the transport adapters
//! and the verification stage.
//!
//! A trusted relay advertises liveness through heartbeat pulses. While the
//! relay is alive the interceptor suppresses packet batches arriving on the
//! primary ingress, because the relay is then the sole source of ordinary
//! transaction traffic: admitting both paths would let a transaction in twice.
//! When no heartbeat arrives within the configured timeout, or the heartbeat
//! channel closes, the interceptor falls back to forwarding batches directly,
//! so a dead relay can never stall ingestion.

use vstd::prelude::*;

verus! {

/// The three logically distinct ingress classes, each with its own queue and
/// per-class connection limits.
#[derive(Clone, Copy, PartialEq, Eq, Structural, Debug)]
pub enum IngressClass {
    Transactions,
    Forwards,
    Votes,
}

/// An ordered batch of raw transaction payloads together with its receipt
/// metadata. Batches move by value between queues; the interceptor never
/// alters their contents.
#[derive(Clone, Debug)]
pub struct PacketBatch {
    /// Raw transaction bytes, in arrival order.
    pub payloads: Vec<Vec<u8>>,
    /// Which ingress class delivered the batch.
    pub source: IngressClass,
}

/// Routing state of the interceptor, owned exclusively by it. `Direct` is
/// the initial state.
#[derive(Clone, Copy, PartialEq, Eq, Structural, Debug)]
pub enum InterceptionMode {
    Direct,
    Relayed,
}

/// What the interceptor observes between packet batches.
#[derive(Clone, Copy, PartialEq, Eq, Structural, Debug)]
pub enum GateEvent {
    /// The relay signalled liveness.
    Heartbeat,
    /// No heartbeat arrived within the configured interval.
    HeartbeatTimeout,
    /// The relay terminated and its heartbeat channel is closed.
    HeartbeatChannelClosed,
}

/// What happens to a primary-ingress packet batch.
#[derive(Clone, Copy, PartialEq, Eq, Structural, Debug)]
pub enum RouteAction {
    /// Hand the batch on to the direct verification path, unchanged.
    Forward,
    /// Drop the batch: the relay is the sole source while it is alive.
    Drop,
}

/// The interceptor's transition relation. A heartbeat leads to `Relayed`; a
/// heartbeat timeout or a closed heartbeat channel leads back to `Direct`
/// (failing closed rather than waiting on a dead relay). No other
/// transitions exist.
pub open spec fn next_mode(mode: InterceptionMode, event: GateEvent) -> InterceptionMode {
    match event {
        GateEvent::Heartbeat => InterceptionMode::Relayed,
        GateEvent::HeartbeatTimeout => InterceptionMode::Direct,
        GateEvent::HeartbeatChannelClosed => InterceptionMode::Direct,
    }
}

/// How each mode routes a primary-ingress batch.
pub open spec fn route_of(mode: InterceptionMode) -> RouteAction {
    match mode {
        InterceptionMode::Direct => RouteAction::Forward,
        InterceptionMode::Relayed => RouteAction::Drop,
    }
}

/// The interceptor between the transports and verification, with the timed
/// view of heartbeat liveness: a heartbeat at time `t` keeps it relaying
/// until `t + heartbeat_timeout_ms`.
#[derive(Clone, Copy, PartialEq, Eq, Structural, Debug)]
pub struct InterceptionGate {
    /// Current routing mode.
    pub mode: InterceptionMode,
    /// How long a single heartbeat keeps the relay considered alive.
    pub heartbeat_timeout_ms: u64,
    /// Instant at which relaying expires unless a fresh heartbeat arrives.
    /// Meaningful only while `mode` is `Relayed`.
    pub relay_deadline_ms: u64,
}

impl InterceptionGate {
    /// A new interceptor starts in `Direct`: until the relay proves itself
    /// alive, traffic flows straight through.
    pub fn new(heartbeat_timeout_ms: u64) -> (r: InterceptionGate)
        ensures
            r.mode is Direct,
            r.heartbeat_timeout_ms == heartbeat_timeout_ms,
            r.relay_deadline_ms == 0,
    {
        InterceptionGate {
            mode: InterceptionMode::Direct,
            heartbeat_timeout_ms,
            relay_deadline_ms: 0,
        }
    }

    /// A heartbeat arrived at `now_ms`: switch to (or stay in) `Relayed` and
    /// extend the relay's lease by the configured timeout, saturating at the
    /// end of time.
    pub fn on_heartbeat(&mut self, now_ms: u64)
        ensures
            final(self).mode == next_mode(old(self).mode, GateEvent::Heartbeat),
            final(self).mode is Relayed,
            final(self).heartbeat_timeout_ms == old(self).heartbeat_timeout_ms,
            now_ms + old(self).heartbeat_timeout_ms <= u64::MAX ==> final(self).relay_deadline_ms
                == now_ms + old(self).heartbeat_timeout_ms,
            now_ms + old(self).heartbeat_timeout_ms > u64::MAX ==> final(self).relay_deadline_ms
                == u64::MAX,
    {
        self.mode = InterceptionMode::Relayed;
        self.relay_deadline_ms = if now_ms <= u64::MAX - self.heartbeat_timeout_ms {
            now_ms + self.heartbeat_timeout_ms
        } else {
            u64::MAX
        };
    }

    /// A timed wait elapsed at `now_ms` without a heartbeat. If the relay's
    /// lease has expired the interceptor reverts to `Direct`; otherwise
    /// nothing changes. Returns whether the heartbeat timed out.
    pub fn on_wait_elapsed(&mut self, now_ms: u64) -> (timed_out: bool)
        ensures
            timed_out == (old(self).mode is Relayed && now_ms >= old(self).relay_deadline_ms),
            timed_out ==> final(self).mode == next_mode(
                old(self).mode,
                GateEvent::HeartbeatTimeout,
            ),
            !timed_out ==> final(self).mode == old(self).mode,
            final(self).heartbeat_timeout_ms == old(self).heartbeat_timeout_ms,
            final(self).relay_deadline_ms == old(self).relay_deadline_ms,
    {
        match self.mode {
            InterceptionMode::Relayed => {
                if now_ms >= self.relay_deadline_ms {
                    self.mode = InterceptionMode::Direct;
                    true
                } else {
                    false
                }
            },
            InterceptionMode::Direct => false,
        }
    }

    /// The relay terminated: its heartbeat channel is closed. The interceptor
    /// fails closed into `Direct` instead of waiting on a channel that can
    /// never deliver again.
    pub fn on_heartbeat_channel_closed(&mut self)
        ensures
            final(self).mode == next_mode(old(self).mode, GateEvent::HeartbeatChannelClosed),
            final(self).mode is Direct,
            final(self).heartbeat_timeout_ms == old(self).heartbeat_timeout_ms,
            final(self).relay_deadline_ms == old(self).relay_deadline_ms,
    {
        self.mode = InterceptionMode::Direct;
    }

    /// Routes one primary-ingress packet batch: forwarded unchanged while
    /// `Direct`, dropped (not queued, not retried) while `Relayed`.
    pub fn route(&self, batch: PacketBatch) -> (r: Option<PacketBatch>)
        ensures
            route_of(self.mode) is Forward ==> r == Some(batch),
            route_of(self.mode) is Drop ==> r is None,
    {
        match self.mode {
            InterceptionMode::Direct => Some(batch),
            InterceptionMode::Relayed => None,
        }
    }
}

/// Once a heartbeat arrives the next primary-ingress batch is dropped, and
/// once the heartbeat times out the interceptor is back in `Direct` and the
/// next batch is forwarded — from any starting mode.
pub proof fn lemma_gate_interception(mode: InterceptionMode)
    ensures
        route_of(next_mode(mode, GateEvent::Heartbeat)) is Drop,
        route_of(next_mode(mode, GateEvent::HeartbeatTimeout)) is Forward,
        route_of(next_mode(mode, GateEvent::HeartbeatChannelClosed)) is Forward,
{
}

} // verus!
