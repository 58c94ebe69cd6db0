//! Queue topology of the pipeline.
//!
//! Every pair of stages communicates through an unbounded queue and nothing
//! else: no stage reaches into another stage's state. The orchestrator
//! allocates every queue before it constructs the stages, and it may not
//! return before every queue has at least one producer and at least one
//! consumer assigned. This module describes that wiring as data and proves
//! the standard topology fully wired, with and without the optional entry
//! notification tee.

use vstd::prelude::*;

verus! {

/// Every unit of work that produces into or consumes from a pipeline queue.
/// `PohService` and `ReplayStage` are external collaborators that feed the
/// pipeline; the rest are stages the orchestrator owns.
#[derive(Clone, Copy, PartialEq, Eq, Structural, Debug)]
pub enum StageId {
    Fetch,
    QuicTransactions,
    QuicForwards,
    QuicVotes,
    FetchStageManager,
    SigVerify,
    VoteSigVerify,
    VoteListener,
    Banking,
    BundleStage,
    BlockEngine,
    Relayer,
    EntryNotifier,
    Broadcast,
    PohService,
    ReplayStage,
}

/// The queues connecting the stages.
#[derive(Clone, Copy, PartialEq, Eq, Structural, Debug)]
pub enum QueueId {
    /// Primary-ingress batches headed for the interception gate.
    PacketIntercept,
    /// Vote batches headed for the vote verifier.
    VotePackets,
    /// Forwarded batches re-entering the fetch stage.
    ForwardedPackets,
    /// Batches the interceptor or the proxies hand to the transaction
    /// verifier.
    Packets,
    /// Verified ordinary transactions headed for the production engine.
    NonVoteTransactions,
    /// Verified votes headed for the production engine.
    TpuVoteTransactions,
    /// Gossip-sourced votes headed for the production engine.
    GossipVoteTransactions,
    /// Bundle candidates from the auction path.
    Bundles,
    /// Relay liveness pulses for the interception gate.
    Heartbeats,
    /// Produced ledger entries leaving the production engine.
    Entries,
    /// Entries the notification tee passes on to broadcast.
    BroadcastEntries,
    /// Slots to retransmit, from the replay collaborator.
    RetransmitSlots,
}

/// One queue with the stages assigned to its two ends.
#[derive(Clone, Debug)]
pub struct QueueSpec {
    /// Which queue this is.
    pub id: QueueId,
    /// Stages holding the sending end.
    pub producers: Vec<StageId>,
    /// Stages holding the receiving end.
    pub consumers: Vec<StageId>,
}

/// The full wiring of one pipeline.
#[derive(Clone, Debug)]
pub struct Topology {
    /// Every queue of the pipeline.
    pub queues: Vec<QueueSpec>,
}

/// A queue is wired when both of its ends are assigned.
pub open spec fn queue_wired(q: QueueSpec) -> bool {
    q.producers@.len() > 0 && q.consumers@.len() > 0
}

/// A topology is fully wired when every queue is.
pub open spec fn fully_wired(t: Topology) -> bool {
    forall|i: int| 0 <= i < t.queues@.len() ==> queue_wired(#[trigger] t.queues@[i])
}

fn queue_1_1(id: QueueId, p: StageId, c: StageId) -> (q: QueueSpec)
    ensures
        q.id == id,
        q.producers@ =~= seq![p],
        q.consumers@ =~= seq![c],
{
    let mut producers: Vec<StageId> = Vec::new();
    producers.push(p);
    let mut consumers: Vec<StageId> = Vec::new();
    consumers.push(c);
    QueueSpec { id, producers, consumers }
}

fn queue_2_1(id: QueueId, p1: StageId, p2: StageId, c: StageId) -> (q: QueueSpec)
    ensures
        q.id == id,
        q.producers@ =~= seq![p1, p2],
        q.consumers@ =~= seq![c],
{
    let mut producers: Vec<StageId> = Vec::new();
    producers.push(p1);
    producers.push(p2);
    let mut consumers: Vec<StageId> = Vec::new();
    consumers.push(c);
    QueueSpec { id, producers, consumers }
}

fn queue_3_1(id: QueueId, p1: StageId, p2: StageId, p3: StageId, c: StageId) -> (q: QueueSpec)
    ensures
        q.id == id,
        q.producers@ =~= seq![p1, p2, p3],
        q.consumers@ =~= seq![c],
{
    let mut producers: Vec<StageId> = Vec::new();
    producers.push(p1);
    producers.push(p2);
    producers.push(p3);
    let mut consumers: Vec<StageId> = Vec::new();
    consumers.push(c);
    QueueSpec { id, producers, consumers }
}

impl Topology {
    /// Checks that every queue has both ends assigned.
    pub fn is_fully_wired(&self) -> (r: bool)
        ensures
            r == fully_wired(*self),
    {
        let n = self.queues.len();
        let mut i: usize = 0;
        while i < n
            invariant
                i <= n,
                n == self.queues@.len(),
                forall|j: int| 0 <= j < i ==> queue_wired(#[trigger] self.queues@[j]),
            decreases n - i,
        {
            if self.queues[i].producers.len() == 0 || self.queues[i].consumers.len() == 0 {
                return false;
            }
            i += 1;
        }
        true
    }
}

/// The standard wiring of the pipeline, fully wired by construction. Entries
/// flow to the broadcast stage either directly or, when the optional
/// notification tee is configured, through it — the tee sits on the broadcast
/// path without giving any queue a second consumer, so it can neither block
/// nor reorder that path.
pub fn standard_topology(with_entry_notifier: bool) -> (t: Topology)
    ensures
        fully_wired(t),
        with_entry_notifier ==> t.queues@.len() == 12,
        !with_entry_notifier ==> t.queues@.len() == 11,
        forall|i: int|
            0 <= i < t.queues@.len() && (#[trigger] t.queues@[i]).id is Entries
                ==> t.queues@[i].consumers@ =~= seq![
                if with_entry_notifier {
                    StageId::EntryNotifier
                } else {
                    StageId::Broadcast
                },
            ],
{
    let mut queues: Vec<QueueSpec> = Vec::new();
    queues.push(
        queue_2_1(
            QueueId::PacketIntercept,
            StageId::Fetch,
            StageId::QuicTransactions,
            StageId::FetchStageManager,
        ),
    );
    queues.push(
        queue_2_1(QueueId::VotePackets, StageId::Fetch, StageId::QuicVotes, StageId::VoteSigVerify),
    );
    queues.push(
        queue_2_1(QueueId::ForwardedPackets, StageId::Fetch, StageId::QuicForwards, StageId::Fetch),
    );
    queues.push(
        queue_3_1(
            QueueId::Packets,
            StageId::FetchStageManager,
            StageId::BlockEngine,
            StageId::Relayer,
            StageId::SigVerify,
        ),
    );
    queues.push(
        queue_3_1(
            QueueId::NonVoteTransactions,
            StageId::SigVerify,
            StageId::BlockEngine,
            StageId::Relayer,
            StageId::Banking,
        ),
    );
    queues.push(
        queue_1_1(QueueId::TpuVoteTransactions, StageId::VoteSigVerify, StageId::Banking),
    );
    queues.push(
        queue_1_1(QueueId::GossipVoteTransactions, StageId::VoteListener, StageId::Banking),
    );
    queues.push(queue_1_1(QueueId::Bundles, StageId::BlockEngine, StageId::BundleStage));
    queues.push(queue_1_1(QueueId::Heartbeats, StageId::Relayer, StageId::FetchStageManager));
    if with_entry_notifier {
        queues.push(queue_1_1(QueueId::Entries, StageId::PohService, StageId::EntryNotifier));
        queues.push(
            queue_1_1(QueueId::BroadcastEntries, StageId::EntryNotifier, StageId::Broadcast),
        );
    } else {
        queues.push(queue_1_1(QueueId::Entries, StageId::PohService, StageId::Broadcast));
    }
    queues.push(queue_1_1(QueueId::RetransmitSlots, StageId::ReplayStage, StageId::Broadcast));
    Topology { queues }
}

} // verus!
