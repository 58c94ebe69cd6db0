//! Unified shutdown protocol.
//!
//! At shutdown the orchestrator joins every stage it owns and collects every
//! outcome rather than stopping at the first failure, so that one stuck or
//! failed stage never masks failures in, or prevents cleanup of, independent
//! stages. Only after every join has been attempted is the first observed
//! failure propagated. One background collaborator — the tracing thread —
//! carries a nested outcome: the join itself can fail (a real failure), and a
//! successful join can still report an inner error, which is diagnostic only
//! and is logged, never propagated.

use vstd::prelude::*;

verus! {

/// How one stage's control loop ended.
#[derive(Clone, Copy, PartialEq, Eq, Structural, Debug)]
pub enum StageOutcome {
    /// The loop ran to completion.
    Completed,
    /// The loop exited abnormally.
    Panicked,
}

/// The nested outcome of the optional tracing collaborator. Joining it can
/// itself fail, and a clean join can still carry an inner reported error; the
/// two severities are never conflated.
#[derive(Clone, Copy, PartialEq, Eq, Structural, Debug)]
pub enum TracerOutcome {
    /// The tracing thread could not be joined: a stage failure.
    JoinFailed,
    /// The join succeeded but the thread reported an internal error:
    /// diagnostic only.
    ReportedError,
    /// The join succeeded with nothing to report.
    Clean,
}

/// What the shutdown ultimately reports as its failure, if any.
#[derive(Clone, Copy, PartialEq, Eq, Structural, Debug)]
pub enum ShutdownFailure {
    /// The stage at this position in the joined sequence failed.
    Stage(usize),
    /// Every stage completed but the tracing thread could not be joined.
    TracerJoin,
}

/// Everything the shutdown observed: every stage outcome, whether a
/// diagnostic error was logged, and the overall verdict.
#[derive(Debug)]
pub struct ShutdownReport {
    /// One outcome per joined stage, in join order, none dropped.
    pub outcomes: Vec<StageOutcome>,
    /// Whether the tracing collaborator reported an inner error. Logged,
    /// never a failure.
    pub diagnostic_logged: bool,
    /// The first observed failure, or success.
    pub overall: Result<(), ShutdownFailure>,
}

/// Whether every stage ran to completion.
pub open spec fn all_completed(outcomes: Seq<StageOutcome>) -> bool {
    forall|i: int| 0 <= i < outcomes.len() ==> outcomes[i] is Completed
}

/// Whether the shutdown as a whole succeeds: every stage completed and the
/// tracing collaborator, if present, could at least be joined.
pub open spec fn shutdown_ok(outcomes: Seq<StageOutcome>, tracer: Option<TracerOutcome>) -> bool {
    all_completed(outcomes) && !(tracer matches Some(TracerOutcome::JoinFailed))
}

/// Resolves the collected outcomes into the shutdown verdict. Every outcome
/// is retained in the report; the overall result is the first stage failure,
/// else a tracer join failure, else success. A tracer-reported inner error is
/// marked for logging and never fails the shutdown.
pub fn resolve_shutdown(outcomes: Vec<StageOutcome>, tracer: Option<TracerOutcome>) -> (r:
    ShutdownReport)
    ensures
        r.outcomes@ == outcomes@,
        r.diagnostic_logged == (tracer matches Some(TracerOutcome::ReportedError)),
        r.overall is Ok <==> shutdown_ok(outcomes@, tracer),
        !all_completed(outcomes@) ==> (r.overall matches Err(ShutdownFailure::Stage(k))
            && 0 <= k < outcomes@.len() && outcomes@[k as int] is Panicked && forall|j: int|
            0 <= j < k ==> outcomes@[j] is Completed),
        all_completed(outcomes@) && (tracer matches Some(TracerOutcome::JoinFailed))
            ==> r.overall == Err::<(), ShutdownFailure>(ShutdownFailure::TracerJoin),
{
    let n = outcomes.len();
    let mut first_failure: Option<usize> = None;
    let mut idx: usize = 0;
    while idx < n
        invariant
            idx <= n,
            n == outcomes@.len(),
            match first_failure {
                None => forall|j: int| 0 <= j < idx ==> outcomes@[j] is Completed,
                Some(f) => 0 <= f < idx && outcomes@[f as int] is Panicked && forall|j: int|
                    0 <= j < f ==> outcomes@[j] is Completed,
            },
        decreases n - idx,
    {
        if first_failure.is_none() {
            if matches!(outcomes[idx], StageOutcome::Panicked) {
                first_failure = Some(idx);
            }
        }
        idx += 1;
    }
    let overall: Result<(), ShutdownFailure> = match first_failure {
        Some(k) => Err(ShutdownFailure::Stage(k)),
        None => match tracer {
            Some(TracerOutcome::JoinFailed) => Err(ShutdownFailure::TracerJoin),
            _ => Ok(()),
        },
    };
    let diagnostic_logged = matches!(tracer, Some(TracerOutcome::ReportedError));
    ShutdownReport { outcomes, diagnostic_logged, overall }
}

/// The two tracer severities are never conflated: when every stage completed,
/// a tracer-reported inner error (or an absent tracer) leaves the shutdown
/// successful, while a failed tracer join fails it.
pub proof fn lemma_tracer_severities_distinct(outcomes: Seq<StageOutcome>)
    requires
        all_completed(outcomes),
    ensures
        shutdown_ok(outcomes, Some(TracerOutcome::ReportedError)),
        shutdown_ok(outcomes, Some(TracerOutcome::Clean)),
        shutdown_ok(outcomes, None),
        !shutdown_ok(outcomes, Some(TracerOutcome::JoinFailed)),
{
}

} // verus!
