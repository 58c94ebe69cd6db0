//! Block-cost reservation policy.
//!
//! The production engine consults this policy every time it considers
//! admitting an ordinary transaction. During a leading window of each
//! production interval (`reserved_ticks` out of `ticks_per_slot` ticks) a
//! fixed compute budget is withheld so that the bundle engine is never starved
//! by a burst of ordinary transactions early in the interval; once the window
//! elapses, full capacity returns to ordinary traffic. The policy is a pure
//! function of the tick position, recomputed on every query, so it is safe to
//! consult concurrently from any number of admission checks.

use vstd::arithmetic::div_mod::{lemma_mod_add_multiples_vanish, lemma_mod_bound};
use vstd::prelude::*;

use crate::errors::PipelineError;

verus! {

/// The compute budget withheld from ordinary transactions at `tick_height`:
/// the whole `preallocated_cost` while the tick position within its interval
/// is below `reserved_ticks`, and nothing afterwards.
pub open spec fn reservation_for_tick(
    tick_height: nat,
    ticks_per_slot: nat,
    reserved_ticks: nat,
    preallocated_cost: nat,
) -> nat
    recommends
        ticks_per_slot > 0,
{
    if tick_height % ticks_per_slot < reserved_ticks {
        preallocated_cost
    } else {
        0
    }
}

/// Tick progression of the production engine within its fixed-length
/// intervals: the only facts the reservation policy reads from the engine.
#[derive(Clone, Copy, PartialEq, Eq, Structural, Debug)]
pub struct SlotClock {
    /// Ticks registered so far, monotone over the lifetime of the engine.
    pub tick_height: u64,
    /// Fixed number of ticks in one production interval.
    pub ticks_per_slot: u64,
}

impl SlotClock {
    /// A zero-length interval would make the tick position meaningless.
    pub open spec fn wf(self) -> bool {
        self.ticks_per_slot > 0
    }

    /// Starts a clock at tick zero. A zero-length interval is refused before
    /// any stage starts.
    pub fn new(ticks_per_slot: u64) -> (r: Result<SlotClock, PipelineError>)
        ensures
            ticks_per_slot > 0 ==> (r matches Ok(c) && c == (SlotClock {
                tick_height: 0,
                ticks_per_slot,
            })),
            ticks_per_slot == 0 ==> (r matches Err(e) && e is Configuration),
    {
        if ticks_per_slot == 0 {
            Err(PipelineError::Configuration)
        } else {
            Ok(SlotClock { tick_height: 0, ticks_per_slot })
        }
    }

    /// Advances the clock by one tick.
    pub fn register_tick(&mut self)
        requires
            old(self).tick_height < u64::MAX,
        ensures
            final(self).tick_height == old(self).tick_height + 1,
            final(self).ticks_per_slot == old(self).ticks_per_slot,
    {
        self.tick_height = self.tick_height + 1;
    }
}

/// For the first `reserved_ticks` ticks of each production interval, the
/// returned budget is subtracted from the engine's block cost limit; outside
/// that window nothing is withheld.
pub fn calculate_block_cost_limit_reservation(
    clock: &SlotClock,
    reserved_ticks: u64,
    preallocated_bundle_cost: u64,
) -> (r: u64)
    requires
        clock.wf(),
    ensures
        r == reservation_for_tick(
            clock.tick_height as nat,
            clock.ticks_per_slot as nat,
            reserved_ticks as nat,
            preallocated_bundle_cost as nat,
        ),
{
    if clock.tick_height % clock.ticks_per_slot < reserved_ticks {
        preallocated_bundle_cost
    } else {
        0
    }
}

/// Length of the bundle reservation window derived from the interval length:
/// eight tenths of the interval, with the product saturating at `u64::MAX`.
pub open spec fn bundle_window_ticks(ticks_per_slot: nat) -> nat {
    if 8 * ticks_per_slot <= u64::MAX {
        (8 * ticks_per_slot) / 10
    } else {
        (u64::MAX as nat) / 10
    }
}

/// Immutable per-pipeline reservation configuration, computed once at
/// construction from the production engine's timing parameters.
#[derive(Clone, Copy, PartialEq, Eq, Structural, Debug)]
pub struct ReservationSchedule {
    /// Fixed number of ticks in one production interval.
    pub ticks_per_slot: u64,
    /// Leading ticks of each interval during which the reservation applies.
    pub reserved_ticks: u64,
    /// Compute budget withheld from ordinary transactions during the window.
    pub preallocated_cost: u64,
}

impl ReservationSchedule {
    /// A zero-length interval is not a meaningful schedule.
    pub open spec fn wf(self) -> bool {
        self.ticks_per_slot > 0
    }

    /// Builds a schedule from explicit parameters. `reserved_ticks == 0`
    /// (never reserve) and `reserved_ticks >= ticks_per_slot` (always
    /// reserve) are valid, intentional configurations; only a zero-length
    /// interval is refused.
    pub fn new(ticks_per_slot: u64, reserved_ticks: u64, preallocated_cost: u64) -> (r: Result<
        ReservationSchedule,
        PipelineError,
    >)
        ensures
            ticks_per_slot > 0 ==> (r matches Ok(s) && s == (ReservationSchedule {
                ticks_per_slot,
                reserved_ticks,
                preallocated_cost,
            })),
            ticks_per_slot == 0 ==> (r matches Err(e) && e is Configuration),
    {
        if ticks_per_slot == 0 {
            Err(PipelineError::Configuration)
        } else {
            Ok(ReservationSchedule { ticks_per_slot, reserved_ticks, preallocated_cost })
        }
    }

    /// Builds the standard schedule that reserves the first eight tenths of
    /// every interval, the window the bundle engine is guaranteed.
    pub fn with_bundle_window(ticks_per_slot: u64, preallocated_cost: u64) -> (r: Result<
        ReservationSchedule,
        PipelineError,
    >)
        ensures
            ticks_per_slot > 0 ==> (r matches Ok(s) && s == (ReservationSchedule {
                ticks_per_slot,
                reserved_ticks: bundle_window_ticks(ticks_per_slot as nat) as u64,
                preallocated_cost,
            })),
            ticks_per_slot == 0 ==> (r matches Err(e) && e is Configuration),
    {
        if ticks_per_slot == 0 {
            Err(PipelineError::Configuration)
        } else {
            let capped: u64 = if ticks_per_slot <= u64::MAX / 8 {
                ticks_per_slot * 8
            } else {
                u64::MAX
            };
            let reserved_ticks: u64 = capped / 10;
            Ok(ReservationSchedule { ticks_per_slot, reserved_ticks, preallocated_cost })
        }
    }

    /// The budget withheld at `tick_height` under this schedule.
    pub fn reservation_at(&self, tick_height: u64) -> (r: u64)
        requires
            self.wf(),
        ensures
            r == reservation_for_tick(
                tick_height as nat,
                self.ticks_per_slot as nat,
                self.reserved_ticks as nat,
                self.preallocated_cost as nat,
            ),
    {
        if tick_height % self.ticks_per_slot < self.reserved_ticks {
            self.preallocated_cost
        } else {
            0
        }
    }
}

/// The reservation policy is periodic with period `ticks_per_slot`: the
/// budget withheld one whole interval later is the same.
pub proof fn lemma_reservation_periodic(
    tick_height: nat,
    ticks_per_slot: nat,
    reserved_ticks: nat,
    preallocated_cost: nat,
)
    requires
        ticks_per_slot > 0,
    ensures
        reservation_for_tick(
            tick_height + ticks_per_slot,
            ticks_per_slot,
            reserved_ticks,
            preallocated_cost,
        ) == reservation_for_tick(tick_height, ticks_per_slot, reserved_ticks, preallocated_cost),
{
    lemma_mod_add_multiples_vanish(tick_height as int, ticks_per_slot as int);
}

/// The policy is a pure function of its inputs: any two results obtained for
/// identical inputs are identical, so repeated queries agree.
pub proof fn lemma_reservation_idempotent(
    r1: nat,
    r2: nat,
    tick_height: nat,
    ticks_per_slot: nat,
    reserved_ticks: nat,
    preallocated_cost: nat,
)
    requires
        r1 == reservation_for_tick(tick_height, ticks_per_slot, reserved_ticks, preallocated_cost),
        r2 == reservation_for_tick(tick_height, ticks_per_slot, reserved_ticks, preallocated_cost),
    ensures
        r1 == r2,
{
}

/// With no reserved ticks the policy never withholds anything, at any tick
/// height.
pub proof fn lemma_reservation_zero_window(
    tick_height: nat,
    ticks_per_slot: nat,
    preallocated_cost: nat,
)
    requires
        ticks_per_slot > 0,
    ensures
        reservation_for_tick(tick_height, ticks_per_slot, 0, preallocated_cost) == 0,
{
}

/// With a window at least as long as the interval the policy always withholds
/// the whole preallocated budget: every tick position satisfies the modulo
/// condition.
pub proof fn lemma_reservation_full_window(
    tick_height: nat,
    ticks_per_slot: nat,
    reserved_ticks: nat,
    preallocated_cost: nat,
)
    requires
        ticks_per_slot > 0,
        reserved_ticks >= ticks_per_slot,
    ensures
        reservation_for_tick(tick_height, ticks_per_slot, reserved_ticks, preallocated_cost)
            == preallocated_cost,
{
    lemma_mod_bound(tick_height as int, ticks_per_slot as int);
}

} // verus!
