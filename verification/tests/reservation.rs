use tpu_pipeline::errors::PipelineError;
use tpu_pipeline::reservation::{
    calculate_block_cost_limit_reservation, ReservationSchedule, SlotClock,
};

#[test]
fn test_calculate_block_cost_limit_reservation() {
    let bundle_block_cost_limits_reservation: u64 = 100;
    let reserved_ticks: u64 = 5;
    let ticks_per_slot: u64 = 64;

    let mut clock = SlotClock::new(ticks_per_slot).unwrap();
    for _ in 0..ticks_per_slot {
        clock.register_tick();
    }
    assert!(clock.tick_height == ticks_per_slot);

    // wait for reservation to be over
    (0..reserved_ticks).for_each(|_| {
        assert_eq!(
            calculate_block_cost_limit_reservation(
                &clock,
                reserved_ticks,
                bundle_block_cost_limits_reservation,
            ),
            bundle_block_cost_limits_reservation
        );
        clock.register_tick();
    });
    assert_eq!(
        calculate_block_cost_limit_reservation(
            &clock,
            reserved_ticks,
            bundle_block_cost_limits_reservation,
        ),
        0
    );
}

#[test]
fn test_reservation_over_one_interval() {
    // ticks 0..=7 of every 10-tick interval are reserved, 8..=9 are open,
    // and tick 10 wraps back to the start of the window.
    let ticks_per_slot: u64 = 10;
    let reserved_ticks: u64 = 8;
    let preallocated_cost: u64 = 100;
    for tick_height in 0..8u64 {
        let clock = SlotClock { tick_height, ticks_per_slot };
        assert_eq!(
            calculate_block_cost_limit_reservation(&clock, reserved_ticks, preallocated_cost),
            100
        );
    }
    for tick_height in 8..10u64 {
        let clock = SlotClock { tick_height, ticks_per_slot };
        assert_eq!(
            calculate_block_cost_limit_reservation(&clock, reserved_ticks, preallocated_cost),
            0
        );
    }
    let clock = SlotClock { tick_height: 10, ticks_per_slot };
    assert_eq!(
        calculate_block_cost_limit_reservation(&clock, reserved_ticks, preallocated_cost),
        100
    );
}

#[test]
fn test_reservation_periodic() {
    let ticks_per_slot: u64 = 10;
    for tick_height in 0..30u64 {
        let a = calculate_block_cost_limit_reservation(
            &SlotClock { tick_height, ticks_per_slot },
            8,
            100,
        );
        let b = calculate_block_cost_limit_reservation(
            &SlotClock { tick_height: tick_height + ticks_per_slot, ticks_per_slot },
            8,
            100,
        );
        assert_eq!(a, b);
    }
}

#[test]
fn test_reservation_idempotent() {
    let clock = SlotClock { tick_height: 123, ticks_per_slot: 64 };
    let first = calculate_block_cost_limit_reservation(&clock, 51, 9999);
    let second = calculate_block_cost_limit_reservation(&clock, 51, 9999);
    assert_eq!(first, second);
}

#[test]
fn test_reservation_zero_window_never_reserves() {
    for tick_height in 0..50u64 {
        let clock = SlotClock { tick_height, ticks_per_slot: 10 };
        assert_eq!(calculate_block_cost_limit_reservation(&clock, 0, 100), 0);
    }
}

#[test]
fn test_reservation_full_window_always_reserves() {
    for tick_height in 0..50u64 {
        let clock = SlotClock { tick_height, ticks_per_slot: 10 };
        assert_eq!(calculate_block_cost_limit_reservation(&clock, 10, 100), 100);
        assert_eq!(calculate_block_cost_limit_reservation(&clock, 17, 100), 100);
    }
}

#[test]
fn test_zero_length_interval_is_a_configuration_error() {
    assert_eq!(SlotClock::new(0).unwrap_err(), PipelineError::Configuration);
    assert_eq!(
        ReservationSchedule::new(0, 5, 100).unwrap_err(),
        PipelineError::Configuration
    );
    assert_eq!(
        ReservationSchedule::with_bundle_window(0, 100).unwrap_err(),
        PipelineError::Configuration
    );
    assert!(PipelineError::Configuration.is_fatal_at_construction());
    assert!(PipelineError::Transport.is_fatal_at_construction());
    assert!(!PipelineError::Stage.is_fatal_at_construction());
    assert!(!PipelineError::Diagnostic.is_fatal_at_construction());
}

#[test]
fn test_schedule_construction() {
    let s = ReservationSchedule::new(10, 8, 100).unwrap();
    assert_eq!(s.ticks_per_slot, 10);
    assert_eq!(s.reserved_ticks, 8);
    assert_eq!(s.preallocated_cost, 100);
    assert_eq!(s.reservation_at(3), 100);
    assert_eq!(s.reservation_at(9), 0);
}

#[test]
fn test_bundle_window_is_eight_tenths_of_the_interval() {
    let s = ReservationSchedule::with_bundle_window(64, 100).unwrap();
    assert_eq!(s.reserved_ticks, 51);
    let s = ReservationSchedule::with_bundle_window(10, 100).unwrap();
    assert_eq!(s.reserved_ticks, 8);
    // the product saturates before the division
    let s = ReservationSchedule::with_bundle_window(u64::MAX, 100).unwrap();
    assert_eq!(s.reserved_ticks, u64::MAX / 10);
}

#[test]
fn test_reservation_at_extreme_tick_height() {
    // u64::MAX % 10 == 5, inside an 8-tick window and outside a 5-tick one
    let clock = SlotClock { tick_height: u64::MAX, ticks_per_slot: 10 };
    assert_eq!(calculate_block_cost_limit_reservation(&clock, 8, 100), 100);
    assert_eq!(calculate_block_cost_limit_reservation(&clock, 5, 100), 0);
}
