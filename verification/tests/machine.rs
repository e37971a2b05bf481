use once_sync::machine::ContendStep;
use once_sync::machine::SlowStep;
use once_sync::machine::contend_step;
use once_sync::machine::park_validation;
use once_sync::machine::should_wake;
use once_sync::machine::slow_step;
use once_sync::status::DONE_BIT;
use once_sync::status::FRESH_STATUS;
use once_sync::status::LOCKED_BIT;
use once_sync::status::PARKED_BIT;
use once_sync::status::POISON_BIT;
use once_sync::status::acquire_target;
use once_sync::status::done_is_set;
use once_sync::status::locked_is_set;
use once_sync::status::park_target;
use once_sync::status::parked_is_set;
use once_sync::status::poison_is_set;

#[test]
fn flags_of_a_fresh_status() {
    assert!(!done_is_set(FRESH_STATUS));
    assert!(!poison_is_set(FRESH_STATUS));
    assert!(!locked_is_set(FRESH_STATUS));
    assert!(!parked_is_set(FRESH_STATUS));
}

#[test]
fn acquire_sets_locked_and_clears_poison() {
    assert_eq!(acquire_target(FRESH_STATUS), LOCKED_BIT);
    assert_eq!(acquire_target(POISON_BIT), LOCKED_BIT);
    assert_eq!(acquire_target(POISON_BIT | PARKED_BIT), LOCKED_BIT | PARKED_BIT);
}

#[test]
fn park_target_only_adds_the_hint() {
    assert_eq!(park_target(LOCKED_BIT), LOCKED_BIT | PARKED_BIT);
    assert_eq!(park_target(LOCKED_BIT | PARKED_BIT), LOCKED_BIT | PARKED_BIT);
}

#[test]
fn done_short_circuits_both_entry_points() {
    assert_eq!(slow_step(DONE_BIT, false), SlowStep::Finish);
    assert_eq!(slow_step(DONE_BIT, true), SlowStep::Finish);
}

#[test]
fn fresh_status_offers_the_lock() {
    assert_eq!(slow_step(FRESH_STATUS, false), SlowStep::AcquireLock { target: LOCKED_BIT });
    assert_eq!(slow_step(FRESH_STATUS, true), SlowStep::AcquireLock { target: LOCKED_BIT });
}

#[test]
fn poison_refuses_only_the_non_forcing_caller() {
    assert_eq!(slow_step(POISON_BIT, false), SlowStep::FailPoisoned);
    assert_eq!(slow_step(POISON_BIT, true), SlowStep::AcquireLock { target: LOCKED_BIT });
}

#[test]
fn a_held_lock_sends_contenders_to_wait() {
    assert_eq!(slow_step(LOCKED_BIT, false), SlowStep::Contend);
    assert_eq!(slow_step(LOCKED_BIT | PARKED_BIT, true), SlowStep::Contend);
    assert_eq!(slow_step(LOCKED_BIT | POISON_BIT, true), SlowStep::Contend);
}

#[test]
fn the_poison_check_precedes_the_lock_check() {
    assert_eq!(slow_step(LOCKED_BIT | POISON_BIT, false), SlowStep::FailPoisoned);
}

#[test]
fn contention_spins_then_announces_then_parks() {
    assert_eq!(contend_step(LOCKED_BIT, true), ContendStep::Spin);
    assert_eq!(
        contend_step(LOCKED_BIT, false),
        ContendStep::AnnouncePark { target: LOCKED_BIT | PARKED_BIT }
    );
    assert_eq!(contend_step(LOCKED_BIT | PARKED_BIT, true), ContendStep::Park);
    assert_eq!(contend_step(LOCKED_BIT | PARKED_BIT, false), ContendStep::Park);
}

#[test]
fn park_validation_admits_exactly_the_waiting_status() {
    assert!(park_validation(LOCKED_BIT | PARKED_BIT));
    assert!(!park_validation(LOCKED_BIT));
    assert!(!park_validation(PARKED_BIT));
    assert!(!park_validation(DONE_BIT));
    assert!(!park_validation(FRESH_STATUS));
}

#[test]
fn publishers_wake_exactly_when_a_parked_status_was_swapped_out() {
    assert!(should_wake(LOCKED_BIT | PARKED_BIT));
    assert!(should_wake(PARKED_BIT));
    assert!(!should_wake(LOCKED_BIT));
    assert!(!should_wake(FRESH_STATUS));
}
