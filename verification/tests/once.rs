use once_sync::once::CallOutcome;
use once_sync::once::Once;
use once_sync::once::RoutineExit;

#[test]
fn smoke_once() {
    let o = Once::new();
    let mut a: u32 = 0;
    o.call_once(|| {
        a += 1;
        RoutineExit::Normal
    });
    assert_eq!(a, 1);
    o.call_once(|| {
        a += 1;
        RoutineExit::Normal
    });
    assert_eq!(a, 1);
}

#[test]
fn first_call_reports_complete() {
    let o = Once::new();
    let r = o.call_once(|| RoutineExit::Normal);
    assert_eq!(r, CallOutcome::Complete);
}

#[test]
fn success_is_idempotent() {
    let o = Once::new();
    let mut runs: u32 = 0;
    assert_eq!(
        o.call_once(|| {
            runs += 1;
            RoutineExit::Normal
        }),
        CallOutcome::Complete
    );
    for _ in 0..10 {
        assert_eq!(
            o.call_once(|| {
                runs += 1;
                RoutineExit::Normal
            }),
            CallOutcome::Complete
        );
    }
    assert_eq!(runs, 1);
}

#[test]
fn abnormal_exit_reports_aborted() {
    let o = Once::new();
    let r = o.call_once(|| RoutineExit::Abnormal);
    assert_eq!(r, CallOutcome::Aborted);
}

#[test]
fn poison_refuses_later_non_forcing_calls() {
    let o = Once::new();
    assert_eq!(o.call_once(|| RoutineExit::Abnormal), CallOutcome::Aborted);
    let mut ran: bool = false;
    assert_eq!(
        o.call_once(|| {
            ran = true;
            RoutineExit::Normal
        }),
        CallOutcome::PoisonFailure
    );
    assert_eq!(
        o.call_once(|| {
            ran = true;
            RoutineExit::Normal
        }),
        CallOutcome::PoisonFailure
    );
    assert!(!ran);
}

#[test]
fn force_reports_a_fresh_primitive_unpoisoned() {
    let o = Once::new();
    let mut seen_poisoned: bool = true;
    assert_eq!(
        o.call_once_force(|s| {
            seen_poisoned = s.poisoned();
            RoutineExit::Normal
        }),
        CallOutcome::Complete
    );
    assert!(!seen_poisoned);
}

#[test]
fn forced_recovery_clears_poison() {
    let o = Once::new();
    assert_eq!(o.call_once(|| RoutineExit::Abnormal), CallOutcome::Aborted);
    assert_eq!(o.call_once(|| RoutineExit::Normal), CallOutcome::PoisonFailure);
    assert_eq!(o.call_once(|| RoutineExit::Normal), CallOutcome::PoisonFailure);

    let mut called: bool = false;
    let mut seen_poisoned: bool = false;
    assert_eq!(
        o.call_once_force(|s| {
            called = true;
            seen_poisoned = s.poisoned();
            RoutineExit::Normal
        }),
        CallOutcome::Complete
    );
    assert!(called);
    assert!(seen_poisoned);

    // once any success happens, the poison stops propagating and no further
    // routine runs
    let mut ran_again: bool = false;
    assert_eq!(
        o.call_once(|| {
            ran_again = true;
            RoutineExit::Normal
        }),
        CallOutcome::Complete
    );
    assert!(!ran_again);
}

#[test]
fn forced_abort_keeps_the_poison() {
    let o = Once::new();
    assert_eq!(o.call_once(|| RoutineExit::Abnormal), CallOutcome::Aborted);
    let mut seen_poisoned: bool = false;
    assert_eq!(
        o.call_once_force(|s| {
            seen_poisoned = s.poisoned();
            RoutineExit::Abnormal
        }),
        CallOutcome::Aborted
    );
    assert!(seen_poisoned);
    assert_eq!(o.call_once(|| RoutineExit::Normal), CallOutcome::PoisonFailure);
}

#[test]
fn exactly_one_of_many_sequential_callers_initializes() {
    let o = Once::new();
    let mut v: u32 = 0;
    assert_eq!(
        o.call_once(|| {
            v = 1;
            RoutineExit::Normal
        }),
        CallOutcome::Complete
    );
    for _ in 0..9 {
        assert_eq!(
            o.call_once(|| {
                assert_eq!(v, 1);
                v = 2;
                RoutineExit::Normal
            }),
            CallOutcome::Complete
        );
    }
    assert_eq!(v, 1);
}

#[test]
fn default_is_a_fresh_primitive() {
    let o = Once::default();
    let mut a: u32 = 0;
    assert_eq!(
        o.call_once(|| {
            a += 1;
            RoutineExit::Normal
        }),
        CallOutcome::Complete
    );
    assert_eq!(a, 1);
}
