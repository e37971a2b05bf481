//! The one-time-initialization primitive.
//!
//! A [`Once`] runs a caller-supplied routine at most once per successful
//! attempt, blocks racing callers while an attempt is in flight, and keeps a
//! poison mark when an attempt exits abnormally. Its whole state is one
//! atomic byte, driven by the decisions of [`crate::machine`]; this runner
//! spins between reloads while another thread holds the initialization
//! right, so publishing a new status is itself what releases the waiters.
//!
//! There is no unwinding here: a routine signals an abnormal exit by
//! returning [`RoutineExit::Abnormal`], and a non-forcing caller that finds
//! the primitive poisoned is told so in its [`CallOutcome`] instead of being
//! terminated abruptly.

use core::sync::atomic::AtomicU8;
use core::sync::atomic::Ordering;
use parking_lot_core::SpinWait;
use vstd::prelude::*;

use crate::ext::acquire_fence;
use crate::machine::SlowStep;
use crate::machine::lemma_forced_recovery;
use crate::machine::slow_step;
use crate::status::DONE_BIT;
use crate::status::FRESH_STATUS;
use crate::status::POISON_BIT;
use crate::status::poison_is_set;

verus! {

/// How an initialization routine exited. A routine that cannot run to
/// completion reports [`RoutineExit::Abnormal`], which poisons the primitive
/// exactly as an abrupt unwind out of the routine would.
#[derive(Clone, Copy, Debug, PartialEq, Eq, Structural)]
pub enum RoutineExit {
    /// The routine ran to completion; the primitive becomes permanently done.
    Normal,
    /// The routine aborted; the primitive becomes poisoned.
    Abnormal,
}

/// What a call to [`Once::call_once`] or [`Once::call_once_force`] observed.
#[derive(Clone, Copy, Debug, PartialEq, Eq, Structural)]
pub enum CallOutcome {
    /// Some initialization has completed: this call's routine ran to
    /// completion, or an earlier call's already had (then this call's routine
    /// was dropped unrun).
    Complete,
    /// The last attempt aborted, and this non-forcing call was refused; no
    /// routine ran.
    PoisonFailure,
    /// This call's routine ran and exited abnormally; the primitive is now
    /// poisoned.
    Aborted,
    /// Another thread still held the initialization right when the whole
    /// waiting budget of `u64::MAX` spin rounds was spent; no routine ran.
    /// Practically unreachable: the budget outlasts any initialization, and
    /// a caller that must wait without bound may simply call again.
    Contended,
}

/// State yielded to [`Once::call_once_force`]: whether the primitive was
/// poisoned at the moment this attempt was granted the lock.
pub struct OnceState {
    was_poisoned: bool,
}

impl OnceState {
    /// Whether the associated [`Once`] was poisoned when this attempt was
    /// granted the lock.
    pub closed spec fn spec_poisoned(&self) -> bool {
        self.was_poisoned
    }

    /// Returns whether the associated `Once` has been poisoned.
    ///
    /// Once an initialization routine given to a `Once` has aborted, the
    /// `Once` will indicate to future forced initialization routines that it
    /// is poisoned, until one of them runs to completion.
    pub fn poisoned(&self) -> (r: bool)
        ensures
            r == self.spec_poisoned(),
    {
        self.was_poisoned
    }

    fn snapshot(poisoned: bool) -> (r: OnceState)
        ensures
            r.spec_poisoned() == poisoned,
    {
        OnceState { was_poisoned: poisoned }
    }
}

/// A synchronization primitive which can be used to run a one-time
/// initialization, e.g. for globals or other lazily-constructed shared
/// state. Only a single byte of state; not required to be `'static`.
pub struct Once {
    status: AtomicU8,
}

impl Once {
    /// Creates a new `Once` value, with every status flag clear.
    pub fn new() -> Once {
        Once { status: AtomicU8::new(FRESH_STATUS) }
    }

    /// Performs an initialization routine once and only once: `f` runs if
    /// and only if this call wins the initialization right before any call
    /// has completed. The call blocks (spinning) while another thread's
    /// attempt is in flight.
    ///
    /// Returns [`CallOutcome::Complete`] once some initialization has run to
    /// completion — not necessarily `f` — and its effects are then visible
    /// to this thread. Returns [`CallOutcome::PoisonFailure`], with `f`
    /// dropped unrun, if the last attempt aborted and no later one has
    /// completed. Returns [`CallOutcome::Aborted`] exactly when `f` itself
    /// ran and reported an abnormal exit, which leaves the primitive
    /// poisoned. [`CallOutcome::Contended`] reports an exhausted waiting
    /// budget and is practically unreachable.
    pub fn call_once<F: FnOnce() -> RoutineExit>(&self, f: F) -> (r: CallOutcome)
        requires
            call_requires(f, ()),
        ensures
            r is Aborted ==> call_ensures(f, (), RoutineExit::Abnormal),
            (forall|e: RoutineExit| call_ensures(f, (), e) ==> e is Normal) ==> !(r is Aborted),
    {
        if self.status.load(Ordering::Acquire) == DONE_BIT {
            return CallOutcome::Complete;
        }
        self.call_once_slow(f)
    }

    /// Performs the same function as [`Once::call_once`] except it is never
    /// refused on account of poison: if the primitive is poisoned, a forcing
    /// call simply takes the next attempt. `f` is yielded an [`OnceState`]
    /// recording whether the attempt started from a poisoned primitive, so
    /// recovery logic can acknowledge the earlier failure. The outcomes are
    /// those of [`Once::call_once`], except that a forcing call is never
    /// refused: it does not return [`CallOutcome::PoisonFailure`].
    pub fn call_once_force<F: FnOnce(OnceState) -> RoutineExit>(&self, f: F) -> (r: CallOutcome)
        requires
            forall|s: OnceState| call_requires(f, (s,)),
        ensures
            !(r is PoisonFailure),
            r is Aborted ==> (exists|s: OnceState|
                call_ensures(f, (s,), RoutineExit::Abnormal)),
            (forall|s: OnceState, e: RoutineExit| call_ensures(f, (s,), e) ==> e is Normal) ==> !(
            r is Aborted),
    {
        if self.status.load(Ordering::Acquire) == DONE_BIT {
            return CallOutcome::Complete;
        }
        self.call_once_force_slow(f)
    }

    /// The contention-handling loop of a non-forcing call: spin, retry, or
    /// take the initialization right, as [`slow_step`] decides on each
    /// freshly loaded status. The wait carries a fuel of `u64::MAX` rounds so
    /// that the loop provably terminates; see [`Once::call_once`] on the
    /// `Contended` outcome.
    fn call_once_slow<F: FnOnce() -> RoutineExit>(&self, f: F) -> (r: CallOutcome)
        requires
            call_requires(f, ()),
        ensures
            r is Aborted ==> call_ensures(f, (), RoutineExit::Abnormal),
    {
        let mut spinner = SpinWait::new();
        let mut status: u8 = self.status.load(Ordering::Relaxed);
        let mut fuel: u64 = u64::MAX;
        loop
            invariant
                call_requires(f, ()),
            decreases fuel,
        {
            match slow_step(status, false) {
                SlowStep::Finish => {
                    // the relaxed load saw DONE: pair it with the release
                    // write that set it
                    acquire_fence();
                    return CallOutcome::Complete;
                },
                SlowStep::FailPoisoned => {
                    acquire_fence();
                    return CallOutcome::PoisonFailure;
                },
                SlowStep::AcquireLock { target } => {
                    match self.status.compare_exchange_weak(
                        status,
                        target,
                        Ordering::Acquire,
                        Ordering::Relaxed,
                    ) {
                        Ok(_) => {
                            let exit = f();
                            return self.publish(exit);
                        },
                        Err(observed) => {
                            status = observed;
                        },
                    }
                },
                SlowStep::Contend => {
                    if !spinner.spin() {
                        // the spin helper would rather park; this runner has
                        // no parking service, so restart the backoff instead
                        spinner.reset();
                    }
                    status = self.status.load(Ordering::Relaxed);
                },
            }
            if fuel == 0 {
                return CallOutcome::Contended;
            }
            fuel = fuel - 1;
        }
    }

    /// The contention-handling loop of a forcing call: identical, but poison
    /// does not refuse the attempt, and the routine receives the poison
    /// snapshot taken by the compare-exchange that won the lock.
    fn call_once_force_slow<F: FnOnce(OnceState) -> RoutineExit>(&self, f: F) -> (r: CallOutcome)
        requires
            forall|s: OnceState| call_requires(f, (s,)),
        ensures
            !(r is PoisonFailure),
            r is Aborted ==> (exists|s: OnceState|
                call_ensures(f, (s,), RoutineExit::Abnormal)),
            (forall|s: OnceState, e: RoutineExit| call_ensures(f, (s,), e) ==> e is Normal) ==> !(
            r is Aborted),
    {
        let mut spinner = SpinWait::new();
        let mut status: u8 = self.status.load(Ordering::Relaxed);
        let mut fuel: u64 = u64::MAX;
        loop
            invariant
                forall|s: OnceState| call_requires(f, (s,)),
            decreases fuel,
        {
            match slow_step(status, true) {
                SlowStep::Finish => {
                    acquire_fence();
                    return CallOutcome::Complete;
                },
                SlowStep::FailPoisoned => {
                    // never reached: a forcing caller is not refused on poison
                    proof {
                        lemma_forced_recovery(status);
                        assert(false);
                    }
                    return CallOutcome::Complete;
                },
                SlowStep::AcquireLock { target } => {
                    match self.status.compare_exchange_weak(
                        status,
                        target,
                        Ordering::Acquire,
                        Ordering::Relaxed,
                    ) {
                        Ok(_) => {
                            let state_arg = OnceState::snapshot(poison_is_set(status));
                            let exit = f(state_arg);
                            return self.publish(exit);
                        },
                        Err(observed) => {
                            status = observed;
                        },
                    }
                },
                SlowStep::Contend => {
                    if !spinner.spin() {
                        spinner.reset();
                    }
                    status = self.status.load(Ordering::Relaxed);
                },
            }
            if fuel == 0 {
                return CallOutcome::Contended;
            }
            fuel = fuel - 1;
        }
    }

    /// Publishes how the attempt holding the lock ended: a normal exit
    /// installs exactly DONE, an abnormal one exactly POISONED. Either swap
    /// releases the lock and clears the park hint in the same atomic step,
    /// and is release-ordered, so a thread whose later check observes the
    /// new status also observes the routine's effects. A runner backed by a
    /// parking service owes the parked threads a wake-all whenever the
    /// swapped-out status demands one ([`crate::machine::should_wake`]);
    /// waiters of this runner spin, so the swap itself releases them.
    fn publish(&self, exit: RoutineExit) -> (r: CallOutcome)
        ensures
            r is Complete <==> exit is Normal,
            r is Aborted <==> exit is Abnormal,
    {
        match exit {
            RoutineExit::Normal => {
                let _: u8 = self.status.swap(DONE_BIT, Ordering::Release);
                CallOutcome::Complete
            },
            RoutineExit::Abnormal => {
                let _: u8 = self.status.swap(POISON_BIT, Ordering::Release);
                CallOutcome::Aborted
            },
        }
    }
}

impl Default for Once {
    /// A fresh primitive, as [`Once::new`] yields.
    fn default() -> Once {
        Once::new()
    }
}

} // verus!
