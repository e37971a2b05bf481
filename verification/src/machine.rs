//! The slow-path state machine, as decisions over a status snapshot.
//!
//! Whenever the fast path does not observe DONE, a caller enters a loop of
//! load / compare-exchange steps. Each iteration's decision depends only on
//! the status snapshot just read (and, under contention, on whether the spin
//! helper still wants to spin), so the decisions are ordinary functions with
//! exact contracts. Any runner can drive the loop from them: the library's
//! own [`Once`](crate::once::Once) spins between reloads, and a runner backed
//! by an address-parking service follows [`contend_step`] to decide when to
//! announce and perform a park.

use vstd::prelude::*;

use crate::status::DONE_BIT;
use crate::status::LOCKED_BIT;
use crate::status::PARKED_BIT;
use crate::status::POISON_BIT;
use crate::status::acquire_target;
use crate::status::acquire_target_spec;
use crate::status::done_is_set;
use crate::status::is_done;
use crate::status::is_locked;
use crate::status::is_parked;
use crate::status::is_poisoned;
use crate::status::lemma_acquire_target_bits;
use crate::status::lemma_park_target_bits;
use crate::status::locked_is_set;
use crate::status::park_target;
use crate::status::park_target_spec;
use crate::status::parked_is_set;
use crate::status::poison_is_set;

verus! {

/// What a slow-path iteration does with the status snapshot it read.
#[derive(Clone, Copy, Debug, PartialEq, Eq, Structural)]
pub enum SlowStep {
    /// DONE was observed: issue an acquire fence and return.
    Finish,
    /// POISONED was observed by a non-forcing caller: issue an acquire fence
    /// and report the poison failure.
    FailPoisoned,
    /// No thread holds the lock: try to install `target` (LOCKED set,
    /// POISONED cleared) by an acquire compare-exchange; on failure, retry
    /// from the value the exchange returned.
    AcquireLock { target: u8 },
    /// Another thread holds the lock: wait for it, per [`contend_step`].
    Contend,
}

/// What a contending iteration does while another thread holds the lock.
#[derive(Clone, Copy, Debug, PartialEq, Eq, Structural)]
pub enum ContendStep {
    /// The spin helper still wants to spin: reload and retry without parking.
    Spin,
    /// Spinning is exhausted and PARKED is not yet set: try to install
    /// `target` (PARKED set) by a relaxed compare-exchange; on failure, retry
    /// from the value the exchange returned.
    AnnouncePark { target: u8 },
    /// PARKED is set: park at the primitive's address, re-validating with
    /// [`park_validation`] at the instant of sleeping.
    Park,
}

/// The decision a slow-path iteration takes on `status`, for a caller that
/// forgives poison (`ignore_poison`) or not.
pub open spec fn slow_step_spec(status: u8, ignore_poison: bool) -> SlowStep {
    if is_done(status) {
        SlowStep::Finish
    } else if is_poisoned(status) && !ignore_poison {
        SlowStep::FailPoisoned
    } else if !is_locked(status) {
        SlowStep::AcquireLock { target: acquire_target_spec(status) }
    } else {
        SlowStep::Contend
    }
}

/// The decision a contending iteration takes on `status`, given whether the
/// spin helper still wants to spin.
pub open spec fn contend_step_spec(status: u8, keep_spinning: bool) -> ContendStep {
    if !is_parked(status) && keep_spinning {
        ContendStep::Spin
    } else if !is_parked(status) {
        ContendStep::AnnouncePark { target: park_target_spec(status) }
    } else {
        ContendStep::Park
    }
}

/// The predicate re-checked at the instant of parking: the holder is still
/// running and this thread's park announcement still stands. Parking under
/// any other status would race with a concurrent wake-all.
pub open spec fn park_validation_spec(status: u8) -> bool {
    status == LOCKED_BIT | PARKED_BIT
}

/// Whether a publisher that swapped `prior` out must wake the threads parked
/// at the primitive's address.
pub open spec fn should_wake_spec(prior: u8) -> bool {
    is_parked(prior)
}

/// Decides one slow-path iteration from the status snapshot just read.
pub fn slow_step(status: u8, ignore_poison: bool) -> (r: SlowStep)
    ensures
        r == slow_step_spec(status, ignore_poison),
{
    if done_is_set(status) {
        SlowStep::Finish
    } else if poison_is_set(status) && !ignore_poison {
        SlowStep::FailPoisoned
    } else if !locked_is_set(status) {
        SlowStep::AcquireLock { target: acquire_target(status) }
    } else {
        SlowStep::Contend
    }
}

/// Decides one contending iteration from the status snapshot just read.
pub fn contend_step(status: u8, keep_spinning: bool) -> (r: ContendStep)
    ensures
        r == contend_step_spec(status, keep_spinning),
{
    if !parked_is_set(status) && keep_spinning {
        ContendStep::Spin
    } else if !parked_is_set(status) {
        ContendStep::AnnouncePark { target: park_target(status) }
    } else {
        ContendStep::Park
    }
}

/// Evaluates the predicate a parking thread re-checks at the instant of
/// sleeping.
pub fn park_validation(status: u8) -> (r: bool)
    ensures
        r == park_validation_spec(status),
{
    status == LOCKED_BIT | PARKED_BIT
}

/// Decides, from the status a publisher swapped out, whether a wake-all at
/// the primitive's address is owed.
pub fn should_wake(prior: u8) -> (r: bool)
    ensures
        r == should_wake_spec(prior),
{
    parked_is_set(prior)
}

/// The initialization right excludes: it is offered only on a snapshot with
/// no holder, the status it installs records the holder — never together
/// with DONE, and with the poison of the aborted attempt it supersedes
/// cleared — and a thread reading that status is sent to wait, never offered
/// the lock again until the holder publishes.
pub proof fn lemma_lock_exclusion(status: u8, ignore_poison: bool)
    ensures
        slow_step_spec(status, ignore_poison) matches SlowStep::AcquireLock { target } ==> {
            &&& !is_locked(status)
            &&& is_locked(target)
            &&& !is_done(target)
            &&& !is_poisoned(target)
            &&& forall|later: bool| slow_step_spec(target, later) is Contend
        },
{
    lemma_acquire_target_bits(status);
}

/// Poison is sticky for non-forcing callers: a poisoned, not-yet-done status
/// is refused, exactly then, and the status published by an abnormal exit is
/// such a status.
pub proof fn lemma_poison_refusal(status: u8)
    ensures
        slow_step_spec(status, false) is FailPoisoned <==> (is_poisoned(status) && !is_done(
            status,
        )),
        is_poisoned(POISON_BIT) && !is_done(POISON_BIT) && !is_locked(POISON_BIT),
        slow_step_spec(POISON_BIT, false) is FailPoisoned,
{
    assert(2u8 & 2 != 0 && 2u8 & 1 == 0 && 2u8 & 4 == 0) by (bit_vector);
}

/// Success is permanent: any snapshot with DONE set short-circuits both entry
/// points, and the status published by a normal exit is such a snapshot, with
/// no poison left behind.
pub proof fn lemma_done_short_circuit(status: u8, ignore_poison: bool)
    ensures
        is_done(status) ==> slow_step_spec(status, ignore_poison) is Finish,
        is_done(DONE_BIT) && !is_poisoned(DONE_BIT),
        slow_step_spec(DONE_BIT, false) is Finish,
        slow_step_spec(DONE_BIT, true) is Finish,
{
    assert(1u8 & 1 != 0 && 1u8 & 2 == 0) by (bit_vector);
}

/// A forcing caller is never refused on poison, and the attempt it wins
/// starts from a clean slate: the status it installs has POISONED cleared, so
/// a normal exit of its routine leaves the primitive permanently done.
pub proof fn lemma_forced_recovery(status: u8)
    ensures
        !(slow_step_spec(status, true) is FailPoisoned),
        slow_step_spec(status, true) matches SlowStep::AcquireLock { target } ==> !is_poisoned(
            target,
        ) && is_locked(target),
        is_poisoned(status) && !is_done(status) && !is_locked(status)
            ==> slow_step_spec(status, true) == (SlowStep::AcquireLock {
            target: acquire_target_spec(status),
        }),
{
    lemma_acquire_target_bits(status);
}

/// A thread parks only under a status that obliges the next publisher to
/// wake: the announcement it installs sets PARKED, the validation re-checked
/// at the instant of sleeping admits only a PARKED status, and every PARKED
/// status swapped out by a publisher demands a wake-all.
pub proof fn lemma_no_lost_wakeup(status: u8, keep_spinning: bool)
    ensures
        contend_step_spec(status, keep_spinning) matches ContendStep::AnnouncePark { target }
            ==> is_parked(target) && should_wake_spec(target),
        park_validation_spec(status) ==> is_parked(status) && is_locked(status)
            && should_wake_spec(status),
        is_parked(status) ==> should_wake_spec(status),
{
    lemma_park_target_bits(status);
    assert(12u8 & 8 != 0 && 12u8 & 4 != 0) by (bit_vector);
    assert(4u8 | 8 == 12) by (bit_vector);
}

} // verus!
