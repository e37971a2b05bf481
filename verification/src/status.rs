//! The status byte: four independent flags packed into disjoint bits.
//!
//! The whole lifecycle of a [`Once`](crate::once::Once) lives in one atomic
//! byte. This module gives each flag a name, says in spec functions what each
//! bit means, and proves what the two compare-exchange targets used by the
//! slow path do to every flag.

use vstd::prelude::*;

verus! {

/// Initialization has completed successfully; never cleared again.
pub const DONE_BIT: u8 = 1;

/// The last attempt aborted abnormally; cleared when a new attempt is granted
/// the lock.
pub const POISON_BIT: u8 = 2;

/// Exactly one thread holds the right to run the initialization routine.
pub const LOCKED_BIT: u8 = 4;

/// At least one thread may be parked on this primitive's address; a hint that
/// a publisher must issue a wake-all.
pub const PARKED_BIT: u8 = 8;

/// A fresh primitive: every flag clear.
pub const FRESH_STATUS: u8 = 0;

pub open spec fn is_done(s: u8) -> bool {
    s & DONE_BIT != 0
}

pub open spec fn is_poisoned(s: u8) -> bool {
    s & POISON_BIT != 0
}

pub open spec fn is_locked(s: u8) -> bool {
    s & LOCKED_BIT != 0
}

pub open spec fn is_parked(s: u8) -> bool {
    s & PARKED_BIT != 0
}

/// The status a thread installs to win the initialization right: LOCKED set,
/// POISONED cleared (the new attempt starts from a clean slate), the other
/// flags untouched.
pub open spec fn acquire_target_spec(s: u8) -> u8 {
    (s | LOCKED_BIT) & !POISON_BIT
}

/// The status a contender installs before parking: PARKED set, everything
/// else untouched.
pub open spec fn park_target_spec(s: u8) -> u8 {
    s | PARKED_BIT
}

/// Computes the status to install when taking the initialization right.
pub fn acquire_target(s: u8) -> (r: u8)
    ensures
        r == acquire_target_spec(s),
        is_locked(r),
        !is_poisoned(r),
        is_done(r) == is_done(s),
        is_parked(r) == is_parked(s),
{
    proof {
        lemma_acquire_target_bits(s);
    }
    (s | LOCKED_BIT) & !POISON_BIT
}

/// Computes the status to install when announcing a parked waiter.
pub fn park_target(s: u8) -> (r: u8)
    ensures
        r == park_target_spec(s),
        is_parked(r),
        is_done(r) == is_done(s),
        is_poisoned(r) == is_poisoned(s),
        is_locked(r) == is_locked(s),
{
    proof {
        lemma_park_target_bits(s);
    }
    s | PARKED_BIT
}

/// Tests the DONE flag of a status snapshot.
pub fn done_is_set(s: u8) -> (r: bool)
    ensures
        r == is_done(s),
{
    s & DONE_BIT != 0
}

/// Tests the POISONED flag of a status snapshot.
pub fn poison_is_set(s: u8) -> (r: bool)
    ensures
        r == is_poisoned(s),
{
    s & POISON_BIT != 0
}

/// Tests the LOCKED flag of a status snapshot.
pub fn locked_is_set(s: u8) -> (r: bool)
    ensures
        r == is_locked(s),
{
    s & LOCKED_BIT != 0
}

/// Tests the PARKED flag of a status snapshot.
pub fn parked_is_set(s: u8) -> (r: bool)
    ensures
        r == is_parked(s),
{
    s & PARKED_BIT != 0
}

/// Taking the initialization right sets LOCKED, clears POISONED and leaves
/// DONE and PARKED as they were.
pub proof fn lemma_acquire_target_bits(s: u8)
    ensures
        is_locked(acquire_target_spec(s)),
        !is_poisoned(acquire_target_spec(s)),
        is_done(acquire_target_spec(s)) == is_done(s),
        is_parked(acquire_target_spec(s)) == is_parked(s),
{
    assert(((s | 4) & !2) & 4 != 0) by (bit_vector);
    assert(((s | 4) & !2) & 2 == 0) by (bit_vector);
    assert((((s | 4) & !2) & 1 != 0) == (s & 1 != 0)) by (bit_vector);
    assert((((s | 4) & !2) & 8 != 0) == (s & 8 != 0)) by (bit_vector);
}

/// Announcing a parked waiter sets PARKED and leaves every other flag as it
/// was.
pub proof fn lemma_park_target_bits(s: u8)
    ensures
        is_parked(park_target_spec(s)),
        is_done(park_target_spec(s)) == is_done(s),
        is_poisoned(park_target_spec(s)) == is_poisoned(s),
        is_locked(park_target_spec(s)) == is_locked(s),
{
    assert((s | 8) & 8 != 0) by (bit_vector);
    assert(((s | 8) & 1 != 0) == (s & 1 != 0)) by (bit_vector);
    assert(((s | 8) & 2 != 0) == (s & 2 != 0)) by (bit_vector);
    assert(((s | 8) & 4 != 0) == (s & 4 != 0)) by (bit_vector);
}

} // verus!
