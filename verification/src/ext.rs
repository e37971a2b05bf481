//! Trusted interface to the outside spin helper and to std's memory fence.
//!
//! The slow path leans on two things this crate does not implement: the
//! adaptive busy-wait helper of `parking_lot_core`, and the acquire fence
//! that pairs a relaxed status load with the release write it observed.
//! Nothing is claimed of either beyond its signature: the backoff counter is
//! opaque, and memory ordering lies outside what the contracts here state.

use parking_lot_core::SpinWait;
use vstd::prelude::*;

verus! {

#[verifier::external_type_specification]
#[verifier::external_body]
pub struct ExSpinWait(SpinWait);

/// Relies on `parking_lot_core::SpinWait::new`: a fresh backoff counter.
pub assume_specification[ SpinWait::new ]() -> SpinWait;

/// Relies on `parking_lot_core::SpinWait::spin`: busy-waits one bounded
/// round, and returns whether spinning is still worthwhile — `false` once the
/// sleep threshold is reached and the caller had better park.
pub assume_specification[ SpinWait::spin ](w: &mut SpinWait) -> bool;

/// Relies on `parking_lot_core::SpinWait::reset`: returns the backoff counter
/// to its initial state, as after `new`.
pub assume_specification[ SpinWait::reset ](w: &mut SpinWait);

/// Relies on `core::sync::atomic::fence` with acquire ordering: every load
/// sequenced before the fence synchronizes-with the release write of the
/// value it read, so the effects published before that write are visible
/// after the fence.
#[verifier::external_body]
pub(crate) fn acquire_fence() {
    core::sync::atomic::fence(core::sync::atomic::Ordering::Acquire)
}

} // verus!
