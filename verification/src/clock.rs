//! The monotonic time source the strategies read.
//!
//! Every strategy captures an anchor instant at construction and thereafter
//! works with plain `u64` nanosecond offsets from that anchor. The clock
//! itself comes from the `quanta` crate; reading it is the one effect in
//! this crate, so the calls stand behind trusted wrappers and everything
//! downstream of the returned number is verified.

use vstd::prelude::*;

verus! {

#[verifier::external_type_specification]
#[verifier::external_body]
pub struct ExClock(quanta::Clock);

#[verifier::external_type_specification]
#[verifier::external_body]
pub struct ExInstant(quanta::Instant);

/// Relies on quanta::Clock::new: builds a monotonic clock backed by the
/// best available source (TSC where supported, OS monotonic time else).
#[verifier::external_body]
pub(crate) fn clock_new() -> quanta::Clock {
    quanta::Clock::new()
}

/// Relies on quanta::Clock::now: reads the clock's current instant. The
/// value depends on the machine and the moment, so nothing is promised of
/// it; callers state what holds of every reading.
#[verifier::external_body]
pub(crate) fn clock_now(clock: &quanta::Clock) -> quanta::Instant {
    clock.now()
}

/// Relies on quanta::Instant::duration_since: the nanoseconds from
/// `earlier` to `later`, and zero when `later` is in fact the earlier one.
/// The same caveat as for `clock_now` applies: the number is opaque.
#[verifier::external_body]
pub(crate) fn nanos_since(later: &quanta::Instant, earlier: &quanta::Instant) -> u64 {
    later.duration_since(*earlier).as_nanos() as u64
}

} // verus!
