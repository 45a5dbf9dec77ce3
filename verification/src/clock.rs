//! The monotonic clock of the standard library, as far as the service reads it.
//!
//! Nothing is claimed about what the clock returns: a reading depends on when
//! it is taken. The functions that use a reading say what they make of it for
//! every value it can have.

use vstd::prelude::*;

verus! {

/// `std::time::Instant`, a point on the monotonic clock. Its inside is not
/// looked at; a value is only kept and handed back to `elapsed`.
#[verifier::external_type_specification]
#[verifier::external_body]
pub struct ExInstant(std::time::Instant);

/// `Instant::now`: the current reading of the clock. Nothing is claimed about
/// the value.
pub assume_specification[ std::time::Instant::now ]() -> (now: std::time::Instant)
;

/// `Instant::elapsed`: the time that has passed since the instant was taken.
/// Nothing is claimed about the value.
pub assume_specification[ std::time::Instant::elapsed ](start: &std::time::Instant) -> (passed:
    core::time::Duration)
;

/// `Duration::as_secs`: the whole seconds in a duration. Nothing is claimed
/// about the value.
pub assume_specification[ core::time::Duration::as_secs ](d: &core::time::Duration) -> (secs: u64)
;

/// `Duration::as_millis`: the whole milliseconds in a duration. Nothing is
/// claimed about the value.
pub assume_specification[ core::time::Duration::as_millis ](d: &core::time::Duration) -> (millis:
    u128)
;

} // verus!
