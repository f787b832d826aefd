//! The boundary to the clock of the standard library. Nothing is assumed
//! of the time it gives but the range of a duration's nanoseconds.

use vstd::prelude::*;

verus! {

/// `std::time::Instant`, a reading of the monotonic clock, held whole.
#[verifier::external_type_specification]
#[verifier::external_body]
pub struct ExInstant(std::time::Instant);

/// `Instant::now` reads the monotonic clock. Nothing is assumed of the
/// instant it returns.
pub assume_specification[ std::time::Instant::now ]() -> (t: std::time::Instant)
;

/// `Instant::elapsed` gives the time that went by since the instant was
/// taken. Nothing is assumed of its length.
pub assume_specification[ std::time::Instant::elapsed ](t: &std::time::Instant) -> (d:
    std::time::Duration)
;

/// `Duration::as_secs` gives the whole seconds of a duration. Nothing is
/// assumed of their count.
pub assume_specification[ std::time::Duration::as_secs ](d: &std::time::Duration) -> (s: u64)
;

/// `Duration::subsec_nanos` gives the part of a duration beyond its whole
/// seconds, in nanoseconds. Assumed: it is less than one second.
pub assume_specification[ std::time::Duration::subsec_nanos ](d: &std::time::Duration) -> (n: u32)
    ensures
        n < 1_000_000_000,
;

} // verus!
