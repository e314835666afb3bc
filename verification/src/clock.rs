//! The system clock.
use vstd::prelude::*;

verus! {

/// Milliseconds since the Unix epoch by the system clock, through `SystemTime::now`:
/// 0 when the clock stands before the epoch. Nothing is promised of the value: it is the time.
#[verifier::external_body]
pub(crate) fn now_millis() -> i64 {
    std::time::SystemTime::now().duration_since(std::time::UNIX_EPOCH).unwrap_or_default().as_millis() as i64
}

} // verus!
