//! Wall-clock access for timestamping writes.

use vstd::prelude::*;

verus! {

/// Relies on std::time::SystemTime::now, read against the Unix epoch: the
/// current wall-clock time in milliseconds, or 0 for a clock before the
/// epoch. The read is total — both branches convert to a plain value, and
/// no clock state can make it panic. Nothing is assumed of the value;
/// callers state what holds whatever time comes back.
#[verifier::external_body]
pub(crate) fn now_millis() -> i64 {
    match std::time::SystemTime::now().duration_since(std::time::UNIX_EPOCH) {
        Ok(d) => d.as_millis() as i64,
        Err(_) => 0,
    }
}

} // verus!
