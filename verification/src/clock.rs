//! Wall-clock reading used to seed the boot time and advance the uptime.

use vstd::prelude::*;

verus! {

/// Relies on `chrono::Local::now` and `chrono::DateTime::timestamp`: the
/// current local time as whole seconds since the Unix epoch.  The result
/// depends on the wall clock, so nothing is assumed of its value.
#[verifier::external_body]
pub(crate) fn current_epoch_seconds() -> (r: i64) {
    chrono::Local::now().timestamp()
}

} // verus!
