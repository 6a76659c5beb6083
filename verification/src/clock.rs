//! The wall clock, read through an outside crate.

use vstd::prelude::*;

verus! {

/// Relies on chrono's `Local::now` and `DateTime::timestamp`: the current
/// time as whole seconds since the Unix epoch. Nothing is assumed of the
/// value; callers state what holds whatever time comes back.
#[verifier::external_body]
pub(crate) fn now_timestamp() -> i64 {
    chrono::Local::now().timestamp()
}

} // verus!
