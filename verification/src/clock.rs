//! The one place where the core reads the wall clock.

use vstd::prelude::*;

verus! {

/// Relies on std's `SystemTime::now`, read through chrono's
/// `DateTime<Utc>` conversion — which, unlike `Utc::now`, also handles a
/// system clock set before the Unix epoch — as unix seconds via
/// `DateTime::timestamp`. The reading is nondeterministic, so nothing is
/// promised of the value; callers state what holds for every reading.
#[verifier::external_body]
pub(crate) fn now_seconds() -> i64 {
    chrono::DateTime::<chrono::Utc>::from(std::time::SystemTime::now()).timestamp()
}

} // verus!
