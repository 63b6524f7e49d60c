//! The wall clock.

use vstd::prelude::*;

verus! {

/// Calls `chrono::Utc::now` and `chrono::DateTime::timestamp_micros`: the
/// microseconds since the Unix epoch, as the system's clock gives them.
/// Two readings may differ in any way.
#[verifier::external_body]
pub(crate) fn now() -> (micros: i64) {
    chrono::Utc::now().timestamp_micros()
}

} // verus!
