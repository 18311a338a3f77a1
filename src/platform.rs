//! Values that come from the running system: random identifiers and the clock.

use vstd::prelude::*;

verus! {

/// Relies on uuid::Uuid::new_v4 and its `Display`, which writes the hyphenated
/// form of 36 characters.
#[verifier::external_body]
pub(crate) fn random_uuid() -> (r: String)
    ensures
        r@.len() == 36,
{
    uuid::Uuid::new_v4().to_string()
}

/// Relies on chrono::Utc::now and DateTime::timestamp_micros: the current time in
/// microseconds since the Unix epoch, which `now` never reports before the epoch.
#[verifier::external_body]
pub(crate) fn now_unix_micros() -> (r: i64)
    ensures
        r >= 0,
{
    chrono::Utc::now().timestamp_micros()
}

} // verus!
