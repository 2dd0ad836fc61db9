//! The one clock reading the library takes from the outside.
use vstd::prelude::*;

verus! {

/// Relies on `chrono::Utc::now` and `chrono::DateTime::timestamp`: the reading
/// is a whole number of seconds since the Unix epoch. `Utc::now` fails on a
/// clock before the epoch and cannot exceed chrono's maximum datetime (year
/// 262142), so the reading is non-negative and well below 9e12.
#[verifier::external_body]
pub(crate) fn now_timestamp() -> (r: i64)
    ensures
        0 <= r <= 9_000_000_000_000i64,
{
    chrono::Utc::now().timestamp()
}

} // verus!
