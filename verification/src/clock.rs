//! The clock: the single place the engine reads the current time. Every
//! verified function takes the instant as a plain argument, so all logic is
//! proved for every value the clock could hand back.

use vstd::prelude::*;

use chrono::Utc;

verus! {

/// Relies on chrono's `Utc::now`: the current instant, in milliseconds since
/// the Unix epoch. `now` reads the system clock as a duration since the
/// epoch, so when it returns, the result is non-negative.
#[verifier::external_body]
pub fn current_datetime() -> (r: i64)
    ensures
        r >= 0,
{
    Utc::now().timestamp_millis()
}

} // verus!
