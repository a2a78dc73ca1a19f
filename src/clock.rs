//! Wall-clock time in unix seconds, and expiry dates computed from it.

use crate::error::DBError;
use vstd::prelude::*;

verus! {

/// Relies on `SystemTime::now` and `SystemTime::duration_since(UNIX_EPOCH)`:
/// the whole seconds since the unix epoch, or none where the clock reads a
/// time before it.
#[verifier::external_body]
fn unix_seconds() -> Option<u64> {
    match std::time::SystemTime::now().duration_since(std::time::UNIX_EPOCH) {
        Ok(d) => Some(d.as_secs()),
        Err(_) => None,
    }
}

/// The current time in unix seconds.
pub fn now() -> (r: Result<u64, DBError>)
    ensures
        r matches Err(e) ==> e is TimeFailure,
{
    match unix_seconds() {
        Some(s) => Ok(s),
        None => Err(DBError::TimeFailure("System clock may have gone backwards".to_string())),
    }
}

/// The expiry date `duration` seconds after `now`; a date beyond what the
/// system clock can represent is a `TimeFailure`.
pub fn expire_after(now: u64, duration: u64) -> (r: Result<u64, DBError>)
    ensures
        now + duration <= i64::MAX <==> r is Ok,
        r matches Ok(e) ==> e == now + duration,
        r matches Err(e) ==> e is TimeFailure,
{
    if now > i64::MAX as u64 || duration > i64::MAX as u64 - now {
        Err(DBError::TimeFailure("Failed to calculate expire date".to_string()))
    } else {
        Ok(now + duration)
    }
}

/// The expiry date `duration` seconds from now.
pub fn calc_expire(duration: u64) -> (r: Result<u64, DBError>)
    ensures
        r matches Ok(e) ==> e >= duration && e <= i64::MAX,
        r matches Err(e) ==> e is TimeFailure,
{
    let n = now()?;
    expire_after(n, duration)
}

} // verus!
