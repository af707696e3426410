use vstd::prelude::*;

verus! {

/// Relies on chrono::Utc::now: the current time as whole seconds since the
/// Unix epoch. It panics on a clock set before the epoch, so what it returns
/// is never negative; nothing else is promised of the value.
#[verifier::external_body]
pub fn now() -> (r: i64)
    ensures
        r >= 0,
{
    chrono::Utc::now().timestamp()
}

} // verus!
