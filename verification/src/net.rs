//! Decisions of the socket classes: how the `SO_LINGER` option is reported
//! to PHP and set from PHP.

use vstd::prelude::*;

verus! {

/// The linger time PHP sees: the seconds of a set linger, else -1.
pub fn linger_report(linger_secs: Option<u64>) -> (r: i64)
    ensures
        r == (match linger_secs {
            Some(s) => s as i64,
            None => -1i64,
        }),
{
    match linger_secs {
        Some(s) => s as i64,
        None => -1,
    }
}

/// The linger time set for what PHP passed: a non-negative number of
/// seconds sets it, a negative one turns lingering off.
pub fn linger_setting(secs: i64) -> (r: Option<u64>)
    ensures
        secs >= 0 ==> r == Some(secs as u64),
        secs < 0 ==> r is None,
{
    if secs >= 0 {
        Some(secs as u64)
    } else {
        None
    }
}

/// A linger time set from PHP reads back unchanged.
pub proof fn law_linger_round_trip(secs: i64)
    requires
        secs >= 0,
    ensures
        (secs as u64) as i64 == secs,
{
}

} // verus!
