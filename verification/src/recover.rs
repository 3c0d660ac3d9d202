//! The two decisions of recovery: when a connection counts as lost, and when a silent login
//! may cause another SMS.

use vstd::prelude::*;

verus! {

/// Whether so many failed probes in a row count as a lost connection.
pub fn should_enter_reconnect(consecutive_fails: u32, threshold: u32) -> (r: bool)
    ensures
        r == (consecutive_fails >= threshold),
{
    consecutive_fails >= threshold
}

/// Enough time has passed since the last SMS. A clock that was set back never counts as
/// enough.
pub open spec fn gate_open(now: u64, last_sms_sent: Option<u64>, interval: u64) -> bool {
    match last_sms_sent {
        Some(t) => t <= now && interval <= now - t,
        None => true,
    }
}

/// Whether a silent login may cause another SMS: none was sent yet, or the last one was sent
/// at least `interval` seconds ago.
pub fn relogin_allowed(now: u64, last_sms_sent: Option<u64>, interval: u64) -> (r: bool)
    ensures
        r == gate_open(now, last_sms_sent, interval),
{
    match last_sms_sent {
        Some(t) => t <= now && now - t >= interval,
        None => true,
    }
}

/// Two silent logins whose SMS were sent at `first` and `second` lie at least `interval` apart,
/// where the second one was allowed.
pub proof fn law_sms_are_spaced(first: u64, second: u64, interval: u64)
    requires
        gate_open(second, Some(first), interval),
    ensures
        first + interval <= second,
{
}

/// Another SMS may be sent where none was sent yet, and from the moment on at which the interval has
/// passed since the last one, but never before; a clock that shows an earlier time than that of the
/// last one does not count.
pub proof fn law_when_another_sms_may_be_sent(now: u64, last: u64, interval: u64)
    ensures
        gate_open(now, None, interval),
        gate_open(now, Some(last), interval) <==> last + interval <= now,
{
}

} // verus!
