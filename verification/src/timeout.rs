use vstd::prelude::*;
use crate::config::TimeoutConfig;

verus! {

/// Threshold in seconds that a request's urgency level selects:
/// 0 picks the low threshold, 2 the critical one, and 1 as well as an
/// absent or unrecognized level the normal one.
pub open spec fn urgency_seconds(urgency: Option<u8>, t: TimeoutConfig) -> u32 {
    if urgency == Some(0u8) {
        t.low
    } else if urgency == Some(2u8) {
        t.critical
    } else {
        t.normal
    }
}

/// Effective expiry duration in milliseconds. A positive `expire_timeout`
/// is taken literally as milliseconds and overrides the urgency mapping;
/// zero asks for no timer at all; a negative value defers to the urgency
/// mapping, scaled from seconds to milliseconds.
pub open spec fn spec_effective_timeout_ms(
    expire_timeout: i32,
    urgency: Option<u8>,
    t: TimeoutConfig,
) -> int {
    if expire_timeout > 0 {
        expire_timeout as int
    } else if expire_timeout == 0 {
        0
    } else {
        urgency_seconds(urgency, t) * 1000
    }
}

/// Compute the effective expiry duration of a request. A result of 0 means
/// that no removal timer is to be scheduled.
pub fn effective_timeout_ms(expire_timeout: i32, urgency: Option<u8>, t: &TimeoutConfig) -> (ms:
    u64)
    ensures
        ms == spec_effective_timeout_ms(expire_timeout, urgency, *t),
        expire_timeout == 0 ==> ms == 0,
        expire_timeout > 0 ==> ms == expire_timeout,
        expire_timeout < 0 ==> ms == urgency_seconds(urgency, *t) * 1000,
{
    if expire_timeout > 0 {
        expire_timeout as u64
    } else if expire_timeout == 0 {
        0
    } else {
        let secs: u64 = if urgency == Some(0u8) {
            t.low as u64
        } else if urgency == Some(2u8) {
            t.critical as u64
        } else {
            t.normal as u64
        };
        secs * 1000
    }
}

} // verus!
