use vstd::prelude::*;

verus! {

/// Per-urgency expiry thresholds, in seconds.
#[derive(Clone, Copy, Debug, PartialEq, Eq, Structural)]
pub struct TimeoutConfig {
    pub low: u32,
    pub normal: u32,
    pub critical: u32,
}

/// Read-mostly service configuration: the expiry thresholds and the cap on
/// how many history entries are retained.
#[derive(Clone, Copy, Debug, PartialEq, Eq, Structural)]
pub struct Config {
    pub timeout: TimeoutConfig,
    pub max_notifications: u32,
}

} // verus!
