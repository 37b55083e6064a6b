use vstd::prelude::*;

verus! {

/// Default polling period in seconds, also the fallback for an invalid one.
pub const DEFAULT_POLL_INTERVAL_SECONDS: u64 = 5;

/// The documented default emergency threshold in degrees Celsius, also the
/// fallback for an invalid one.
pub const DEFAULT_EMERGENCY_THRESHOLD: u16 = 75;

/// Immutable per-run configuration of the control loop, constructed once at
/// startup from user input and never mutated.
pub struct ControlConfig {
    /// Polling period in seconds, always within [5, 120].
    pub poll_interval_seconds: u64,
    /// Emergency threshold in degrees Celsius, always within [60, 100].
    pub emergency_threshold: u16,
}

impl ControlConfig {
    /// Every constructed configuration keeps both fields in their valid
    /// ranges.
    pub open spec fn wf(self) -> bool {
        &&& 5 <= self.poll_interval_seconds <= 120
        &&& 60 <= self.emergency_threshold <= 100
    }

    /// Validates and defaults the user-supplied values: a polling period
    /// outside [5, 120] falls back to 5 and an emergency threshold outside
    /// [60, 100] falls back to the documented default.
    pub fn new(interval: u64, threshold: u16) -> (c: Self)
        ensures
            c.poll_interval_seconds == if 5 <= interval <= 120 {
                interval
            } else {
                DEFAULT_POLL_INTERVAL_SECONDS as u64
            },
            c.emergency_threshold == if 60 <= threshold <= 100 {
                threshold
            } else {
                DEFAULT_EMERGENCY_THRESHOLD as u16
            },
            c.wf(),
    {
        let poll_interval_seconds: u64 = if 5 <= interval && interval <= 120 {
            interval
        } else {
            DEFAULT_POLL_INTERVAL_SECONDS
        };
        let emergency_threshold: u16 = if 60 <= threshold && threshold <= 100 {
            threshold
        } else {
            DEFAULT_EMERGENCY_THRESHOLD
        };
        ControlConfig { poll_interval_seconds, emergency_threshold }
    }
}

/// Clamps a fixed duty-cycle request to the valid range [0, 100].
pub fn clamp_fixed_duty(value: u16) -> (r: u16)
    ensures
        r == if value > 100 {
            100u16
        } else {
            value
        },
        r <= 100,
{
    if value > 100 {
        100
    } else {
        value
    }
}

} // verus!
