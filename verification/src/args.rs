use vstd::prelude::*;

use crate::config::ControlConfig;

verus! {

/// Parameters of the automatic control mode as the user supplied them,
/// before validation.
pub struct Auto {
    /// Requested polling period in seconds.
    pub interval: u64,
    /// Requested emergency threshold in degrees Celsius.
    pub threshold: u16,
}

impl Auto {
    /// Validates the requested values into a well-formed configuration,
    /// applying the documented defaults to out-of-range inputs.
    pub fn config(&self) -> (c: ControlConfig)
        ensures
            c.poll_interval_seconds == if 5 <= self.interval <= 120 {
                self.interval
            } else {
                crate::config::DEFAULT_POLL_INTERVAL_SECONDS as u64
            },
            c.emergency_threshold == if 60 <= self.threshold <= 100 {
                self.threshold
            } else {
                crate::config::DEFAULT_EMERGENCY_THRESHOLD as u16
            },
            c.wf(),
    {
        ControlConfig::new(self.interval, self.threshold)
    }
}

/// The three operating modes of the controller.
pub enum Command {
    /// Closed-loop mode: poll the temperature periodically and adjust the
    /// fan duty cycle.
    Auto(Auto),
    /// One-shot mode: apply a fixed duty-cycle percentage and stop.
    Fixed { value: u16 },
    /// One-shot mode: print the fan and temperature summary and stop.
    Info,
}

/// The full startup request: a mode and the verbosity switch.
pub struct Args {
    pub command: Command,
    pub verbose: bool,
}

} // verus!
