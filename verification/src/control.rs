use vstd::prelude::*;

use crate::error::IpmiError;
use crate::ipmi::{Executer, IpmiTool};
use crate::policy::{decide_duty_cycle, duty_spec};

verus! {

/// Sentinel for "no duty cycle applied yet", distinct from every valid
/// percentage in [0, 100].
pub const UNSET_DUTY: u16 = 255;

/// The single piece of mutable state of the control loop: the duty cycle
/// most recently applied with success, or [`UNSET_DUTY`] before the first
/// successful write. Owned by one loop; polls never overlap.
pub struct LoopState {
    pub last_applied: u16,
}

impl LoopState {
    /// The stored value is either the sentinel or a valid percentage.
    pub open spec fn wf(self) -> bool {
        self.last_applied == UNSET_DUTY || self.last_applied <= 100
    }

    /// What a poll at the given temperature plans: the policy's duty cycle
    /// where it differs from the last applied one, nothing otherwise.
    pub open spec fn plan_spec(self, temperature: u16, threshold: u16) -> Option<u16> {
        if duty_spec(temperature, threshold) != self.last_applied {
            Some(duty_spec(temperature, threshold))
        } else {
            None
        }
    }

    /// The state after a poll at the given temperature whose planned write,
    /// if there was one, succeeded.
    pub open spec fn after_successful_poll(self, temperature: u16, threshold: u16) -> LoopState {
        LoopState { last_applied: duty_spec(temperature, threshold) }
    }

    /// The initial state: nothing applied yet, so the first computed duty
    /// cycle is always written.
    pub fn new() -> (s: Self)
        ensures
            s.last_applied == UNSET_DUTY,
            s.wf(),
    {
        LoopState { last_applied: UNSET_DUTY }
    }

    /// Hysteresis: plans a write exactly when the policy's duty cycle for
    /// this reading differs from the last applied one.
    pub fn plan(&self, temperature: u16, threshold: u16) -> (r: Option<u16>)
        ensures
            r == self.plan_spec(temperature, threshold),
            r matches Some(d) ==> d == duty_spec(temperature, threshold) && d <= 100,
            r is None ==> duty_spec(temperature, threshold) == self.last_applied,
    {
        let duty = decide_duty_cycle(temperature, threshold);
        if duty != self.last_applied {
            Some(duty)
        } else {
            None
        }
    }

    /// Records a successfully applied duty cycle; called only after the
    /// gateway confirmed both steps of the write.
    pub fn record_applied(&mut self, duty: u16)
        requires
            duty <= 100,
        ensures
            final(self).last_applied == duty,
            final(self).wf(),
    {
        self.last_applied = duty;
    }
}

/// Law: while the temperature reading stays unchanged across consecutive
/// polls, only the first poll can plan an actuation write; after a poll at
/// that temperature whose write succeeded (or that planned none), the next
/// poll at the same temperature plans none. A poll that plans no write also
/// leaves the state untouched.
pub proof fn lemma_unchanged_temperature_writes_once(s: LoopState, t: u16, threshold: u16)
    ensures
        s.after_successful_poll(t, threshold).plan_spec(t, threshold) is None,
        s.plan_spec(t, threshold) is None ==> s.after_successful_poll(t, threshold) == s,
{
}

/// What one tick of the control loop did, for the reporting sink.
pub enum PollReport {
    /// Reading or parsing the temperature failed; nothing was actuated and
    /// the loop state is untouched. The next tick retries.
    ReadFailed { error: IpmiError },
    /// The computed duty cycle equals the last applied one; no write was
    /// issued.
    Unchanged { temperature: u16, duty: u16 },
    /// The computed duty cycle differed, the write succeeded, and the state
    /// now remembers it. `emergency` reports the threshold override
    /// distinctly from a table-driven change.
    Applied { temperature: u16, duty: u16, emergency: bool },
    /// The computed duty cycle differed but the write failed; the state is
    /// untouched, so the next tick retries the write.
    WriteFailed { temperature: u16, duty: u16, error: IpmiError },
}

/// One tick of the control loop: read the temperature through the gateway,
/// compute the policy's duty cycle, and write it only when it differs from
/// the last applied one, remembering the write only on success.
pub fn poll_once<E: Executer>(tool: &IpmiTool<E>, state: &mut LoopState, threshold: u16) -> (r:
    PollReport)
    ensures
        r is ReadFailed ==> *final(state) == *old(state),
        r matches PollReport::Unchanged { temperature, duty } ==> {
            &&& duty == duty_spec(temperature, threshold)
            &&& duty == old(state).last_applied
            &&& *final(state) == *old(state)
        },
        r matches PollReport::Applied { temperature, duty, emergency } ==> {
            &&& duty == duty_spec(temperature, threshold)
            &&& duty != old(state).last_applied
            &&& final(state).last_applied == duty
            &&& *final(state) == old(state).after_successful_poll(temperature, threshold)
            &&& emergency == (temperature >= threshold)
        },
        r matches PollReport::WriteFailed { temperature, duty, .. } ==> {
            &&& duty == duty_spec(temperature, threshold)
            &&& duty != old(state).last_applied
            &&& *final(state) == *old(state)
        },
{
    match tool.get_cpu_temperature() {
        Err(error) => PollReport::ReadFailed { error },
        Ok(temperature) => {
            let duty = decide_duty_cycle(temperature, threshold);
            match state.plan(temperature, threshold) {
                None => PollReport::Unchanged { temperature, duty },
                Some(planned) => match tool.set_fan_speed(planned) {
                    Ok(_) => {
                        state.record_applied(planned);
                        PollReport::Applied {
                            temperature,
                            duty: planned,
                            emergency: temperature >= threshold,
                        }
                    },
                    Err(error) => PollReport::WriteFailed { temperature, duty: planned, error },
                },
            }
        },
    }
}

} // verus!
