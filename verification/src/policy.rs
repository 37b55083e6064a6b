use vstd::prelude::*;

verus! {

/// The fixed temperature table, an ordered list of inclusive ranges where
/// the first matching range wins. Temperatures are degrees Celsius, the
/// result is a fan duty cycle in percent.
pub open spec fn table_duty(t: u16) -> u16 {
    if t <= 40 {
        0
    } else if t <= 50 {
        2
    } else if t <= 55 {
        5
    } else if t <= 60 {
        10
    } else if t <= 62 {
        20
    } else if t <= 65 {
        30
    } else if t <= 70 {
        40
    } else if t <= 75 {
        50
    } else if t <= 80 {
        80
    } else {
        100
    }
}

/// What the control policy decides for a temperature reading: full speed at
/// or above the emergency threshold, otherwise the table entry.
pub open spec fn duty_spec(t: u16, threshold: u16) -> u16 {
    if t >= threshold {
        100
    } else {
        table_duty(t)
    }
}

/// Maps a temperature reading and the configured emergency threshold to the
/// target duty cycle. Pure and total over all readings; it never fails.
pub fn decide_duty_cycle(temperature: u16, emergency_threshold: u16) -> (r: u16)
    ensures
        r == duty_spec(temperature, emergency_threshold),
        r <= 100,
{
    if temperature >= emergency_threshold {
        return 100;
    }
    if temperature <= 40 {
        0
    } else if temperature <= 50 {
        2
    } else if temperature <= 55 {
        5
    } else if temperature <= 60 {
        10
    } else if temperature <= 62 {
        20
    } else if temperature <= 65 {
        30
    } else if temperature <= 70 {
        40
    } else if temperature <= 75 {
        50
    } else if temperature <= 80 {
        80
    } else {
        100
    }
}

/// Reports whether a reading is at or above the emergency threshold, the
/// event that is reported distinctly from a normal table-driven change.
pub fn is_emergency(temperature: u16, emergency_threshold: u16) -> (r: bool)
    ensures
        r == (temperature >= emergency_threshold),
{
    temperature >= emergency_threshold
}

/// Law: any temperature in the idle band commands a stopped fan whenever the
/// emergency threshold lies above that band.
pub proof fn lemma_cool_temperature_idles_fan(t: u16, threshold: u16)
    requires
        t <= 40,
        threshold >= 41,
    ensures
        duty_spec(t, threshold) == 0,
{
}

/// Law: at or above the emergency threshold the policy commands full speed,
/// overriding whatever the table would give.
pub proof fn lemma_emergency_forces_full_speed(t: u16, threshold: u16)
    requires
        t >= threshold,
    ensures
        duty_spec(t, threshold) == 100,
{
}

} // verus!
