//! Verified control engine for a closed-loop chassis fan-speed controller.
//!
//! The library samples a CPU temperature from a sensor/actuator gateway,
//! maps it to a fan duty cycle through a fixed policy table with an
//! emergency override, and plans actuation writes only when the duty cycle
//! changes. Transport to the concrete gateway (an external `ipmitool`
//! process) is abstracted behind the [`ipmi::Executer`] trait so the whole
//! engine is verified against its contracts.

pub mod args;
pub mod cmd;
pub mod config;
pub mod control;
pub mod error;
pub mod ipmi;
pub mod parse;
pub mod policy;
