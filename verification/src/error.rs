use vstd::prelude::*;

verus! {

/// The error kinds of the control engine. Every one is recoverable at the
/// control-loop level: a failed poll is reported and retried at the next
/// tick.
#[derive(Debug)]
pub enum IpmiError {
    /// An external gateway call failed: a non-zero exit status or an I/O
    /// failure, with the exit status and the captured error-stream text.
    Transport { status: i32, detail: String },
    /// A well-formed sensor report held no temperature line matching the
    /// expected pattern.
    NotFound,
    /// The captured numeric text of a temperature line is not a valid
    /// unsigned 16-bit integer.
    Parse,
}

impl IpmiError {
    /// True exactly on the `Transport` kind.
    pub fn is_transport(&self) -> (r: bool)
        ensures
            r == (self is Transport),
    {
        match self {
            IpmiError::Transport { .. } => true,
            _ => false,
        }
    }

    /// True exactly on the `NotFound` kind.
    pub fn is_not_found(&self) -> (r: bool)
        ensures
            r == (self is NotFound),
    {
        match self {
            IpmiError::NotFound => true,
            _ => false,
        }
    }

    /// True exactly on the `Parse` kind.
    pub fn is_parse(&self) -> (r: bool)
        ensures
            r == (self is Parse),
    {
        match self {
            IpmiError::Parse => true,
            _ => false,
        }
    }
}

} // verus!
