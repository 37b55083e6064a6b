use vstd::prelude::*;

use crate::error::IpmiError;
use crate::parse::{extract_cpu_temperature, extract_fan_and_temp_summary, extract_temp_spec,
    summary_spec};

verus! {

/// The sensor/actuator gateway: three blocking operations against the
/// external subsystem, each returning raw text or a transport failure. The
/// library ships no implementation; the environment supplies one backed by
/// the external process and tests supply a canned double.
pub trait Executer {
    /// Reads the full sensor report as raw line-oriented text.
    fn get_info_fan_temp(&self) -> Result<String, IpmiError>;

    /// Reads the temperature-class sensor report as raw line-oriented text.
    fn get_cpu_temperature(&self) -> Result<String, IpmiError>;

    /// Applies a duty-cycle percentage through the two-step raw write
    /// protocol; both steps must succeed for the write to count.
    fn set_fan_speed(&self, speed: u16) -> Result<(), IpmiError>
        requires
            speed <= 100,
    ;
}

/// Decides the outcome of one external gateway invocation from its exit
/// state: the captured standard output on success, a transport error
/// carrying the exit status and the captured error stream otherwise.
pub fn interpret_gateway_exit(success: bool, status: i32, stdout: String, stderr: String) -> (r:
    Result<String, IpmiError>)
    ensures
        success ==> r == Result::<String, IpmiError>::Ok(stdout),
        !success ==> r == Result::<String, IpmiError>::Err(
            IpmiError::Transport { status, detail: stderr },
        ),
{
    if success {
        Ok(stdout)
    } else {
        Err(IpmiError::Transport { status, detail: stderr })
    }
}

/// The telemetry front end over a gateway: reads raw reports through the
/// [`Executer`] and parses them with the verified extractors.
pub struct IpmiTool<E: Executer> {
    cmd: E,
}

impl<E: Executer> IpmiTool<E> {
    pub fn new(cmd: E) -> (t: Self) {
        IpmiTool { cmd }
    }

    /// Reads the full sensor report and filters it to its fan and
    /// temperature lines. Any string handed out is the verified summary of
    /// some raw report.
    pub fn get_info_fan_temp(&self) -> (r: Result<String, IpmiError>)
        ensures
            r matches Ok(s) ==> exists|raw: Seq<char>| s@ == summary_spec(raw),
    {
        match self.cmd.get_info_fan_temp() {
            Ok(raw) => {
                let filtered = extract_fan_and_temp_summary(raw.as_str());
                proof {
                    assert(filtered@ == summary_spec(raw@));
                }
                Ok(filtered)
            },
            Err(e) => Err(e),
        }
    }

    /// Reads the temperature-class sensor report and extracts the CPU
    /// temperature. Any reading handed out is the verified extraction of
    /// some raw report.
    pub fn get_cpu_temperature(&self) -> (r: Result<u16, IpmiError>)
        ensures
            r matches Ok(t) ==> exists|raw: Seq<char>|
                extract_temp_spec(raw) == Result::<u16, IpmiError>::Ok(t),
    {
        match self.cmd.get_cpu_temperature() {
            Ok(raw) => {
                let res = extract_cpu_temperature(raw.as_str());
                proof {
                    assert(extract_temp_spec(raw@) == res);
                }
                res
            },
            Err(e) => Err(e),
        }
    }

    /// Forwards a duty-cycle write to the gateway.
    pub fn set_fan_speed(&self, speed: u16) -> (r: Result<(), IpmiError>)
        requires
            speed <= 100,
    {
        self.cmd.set_fan_speed(speed)
    }
}

} // verus!
