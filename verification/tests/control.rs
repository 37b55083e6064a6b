use std::cell::RefCell;
use std::rc::Rc;

use fanctl::config::{clamp_fixed_duty, ControlConfig};
use fanctl::control::{poll_once, LoopState, PollReport, UNSET_DUTY};
use fanctl::error::IpmiError;
use fanctl::ipmi::{Executer, IpmiTool};

#[test]
fn interval_clamping_applies_documented_default() {
    let c = ControlConfig::new(3, 80);
    assert_eq!(c.poll_interval_seconds, 5);
    let c = ControlConfig::new(200, 80);
    assert_eq!(c.poll_interval_seconds, 5);
    let c = ControlConfig::new(5, 80);
    assert_eq!(c.poll_interval_seconds, 5);
    let c = ControlConfig::new(120, 80);
    assert_eq!(c.poll_interval_seconds, 120);
}

#[test]
fn threshold_clamping_applies_documented_default() {
    let c = ControlConfig::new(10, 50);
    assert_eq!(c.emergency_threshold, 75);
    let c = ControlConfig::new(10, 95);
    assert_eq!(c.emergency_threshold, 95);
    let c = ControlConfig::new(10, 101);
    assert_eq!(c.emergency_threshold, 75);
    let c = ControlConfig::new(10, 60);
    assert_eq!(c.emergency_threshold, 60);
}

#[test]
fn auto_arguments_validate_into_config() {
    let auto = fanctl::args::Auto { interval: 3, threshold: 50 };
    let c = auto.config();
    assert_eq!(c.poll_interval_seconds, 5);
    assert_eq!(c.emergency_threshold, 75);
}

#[test]
fn fixed_duty_clamps_to_full_speed() {
    assert_eq!(clamp_fixed_duty(0), 0);
    assert_eq!(clamp_fixed_duty(100), 100);
    assert_eq!(clamp_fixed_duty(101), 100);
    assert_eq!(clamp_fixed_duty(1000), 100);
}

#[test]
fn fresh_state_is_unset() {
    let s = LoopState::new();
    assert_eq!(s.last_applied, UNSET_DUTY);
    assert_eq!(UNSET_DUTY, 255);
}

#[test]
fn plan_writes_only_on_change() {
    let mut s = LoopState::new();
    assert_eq!(s.plan(30, 80), Some(0));
    s.record_applied(0);
    assert_eq!(s.plan(30, 80), None);
    assert_eq!(s.plan(45, 80), Some(2));
    s.record_applied(2);
    assert_eq!(s.plan(45, 80), None);
}

/// A gateway double fed a fixed schedule of temperatures, recording every
/// duty-cycle write it receives.
struct ScriptedGateway {
    temps: RefCell<Vec<u16>>,
    writes: Rc<RefCell<Vec<u16>>>,
    fail_writes: bool,
}

impl ScriptedGateway {
    fn new(temps: &[u16]) -> Self {
        ScriptedGateway {
            temps: RefCell::new(temps.to_vec()),
            writes: Rc::new(RefCell::new(Vec::new())),
            fail_writes: false,
        }
    }
}

impl Executer for ScriptedGateway {
    fn get_info_fan_temp(&self) -> Result<String, IpmiError> {
        self.get_cpu_temperature()
    }

    fn get_cpu_temperature(&self) -> Result<String, IpmiError> {
        let mut temps = self.temps.borrow_mut();
        if temps.is_empty() {
            return Err(IpmiError::Transport { status: 1, detail: "sensor gone".to_string() });
        }
        let t = temps.remove(0);
        Ok(format!("Temp             | 0Eh | ok  |  3.1 | {} degrees C\n", t))
    }

    fn set_fan_speed(&self, speed: u16) -> Result<(), IpmiError> {
        if self.fail_writes {
            return Err(IpmiError::Transport { status: 1, detail: "write refused".to_string() });
        }
        self.writes.borrow_mut().push(speed);
        Ok(())
    }
}

#[test]
fn poll_sequence_writes_only_on_transitions() {
    // Temperatures [30, 45, 45, 90, 45] with threshold 80 must produce the
    // writes [0, 2, 100, 2]: exactly four, none for the repeated 45.
    let gateway = ScriptedGateway::new(&[30, 45, 45, 90, 45]);
    let writes = gateway.writes.clone();
    let tool = IpmiTool::new(gateway);
    let mut state = LoopState::new();
    let mut emergencies = 0;
    for _ in 0..5 {
        let report = poll_once(&tool, &mut state, 80);
        if let PollReport::Applied { emergency: true, .. } = report {
            emergencies += 1;
        }
    }
    assert_eq!(*writes.borrow(), vec![0, 2, 100, 2]);
    assert_eq!(emergencies, 1);
    assert_eq!(state.last_applied, 2);
}

#[test]
fn steady_temperature_writes_once() {
    let gateway = ScriptedGateway::new(&[45, 45, 45]);
    let tool = IpmiTool::new(gateway);
    let mut state = LoopState::new();
    let first = poll_once(&tool, &mut state, 80);
    assert!(matches!(first, PollReport::Applied { duty: 2, emergency: false, .. }));
    let second = poll_once(&tool, &mut state, 80);
    assert!(matches!(second, PollReport::Unchanged { duty: 2, .. }));
    let third = poll_once(&tool, &mut state, 80);
    assert!(matches!(third, PollReport::Unchanged { duty: 2, .. }));
    assert_eq!(state.last_applied, 2);
}

#[test]
fn failed_write_leaves_state_untouched_for_retry() {
    let gateway = ScriptedGateway {
        temps: RefCell::new(vec![45]),
        writes: Rc::new(RefCell::new(Vec::new())),
        fail_writes: true,
    };
    let tool = IpmiTool::new(gateway);
    let mut state = LoopState::new();
    let report = poll_once(&tool, &mut state, 80);
    assert!(matches!(report, PollReport::WriteFailed { duty: 2, .. }));
    assert_eq!(state.last_applied, UNSET_DUTY);
}

#[test]
fn failed_read_skips_actuation() {
    let gateway = ScriptedGateway::new(&[]);
    let tool = IpmiTool::new(gateway);
    let mut state = LoopState::new();
    let report = poll_once(&tool, &mut state, 80);
    assert!(matches!(report, PollReport::ReadFailed { .. }));
    assert_eq!(state.last_applied, UNSET_DUTY);
}
