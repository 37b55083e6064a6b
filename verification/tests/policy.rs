use fanctl::policy::decide_duty_cycle;

#[test]
fn idle_band_keeps_fan_off() {
    for t in 0..=40u16 {
        assert_eq!(decide_duty_cycle(t, 80), 0);
        assert_eq!(decide_duty_cycle(t, 41), 0);
    }
}

#[test]
fn table_boundaries_classify_exactly() {
    let threshold = 100u16;
    assert_eq!(decide_duty_cycle(0, threshold), 0);
    assert_eq!(decide_duty_cycle(40, threshold), 0);
    assert_eq!(decide_duty_cycle(41, threshold), 2);
    assert_eq!(decide_duty_cycle(50, threshold), 2);
    assert_eq!(decide_duty_cycle(51, threshold), 5);
    assert_eq!(decide_duty_cycle(55, threshold), 5);
    assert_eq!(decide_duty_cycle(56, threshold), 10);
    assert_eq!(decide_duty_cycle(60, threshold), 10);
    assert_eq!(decide_duty_cycle(61, threshold), 20);
    assert_eq!(decide_duty_cycle(62, threshold), 20);
    assert_eq!(decide_duty_cycle(63, threshold), 30);
    assert_eq!(decide_duty_cycle(65, threshold), 30);
    assert_eq!(decide_duty_cycle(66, threshold), 40);
    assert_eq!(decide_duty_cycle(70, threshold), 40);
    assert_eq!(decide_duty_cycle(71, threshold), 50);
    assert_eq!(decide_duty_cycle(75, threshold), 50);
    assert_eq!(decide_duty_cycle(76, threshold), 80);
    assert_eq!(decide_duty_cycle(80, threshold), 80);
    assert_eq!(decide_duty_cycle(81, threshold), 100);
    assert_eq!(decide_duty_cycle(120, threshold), 100);
}

#[test]
fn emergency_threshold_forces_full_speed() {
    // Overrides a table bucket that would give 30.
    assert_eq!(decide_duty_cycle(65, 65), 100);
    assert_eq!(decide_duty_cycle(66, 65), 100);
    assert_eq!(decide_duty_cycle(90, 80), 100);
    // Just below the threshold the table still decides.
    assert_eq!(decide_duty_cycle(64, 65), 30);
}

#[test]
fn emergency_flag_reports_override() {
    assert!(fanctl::policy::is_emergency(65, 65));
    assert!(fanctl::policy::is_emergency(90, 80));
    assert!(!fanctl::policy::is_emergency(64, 65));
}
