use fanctl::cmd::{encode_duty_hex, Cmd};

#[test]
fn duty_hex_encodes_as_prefixed_byte() {
    assert_eq!(encode_duty_hex(0), "0x00");
    assert_eq!(encode_duty_hex(2), "0x02");
    assert_eq!(encode_duty_hex(10), "0x0a");
    assert_eq!(encode_duty_hex(16), "0x10");
    assert_eq!(encode_duty_hex(100), "0x64");
    assert_eq!(encode_duty_hex(255), "0xff");
}

#[test]
fn gateway_reads_use_sdr_queries() {
    let cmd = Cmd::new();
    assert_eq!(cmd.program(), "ipmitool");
    assert_eq!(cmd.info_fan_temp_args(), vec!["sdr", "list", "full"]);
    assert_eq!(cmd.cpu_temperature_args(), vec!["sdr", "type", "Temperature"]);
}

#[test]
fn duty_write_is_a_two_step_raw_protocol() {
    let cmd = Cmd::new();
    let (disable_auto, set_percent) = cmd.set_fan_speed_commands(10);
    assert_eq!(disable_auto, vec!["raw", "0x30", "0x30", "0x01", "0x00"]);
    assert_eq!(set_percent, vec!["raw", "0x30", "0x30", "0x02", "0xff", "0x0a"]);
}
