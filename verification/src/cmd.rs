use vstd::prelude::*;
use vstd::string::StrSliceExecFns;
use vstd::string::StringExecFns;

verus! {

/// The lower-case hexadecimal digit character of a value below 16.
pub open spec fn hex_char(d: int) -> char {
    if d == 0 {
        '0'
    } else if d == 1 {
        '1'
    } else if d == 2 {
        '2'
    } else if d == 3 {
        '3'
    } else if d == 4 {
        '4'
    } else if d == 5 {
        '5'
    } else if d == 6 {
        '6'
    } else if d == 7 {
        '7'
    } else if d == 8 {
        '8'
    } else if d == 9 {
        '9'
    } else if d == 10 {
        'a'
    } else if d == 11 {
        'b'
    } else if d == 12 {
        'c'
    } else if d == 13 {
        'd'
    } else if d == 14 {
        'e'
    } else {
        'f'
    }
}

/// The gateway encoding of a duty-cycle byte: `0x` followed by exactly two
/// lower-case hexadecimal digits.
pub open spec fn duty_hex_spec(speed: u16) -> Seq<char> {
    seq!['0', 'x', hex_char(speed as int / 16), hex_char(speed as int % 16)]
}

/// Encodes a duty-cycle byte for the raw gateway write.
pub fn encode_duty_hex(speed: u16) -> (r: String)
    requires
        speed <= 255,
    ensures
        r@ == duty_hex_spec(speed),
{
    let digits = "0123456789abcdef";
    proof {
        reveal_strlit("0123456789abcdef");
        reveal_strlit("0x");
    }
    let hi = (speed / 16) as usize;
    let lo = (speed % 16) as usize;
    let mut out = String::from_str("0x");
    out.append(digits.substring_char(hi, hi + 1));
    out.append(digits.substring_char(lo, lo + 1));
    proof {
        assert(digits@[hi as int] == hex_char(speed as int / 16));
        assert(digits@[lo as int] == hex_char(speed as int % 16));
        assert(out@ =~= duty_hex_spec(speed));
    }
    out
}

/// Builder of the raw operations the sensor/actuator gateway understands.
/// It fixes the external program and the exact argument lists; executing
/// them is left to the environment behind the [`crate::ipmi::Executer`]
/// trait.
pub struct Cmd {}

impl Cmd {
    pub fn new() -> (c: Self) {
        Cmd {  }
    }

    /// The external gateway program the raw operations are issued through.
    pub fn program(&self) -> (r: String)
        ensures
            r@ == "ipmitool"@,
    {
        String::from_str("ipmitool")
    }

    /// Arguments of the full sensor-report read used by the info query.
    pub fn info_fan_temp_args(&self) -> (r: Vec<String>)
        ensures
            r@.len() == 3,
            r@[0]@ == "sdr"@,
            r@[1]@ == "list"@,
            r@[2]@ == "full"@,
    {
        let mut v: Vec<String> = Vec::new();
        v.push(String::from_str("sdr"));
        v.push(String::from_str("list"));
        v.push(String::from_str("full"));
        v
    }

    /// Arguments of the temperature-class sensor read used by the control
    /// loop.
    pub fn cpu_temperature_args(&self) -> (r: Vec<String>)
        ensures
            r@.len() == 3,
            r@[0]@ == "sdr"@,
            r@[1]@ == "type"@,
            r@[2]@ == "Temperature"@,
    {
        let mut v: Vec<String> = Vec::new();
        v.push(String::from_str("sdr"));
        v.push(String::from_str("type"));
        v.push(String::from_str("Temperature"));
        v
    }

    /// The two raw write commands of the duty-cycle protocol, to be issued
    /// in this order: the first disables automatic fan control, the second
    /// sets the percentage encoded as a hexadecimal byte. Both must succeed
    /// for the write to count as applied; there is no rollback of the first
    /// step when the second fails.
    pub fn set_fan_speed_commands(&self, speed: u16) -> (r: (Vec<String>, Vec<String>))
        requires
            speed <= 100,
        ensures
            r.0@.len() == 5,
            r.0@[0]@ == "raw"@,
            r.0@[1]@ == "0x30"@,
            r.0@[2]@ == "0x30"@,
            r.0@[3]@ == "0x01"@,
            r.0@[4]@ == "0x00"@,
            r.1@.len() == 6,
            r.1@[0]@ == "raw"@,
            r.1@[1]@ == "0x30"@,
            r.1@[2]@ == "0x30"@,
            r.1@[3]@ == "0x02"@,
            r.1@[4]@ == "0xff"@,
            r.1@[5]@ == duty_hex_spec(speed),
    {
        let mut disable_auto: Vec<String> = Vec::new();
        disable_auto.push(String::from_str("raw"));
        disable_auto.push(String::from_str("0x30"));
        disable_auto.push(String::from_str("0x30"));
        disable_auto.push(String::from_str("0x01"));
        disable_auto.push(String::from_str("0x00"));
        let mut set_percent: Vec<String> = Vec::new();
        set_percent.push(String::from_str("raw"));
        set_percent.push(String::from_str("0x30"));
        set_percent.push(String::from_str("0x30"));
        set_percent.push(String::from_str("0x02"));
        set_percent.push(String::from_str("0xff"));
        set_percent.push(encode_duty_hex(speed));
        (disable_auto, set_percent)
    }
}

} // verus!
