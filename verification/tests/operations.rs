use owon_spe::operations::iee4882::{Idn, IdnOutput, Reset};
use owon_spe::operations::measure::{
    pop_bool, pop_number, parse_mode, MeasureAll, MeasureAllInfo, MeasureAllInfoOutput,
    MeasureAllOutput, Mode, Power,
};
use owon_spe::operations::output::{
    Current, CurrentLimit, DisableOutput, EnableOutput, Output, SetCurrent, SetCurrentLimit,
    SetVolt, SetVoltLimit, Volt, VoltLimit,
};
use owon_spe::operations::{parse_bool, test_states, Operation};
use owon_spe::fields::Fields;
use owon_spe::{Error, Number};

fn number(text: &str) -> Number {
    Number::parse(text).expect("a numeric token")
}

fn float(value: &Number) -> f32 {
    value.as_str().parse().expect("a number")
}

#[test]
fn test_output() {
    assert!(test_states(
        Output {},
        &[
            ("ON", Ok(true)),
            ("1", Ok(true)),
            ("OFF", Ok(false)),
            ("0", Ok(false)),
        ],
    ));
}

#[test]
fn test_volt() {
    assert!(test_states(
        Volt {},
        &[("1.000", Ok(number("1.000"))), ("2.5", Ok(number("2.5")))],
    ));
    assert_eq!(float(&Volt {}.parse_line("1.000").unwrap()), 1.000);
    assert_eq!(float(&Volt {}.parse_line("2.5").unwrap()), 2.5);
}

#[test]
fn test_measure_all() {
    assert!(test_states(
        MeasureAll {},
        &[(
            "1.000,2.000",
            Ok(MeasureAllOutput {
                volt: number("1.000"),
                current: number("2.000"),
            }),
        )],
    ));
    let out = MeasureAll {}.parse_line("1.000,2.000").unwrap();
    assert_eq!(float(&out.volt), 1.0);
    assert_eq!(float(&out.current), 2.0);
}

#[test]
fn test_measure_all_info() {
    assert!(test_states(
        MeasureAllInfo {},
        &[(
            "4.987,0.514,2.560,OFF,OFF,OFF,1",
            Ok(MeasureAllInfoOutput {
                volt: number("4.987"),
                current: number("0.514"),
                power: number("2.560"),
                over_voltage: false,
                over_current: false,
                over_temperature: false,
                mode: Mode::ConstantVoltage,
            }),
        )],
    ));
    let out = MeasureAllInfo {}
        .parse_line("4.987,0.514,2.560,OFF,OFF,OFF,1")
        .unwrap();
    assert_eq!(float(&out.volt), 4.987);
    assert_eq!(float(&out.current), 0.514);
    assert_eq!(float(&out.power), 2.560);
    assert!(!out.over_voltage);
    assert!(!out.over_current);
    assert!(!out.over_temperature);
    assert_eq!(out.mode, Mode::ConstantVoltage);
}

#[test]
fn test_states_reports_a_wrong_expectation() {
    assert!(!test_states(Output {}, &[("ON", Ok(true)), ("OFF", Ok(true))]));
    assert!(!test_states(Output {}, &[("ON", Err(Error::UnexpectedData))]));
    assert!(!test_states(Output {}, &[("maybe", Ok(true))]));
    assert!(test_states(Output {}, &[("maybe", Err(Error::UnexpectedData))]));
    let closed = std::io::Error::from(std::io::ErrorKind::BrokenPipe);
    assert!(!test_states(Output {}, &[("maybe", Err(Error::IOError(closed)))]));
    assert!(test_states(Output {}, &[]));
    assert!(!test_states(
        Volt {},
        &[("1.000", Ok(number("1.0")))],
    ));
}

#[test]
fn bool_tokens() {
    assert_eq!(parse_bool("ON"), Some(true));
    assert_eq!(parse_bool("1"), Some(true));
    assert_eq!(parse_bool("OFF"), Some(false));
    assert_eq!(parse_bool("0"), Some(false));
    for other in ["", "on", "off", "On", "ON ", " ON", "2", "00", "11", "OF", "OFFF", "O", "N", "true", "10"] {
        assert_eq!(parse_bool(other), None, "{:?}", other);
    }
}

#[test]
fn output_refuses_other_tokens() {
    for other in ["", "on", " ON", "ON ", "2", "YES"] {
        assert!(matches!(
            Output {}.parse_line(other),
            Err(Error::UnexpectedData)
        ));
    }
}

#[test]
fn identification_reply() {
    let out = Idn {}.parse_line("OWON,SPE1234,SN001,1.0.2").unwrap();
    assert_eq!(
        out,
        IdnOutput {
            model: "SPE1234".to_string(),
            serial: "SN001".to_string(),
            fw: "1.0.2".to_string(),
        }
    );
    assert!(test_states(
        Idn {},
        &[(
            "OWON,SPE1234,SN001,1.0.2",
            Ok(IdnOutput {
                model: "SPE1234".to_string(),
                serial: "SN001".to_string(),
                fw: "1.0.2".to_string(),
            })
        )]
    ));
}

#[test]
fn identification_needs_four_fields() {
    for short in ["", "OWON", "OWON,SPE1234", "OWON,SPE1234,SN001"] {
        assert!(matches!(
            Idn {}.parse_line(short),
            Err(Error::UnexpectedData)
        ));
    }
}

#[test]
fn identification_keeps_fields_verbatim() {
    let out = Idn {}.parse_line(", SPE 1 ,,\tfw ,more,fields").unwrap();
    assert_eq!(out.model, " SPE 1 ");
    assert_eq!(out.serial, "");
    assert_eq!(out.fw, "\tfw ");
}

#[test]
fn measure_all_refusals() {
    for bad in ["", "1.000", "1.000,", ",2.000", "1.000;2.000", "a,b", "1.0, 2.0", "1.0,2.0V"] {
        assert!(
            matches!(MeasureAll {}.parse_line(bad), Err(Error::UnexpectedData)),
            "{:?}",
            bad
        );
    }
}

#[test]
fn measure_all_takes_negative_and_extra() {
    let out = MeasureAll {}.parse_line("-1.5,2e3,ignored").unwrap();
    assert_eq!(float(&out.volt), -1.5);
    assert_eq!(float(&out.current), 2000.0);
}

#[test]
fn measure_all_info_modes() {
    let modes = [
        ("0", Mode::Standby),
        ("1", Mode::ConstantVoltage),
        ("2", Mode::ConstantCurrent),
        ("3", Mode::Failed),
    ];
    for (code, mode) in modes {
        let line = format!("1,2,3,ON,0,1,{}", code);
        let out = MeasureAllInfo {}.parse_line(&line).unwrap();
        assert_eq!(out.mode, mode);
        assert!(out.over_voltage);
        assert!(!out.over_current);
        assert!(out.over_temperature);
    }
}

#[test]
fn measure_all_info_refusals() {
    for bad in [
        "",
        "4.987,0.514,2.560,OFF,OFF,OFF",
        "4.987,0.514,2.560,OFF,OFF,OFF,",
        "4.987,0.514,2.560,OFF,OFF,OFF,4",
        "4.987,0.514,2.560,OFF,OFF,OFF,-1",
        "4.987,0.514,2.560,OFF,OFF,OFF,1.0",
        "4.987,0.514,2.560,OFF,OFF,OFF,CV",
        "4.987,0.514,2.560,OFF,OFF,off,1",
        "4.987,0.514,2.560,OFF,2,OFF,1",
        "4.987,0.514,2.560,,OFF,OFF,1",
        "4.987,0.514,x,OFF,OFF,OFF,1",
        "4.987,,2.560,OFF,OFF,OFF,1",
        "volt,0.514,2.560,OFF,OFF,OFF,1",
    ] {
        assert!(
            matches!(MeasureAllInfo {}.parse_line(bad), Err(Error::UnexpectedData)),
            "{:?}",
            bad
        );
    }
}

#[test]
fn mode_tokens() {
    assert_eq!(parse_mode("0"), Some(Mode::Standby));
    assert_eq!(parse_mode("+1"), Some(Mode::ConstantVoltage));
    assert_eq!(parse_mode("002"), Some(Mode::ConstantCurrent));
    assert_eq!(parse_mode("3"), Some(Mode::Failed));
    assert_eq!(parse_mode("-0"), Some(Mode::Standby));
    assert_eq!(parse_mode("+000"), Some(Mode::Standby));
    for bad in ["", "+", "-", "4", "-1", "-3", "10", "30", "1 ", " 1", "1.0", "0x1", "99999999999999999999999", "４"] {
        assert_eq!(parse_mode(bad), None, "{:?}", bad);
    }
    for token in ["0", "+1", "002", "3", "-0", "", "+", "4", "-1", "10", "1 ", "99999999999999999999999"] {
        let by_std = token.parse::<i32>().ok().and_then(|code| match code {
            0 => Some(Mode::Standby),
            1 => Some(Mode::ConstantVoltage),
            2 => Some(Mode::ConstantCurrent),
            3 => Some(Mode::Failed),
            _ => None,
        });
        assert_eq!(parse_mode(token), by_std, "{:?}", token);
    }
}

#[test]
fn mode_names() {
    assert_eq!(Mode::Standby.name(), "Standby");
    assert_eq!(Mode::ConstantVoltage.name(), "Constant Voltage");
    assert_eq!(Mode::ConstantCurrent.name(), "Constant Current");
    assert_eq!(Mode::Failed.name(), "Failed");
}

#[test]
fn pop_takes_fields_in_order() {
    let mut parts = Fields::new("1.5,ON,x,");
    assert_eq!(float(&pop_number(&mut parts).unwrap()), 1.5);
    assert_eq!(pop_bool(&mut parts).unwrap(), true);
    assert!(matches!(pop_bool(&mut parts), Err(Error::UnexpectedData)));
    assert!(matches!(pop_number(&mut parts), Err(Error::UnexpectedData)));
    assert!(matches!(pop_number(&mut parts), Err(Error::UnexpectedData)));
    assert!(matches!(pop_bool(&mut parts), Err(Error::UnexpectedData)));
}

#[test]
fn fields_of_a_line() {
    let mut parts = Fields::new("a,,b c,");
    assert_eq!(parts.next_field(), Some("a"));
    assert_eq!(parts.next_field(), Some(""));
    assert_eq!(parts.next_field(), Some("b c"));
    assert_eq!(parts.next_field(), Some(""));
    assert_eq!(parts.next_field(), None);
    assert_eq!(parts.next_field(), None);
    let mut empty = Fields::new("");
    assert_eq!(empty.next_field(), Some(""));
    assert_eq!(empty.next_field(), None);
    let mut wide = Fields::new("é,ü");
    assert_eq!(wide.next_field(), Some("é"));
    assert_eq!(wide.next_field(), Some("ü"));
    assert_eq!(wide.next_field(), None);
}

#[test]
fn command_vocabulary() {
    assert_eq!(Idn {}.command(), "*IDN?");
    assert_eq!(Reset {}.command(), "*RST");
    assert_eq!(EnableOutput {}.command(), "OUTP ON");
    assert_eq!(DisableOutput {}.command(), "OUTP OFF");
    assert_eq!(Output {}.command(), "OUTP?");
    assert_eq!(SetVolt { value: number("1.5") }.command(), "VOLT 1.5");
    assert_eq!(Volt {}.command(), "VOLT?");
    assert_eq!(SetVoltLimit { value: number("30") }.command(), "VOLT:LIMIT 30");
    assert_eq!(VoltLimit {}.command(), "VOLT:LIM?");
    assert_eq!(SetCurrent { value: number("0.25") }.command(), "CURR 0.25");
    assert_eq!(Current {}.command(), "CURR?");
    assert_eq!(SetCurrentLimit { value: number("5") }.command(), "CURR:LIMIT 5");
    assert_eq!(CurrentLimit {}.command(), "CURR:LIM?");
    assert_eq!(owon_spe::operations::measure::Volt {}.command(), "MEAS:VOLT?");
    assert_eq!(owon_spe::operations::measure::Current {}.command(), "MEAS:Current?");
    assert_eq!(Power {}.command(), "MEAS:Power?");
    assert_eq!(MeasureAll {}.command(), "MEAS:ALL?");
    assert_eq!(MeasureAllInfo {}.command(), "MEAS:ALL:INFO?");
}

#[test]
fn which_commands_have_a_reply() {
    assert!(Idn {}.has_output());
    assert!(Output {}.has_output());
    assert!(Volt {}.has_output());
    assert!(VoltLimit {}.has_output());
    assert!(Current {}.has_output());
    assert!(CurrentLimit {}.has_output());
    assert!(Power {}.has_output());
    assert!(MeasureAll {}.has_output());
    assert!(MeasureAllInfo {}.has_output());
    assert!(!Reset {}.has_output());
    assert!(!EnableOutput {}.has_output());
    assert!(!DisableOutput {}.has_output());
    assert!(!SetVolt { value: number("1") }.has_output());
    assert!(!SetVoltLimit { value: number("1") }.has_output());
    assert!(!SetCurrent { value: number("1") }.has_output());
    assert!(!SetCurrentLimit { value: number("1") }.has_output());
}

#[test]
fn decoding_twice_gives_the_same() {
    for line in ["1.000,2.000", "1.000", "", "x,y"] {
        let first = MeasureAll {}.parse_line(line);
        let second = MeasureAll {}.parse_line(line);
        match (first, second) {
            (Ok(a), Ok(b)) => assert_eq!(a, b),
            (Err(Error::UnexpectedData), Err(Error::UnexpectedData)) => (),
            (a, b) => panic!("{:?} and {:?} for {:?}", a, b, line),
        }
    }
}
