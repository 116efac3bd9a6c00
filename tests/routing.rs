use redpitaya_scpi::digital::{accept, parse_direction, parse_level, Command as DigitalCommand};
use redpitaya_scpi::ieee::{accept as ieee_accept, Command as IeeeCommand};
use redpitaya_scpi::driver::{pin_name, Device, Direction, State};
use redpitaya_scpi::protocol::{encode, split_tokens};
use redpitaya_scpi::router::{process, route, Command};

fn open() -> Device {
    Device::open().unwrap()
}

#[test]
fn tokens_split_on_runs_of_white_space() {
    let t = split_tokens("  DIG:PIN\tDIO0_P   1\r\n");
    assert_eq!(t, vec!["DIG:PIN".to_string(), "DIO0_P".to_string(), "1".to_string()]);
    assert!(split_tokens("\r\n").is_empty());
    assert!(split_tokens("").is_empty());
    assert_eq!(split_tokens("DIG:RST\n"), vec!["DIG:RST".to_string()]);
}

#[test]
fn registered_names_route_to_digital() {
    let names = [
        ("DIG:RST", DigitalCommand::Reset),
        ("DIG:PIN", DigitalCommand::PinState),
        ("DIG:PIN?", DigitalCommand::PinStateQuery),
        ("DIG:PIN:DIR", DigitalCommand::PinDirection),
        ("DIG:PIN:DIR?", DigitalCommand::PinDirectionQuery),
    ];
    for (name, expected) in names {
        assert!(accept(name));
        let (c, args) = route(&format!("{} DIO0_P 1\r\n", name));
        assert!(matches!(c, Command::Digital(d) if d == expected));
        assert_eq!(args, vec!["DIO0_P".to_string(), "1".to_string()]);
    }
}

#[test]
fn unregistered_names_route_to_an_error_naming_them() {
    for name in ["FOO:BAR", "dig:pin", "DIG:PIN??", "*CLS", "*idn?"] {
        assert!(!accept(name));
        assert!(!ieee_accept(name));
        let (c, args) = route(&format!("{} 1 2\r\n", name));
        match c {
            Command::Error(m) => {
                assert!(m.contains(name));
                assert_eq!(m, format!("Unknown command {}", name));
            }
            _ => panic!("routed to a family"),
        }
        assert_eq!(args.len(), 2);
    }
}

#[test]
fn identification_names_route_to_ieee() {
    for (name, expected) in [("*IDN?", IeeeCommand::Identify), ("*RST", IeeeCommand::Reset)] {
        assert!(ieee_accept(name));
        assert!(!accept(name));
        let (c, args) = route(&format!("{}\r\n", name));
        assert!(matches!(c, Command::Ieee(i) if i == expected));
        assert!(args.is_empty());
    }
    assert_eq!(IeeeCommand::from("*IDN?".to_string()), IeeeCommand::Identify);
    assert_eq!(IeeeCommand::from("DIG:RST".to_string()), IeeeCommand::Unknown);
}

#[test]
fn identification_query_answers_the_version() {
    let mut d = open();
    let r = process(&mut d, "*IDN?\r\n");
    assert_eq!(r, Ok(Some(redpitaya::version())));
    assert!(!r.unwrap().unwrap().is_empty());
    let u = redpitaya_scpi::ieee::execute(&mut d, IeeeCommand::Unknown, vec![]);
    assert_eq!(u, Err("Unknown command".to_string()));
}

#[test]
fn command_from_name() {
    assert_eq!(DigitalCommand::from("DIG:RST".to_string()), DigitalCommand::Reset);
    assert_eq!(DigitalCommand::from("DIG:PIN:DIR?".to_string()), DigitalCommand::PinDirectionQuery);
    assert_eq!(DigitalCommand::from("DIG:PINS".to_string()), DigitalCommand::Unknown);
}

#[test]
fn level_arguments() {
    assert_eq!(parse_level("0"), Some(State::Low));
    assert_eq!(parse_level("1"), Some(State::High));
    assert_eq!(parse_level("+1"), Some(State::High));
    assert_eq!(parse_level("001"), Some(State::High));
    assert_eq!(parse_level("0000"), Some(State::Low));
    assert_eq!(parse_level("2"), None);
    assert_eq!(parse_level("10"), None);
    assert_eq!(parse_level("256"), None);
    assert_eq!(parse_level(""), None);
    assert_eq!(parse_level("+"), None);
    assert_eq!(parse_level("-0"), None);
    assert_eq!(parse_level("HIGH"), None);
    assert_eq!(parse_level("1x"), None);
}

#[test]
fn direction_arguments() {
    assert_eq!(parse_direction("IN"), Some(Direction::In));
    assert_eq!(parse_direction("OUT"), Some(Direction::Out));
    assert_eq!(parse_direction("in"), None);
    assert_eq!(parse_direction("BOGUS"), None);
    assert_eq!(parse_direction(""), None);
}

#[test]
fn pin_names() {
    for name in ["LED0", "LED7", "DIO0_P", "DIO7_P", "DIO0_N", "DIO7_N"] {
        assert!(pin_name(name));
    }
    for name in ["LED8", "LED", "DIO8_P", "DIO0_X", "dio0_p", "DIO0P", "AIN0", ""] {
        assert!(!pin_name(name));
    }
}

#[test]
fn state_setter_with_too_few_arguments_fails() {
    let mut d = open();
    for line in ["DIG:PIN\r\n", "DIG:PIN DIO3_P\r\n"] {
        let r = process(&mut d, line);
        assert_eq!(r, Err("Missing parameter".to_string()));
        assert_eq!(encode(&r), Some("ERR!".to_string()));
    }
}

#[test]
fn queries_without_a_pin_fail() {
    let mut d = open();
    assert_eq!(process(&mut d, "DIG:PIN?\r\n"), Err("Missing parameter".to_string()));
    assert_eq!(process(&mut d, "DIG:PIN:DIR?\n"), Err("Missing parameter".to_string()));
    assert_eq!(process(&mut d, "DIG:PIN:DIR DIO0_P\n"), Err("Missing parameter".to_string()));
}

#[test]
fn unmapped_direction_token_fails() {
    let mut d = open();
    let r = process(&mut d, "DIG:PIN:DIR DIO4_P BOGUS\r\n");
    assert_eq!(r, Err("Invalid direction".to_string()));
    assert_eq!(encode(&r), Some("ERR!".to_string()));
}

#[test]
fn invalid_pin_and_level_fail() {
    let mut d = open();
    assert_eq!(process(&mut d, "DIG:PIN? NOPE\r\n"), Err("Invalid pin".to_string()));
    assert_eq!(process(&mut d, "DIG:PIN NOPE 1\r\n"), Err("Invalid pin".to_string()));
    assert_eq!(process(&mut d, "DIG:PIN DIO0_P 7\r\n"), Err("Invalid state".to_string()));
    assert_eq!(process(&mut d, "DIG:PIN DIO0_P one\r\n"), Err("Invalid state".to_string()));
    assert_eq!(process(&mut d, "DIG:PIN:DIR? LED9\r\n"), Err("Invalid pin".to_string()));
}

#[test]
fn empty_lines_fail() {
    let mut d = open();
    for line in ["\r\n", "\n", "", "   \t\r\n"] {
        let r = process(&mut d, line);
        assert_eq!(r, Err("Empty command".to_string()));
        assert_eq!(encode(&r), Some("ERR!".to_string()));
    }
    assert_eq!(process(&mut d, "FOO\r\n"), Err("Unknown command FOO".to_string()));
}

#[test]
fn unknown_digital_command_fails() {
    let mut d = open();
    let r = redpitaya_scpi::digital::execute(&mut d, DigitalCommand::Unknown, vec![]);
    assert_eq!(r, Err("Unknown command".to_string()));
}

#[test]
fn responses_encode_to_lines() {
    assert_eq!(encode(&Ok(None)), None);
    assert_eq!(encode(&Ok(Some("1".to_string()))), Some("1".to_string()));
    assert_eq!(encode(&Err("Invalid pin".to_string())), Some("ERR!".to_string()));
}
