use redpitaya_scpi::driver::Device;
use redpitaya_scpi::protocol::encode;
use redpitaya_scpi::router::process;

#[test]
fn digital_reset_answers_nothing() {
    let mut d = Device::open().unwrap();
    assert_eq!(process(&mut d, "DIG:PIN LED3 1\r\n"), Ok(None));
    assert_eq!(process(&mut d, "DIG:PIN? LED3\r\n"), Ok(Some("1".to_string())));
    let r = process(&mut d, "DIG:RST\r\n");
    assert_eq!(r, Ok(None));
    assert_eq!(encode(&r), None);
    assert_eq!(process(&mut d, "DIG:PIN? LED3\r\n"), Ok(Some("0".to_string())));
    assert_eq!(process(&mut d, "DIG:RST ignored\r\n"), Ok(None));
}
