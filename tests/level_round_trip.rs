use redpitaya_scpi::driver::Device;
use redpitaya_scpi::protocol::encode;
use redpitaya_scpi::router::process;

#[test]
fn pin_level_round_trip() {
    let mut d = Device::open().unwrap();
    assert_eq!(process(&mut d, "DIG:PIN DIO1_P 1\r\n"), Ok(None));
    let r = process(&mut d, "DIG:PIN? DIO1_P\r\n");
    assert_eq!(r, Ok(Some("1".to_string())));
    assert_eq!(encode(&r), Some("1".to_string()));
    assert_eq!(process(&mut d, "DIG:PIN DIO1_P 0\r\n"), Ok(None));
    assert_eq!(process(&mut d, "DIG:PIN? DIO1_P\r\n"), Ok(Some("0".to_string())));
    assert_eq!(process(&mut d, "DIG:PIN DIO1_P 1\r\n"), Ok(None));
    assert_eq!(process(&mut d, "DIG:PIN DIO1_P\r\n"), Err("Missing parameter".to_string()));
    assert_eq!(process(&mut d, "DIG:PIN? DIO1_P extra\r\n"), Ok(Some("1".to_string())));
}
