use redpitaya_scpi::driver::Device;
use redpitaya_scpi::protocol::encode;
use redpitaya_scpi::router::process;

#[test]
fn interleaved_sessions_get_their_own_replies() {
    let mut d = Device::open().unwrap();
    let first = ["DIG:PIN DIO5_P 1\r\n", "DIG:PIN? DIO5_P\r\n", "DIG:PIN:DIR? DIO5_P\r\n"];
    let second = ["DIG:PIN:DIR DIO6_N OUT\r\n", "NOPE\r\n", "DIG:PIN:DIR? DIO6_N\r\n"];
    let mut got_first = Vec::new();
    let mut got_second = Vec::new();
    for i in 0..3 {
        got_first.push(encode(&process(&mut d, first[i])));
        got_second.push(encode(&process(&mut d, second[i])));
    }
    assert_eq!(got_first, vec![None, Some("1".to_string()), Some("IN".to_string())]);
    assert_eq!(got_second, vec![None, Some("ERR!".to_string()), Some("OUT".to_string())]);
}
