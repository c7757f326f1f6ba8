use ohrest::protocols::{consider_parameters, ipv4};
use ohrest::Parameters;

#[test]
fn test_consider_parameters() {
    let interfaces: Vec<String> = pnet::datalink::interfaces().into_iter().map(|i| i.name).collect();
    let params = vec![
        Parameters::Interface(vec!["lo".to_string()]),
        Parameters::Port(vec![80, 32, 1]),
        Parameters::IpAddress(vec!["127.0.0.1".to_string()]),
    ];
    let (w_ints, w_ports, w_ips, w_protocols) = consider_parameters(interfaces, params);

    assert_eq!(w_ints.len(), 1);
    assert_eq!(w_ports.len(), 3);
    assert_eq!(w_ips.len(), 1);
    assert_eq!(w_protocols.len(), 0);
}

#[test]
fn test_check_and_get_ipv4() {
    let packet = [
        0x45, 0x00, 0x00, 0x28, 0x00, 0x00, 0x40, 0x00, 0x40, 0x06, 0x3c, 0xce, 0x7f, 0x00, 0x00, 0x01, 0x19, 0xc8,
        0xc7, 0x66, 0x00, 0x00, 0x00, 0x00, 0x86, 0x07, 0x39, 0xff, 0x50, 0x14, 0x00, 0x00, 0x10, 0x99, 0x00, 0x00,
    ];

    ipv4::check_and_get_next_layer(&packet, Parameters::NoParameter);
}
