use ohrest::capture::{CaptureAction, CaptureEvent, CaptureSession, FilterConfig};
use ohrest::filtering::{check_arp_operation, check_ips, check_ports, NetworkLayer};
use ohrest::layers::{check_all_layers, classify, check_application_layer, packet_accepted, Layer, UpperProtocol};
use ohrest::protocols::{arp, ethernet, ipv4, ipv6, tcp, udp, Protocol};
use ohrest::Parameters;

fn ethernet_header(ethertype: u16) -> Vec<u8> {
    let mut f = vec![0xde, 0xad, 0xbe, 0xef, 0x00, 0x01, 0x02, 0x42, 0xac, 0x11, 0x00, 0x02];
    f.extend_from_slice(&ethertype.to_be_bytes());
    f
}

fn tcp_segment(source: u16, dest: u16, payload: &[u8]) -> Vec<u8> {
    let mut s = Vec::new();
    s.extend_from_slice(&source.to_be_bytes());
    s.extend_from_slice(&dest.to_be_bytes());
    s.extend_from_slice(&[0, 0, 0, 1, 0, 0, 0, 0, 0x50, 0x18, 0xff, 0xff, 0, 0, 0, 0]);
    s.extend_from_slice(payload);
    s
}

fn udp_datagram(source: u16, dest: u16, payload: &[u8]) -> Vec<u8> {
    let mut s = Vec::new();
    s.extend_from_slice(&source.to_be_bytes());
    s.extend_from_slice(&dest.to_be_bytes());
    s.extend_from_slice(&((8 + payload.len()) as u16).to_be_bytes());
    s.extend_from_slice(&[0, 0]);
    s.extend_from_slice(payload);
    s
}

fn ipv4_packet(protocol: u8, source: [u8; 4], dest: [u8; 4], payload: &[u8]) -> Vec<u8> {
    let mut p = vec![0x45, 0x00];
    p.extend_from_slice(&((20 + payload.len()) as u16).to_be_bytes());
    p.extend_from_slice(&[0, 0, 0x40, 0, 64, protocol, 0, 0]);
    p.extend_from_slice(&source);
    p.extend_from_slice(&dest);
    p.extend_from_slice(payload);
    p
}

fn ipv6_packet(next: u8, source: [u8; 16], dest: [u8; 16], payload: &[u8]) -> Vec<u8> {
    let mut p = vec![0x60, 0, 0, 0];
    p.extend_from_slice(&(payload.len() as u16).to_be_bytes());
    p.extend_from_slice(&[next, 64]);
    p.extend_from_slice(&source);
    p.extend_from_slice(&dest);
    p.extend_from_slice(payload);
    p
}

fn arp_packet(operation: u16) -> Vec<u8> {
    let mut p = vec![0x00, 0x01, 0x08, 0x00, 0x06, 0x04];
    p.extend_from_slice(&operation.to_be_bytes());
    p.extend_from_slice(&[0x26, 0x57, 0x8e, 0xd6, 0x4a, 0x7a, 192, 168, 1, 1]);
    p.extend_from_slice(&[0, 0, 0, 0, 0, 0, 192, 168, 1, 2]);
    p
}

fn frame(ethertype: u16, payload: &[u8]) -> Vec<u8> {
    let mut f = ethernet_header(ethertype);
    f.extend_from_slice(payload);
    f
}

fn ipv4_tcp_frame() -> Vec<u8> {
    let seg = tcp_segment(80, 12345, b"hello");
    frame(0x0800, &ipv4_packet(6, [192, 168, 1, 10], [10, 0, 0, 1], &seg))
}

const FE80_1: [u8; 16] = [0xfe, 0x80, 0, 0, 0, 0, 0, 0, 0, 0, 0, 0, 0, 0, 0, 1];
const DB8_2: [u8; 16] = [0x20, 0x01, 0x0d, 0xb8, 0, 0, 0, 0, 0, 0, 0, 0, 0, 0, 0, 2];

fn ipv6_udp_frame() -> Vec<u8> {
    let dgram = udp_datagram(5353, 53, &[1, 2, 3, 4]);
    frame(0x86dd, &ipv6_packet(17, FE80_1, DB8_2, &dgram))
}

fn protocols_of(chain: &[Layer]) -> Vec<Protocol> {
    chain.iter().map(|l| l.protocol).collect()
}

fn strings(v: &[&str]) -> Vec<String> {
    v.iter().map(|s| s.to_string()).collect()
}

#[test]
fn short_frames_give_an_empty_chain() {
    for len in 0..14 {
        let f = vec![0u8; len];
        assert!(classify(&f, &vec![], &vec![]).is_empty(), "length {}", len);
        assert!(check_all_layers(&f, &vec![], &vec![], &vec![]).is_none());
    }
}

#[test]
fn other_ethertype_gives_one_layer() {
    let f = frame(0x0806, &arp_packet(1));
    let chain = classify(&f, &vec![], &vec![]);
    assert_eq!(protocols_of(&chain), vec![Protocol::ETHERNET]);
    assert_eq!(chain[0].data, f);
    let bare = ethernet_header(0x88cc);
    assert_eq!(classify(&bare, &vec![], &vec![]).len(), 1);
}

#[test]
fn ipv4_tcp_frame_gives_three_layers() {
    let f = ipv4_tcp_frame();
    let chain = classify(&f, &vec![], &vec![]);
    assert_eq!(protocols_of(&chain), vec![Protocol::ETHERNET, Protocol::IPv4, Protocol::TCP]);
    assert_eq!(chain[0].data, f);
    assert_eq!(chain[1].data, f[14..].to_vec());
    assert_eq!(chain[2].data, f[34..].to_vec());
}

#[test]
fn port_filter_on_ipv4_tcp_frame() {
    let f = ipv4_tcp_frame();
    assert!(check_all_layers(&f, &vec![], &vec![], &vec![80]).is_some());
    assert!(check_all_layers(&f, &vec![], &vec![], &vec![12345]).is_some());
    assert!(check_all_layers(&f, &vec![], &vec![], &vec![443]).is_none());
    assert!(check_all_layers(&f, &vec![], &vec![], &vec![]).is_some());
    let rejected = classify(&f, &vec![], &vec![443]);
    assert_eq!(protocols_of(&rejected), vec![Protocol::ETHERNET, Protocol::IPv4]);
}

#[test]
fn ip_filter_on_ipv6_udp_frame() {
    let f = ipv6_udp_frame();
    let chain = check_all_layers(&f, &vec![], &strings(&["fe80::1"]), &vec![]).expect("accepted");
    assert_eq!(protocols_of(&chain), vec![Protocol::ETHERNET, Protocol::IPv6, Protocol::UDP]);
    assert!(check_all_layers(&f, &vec![], &strings(&["2001:db8::2"]), &vec![]).is_some());
    assert!(check_all_layers(&f, &vec![], &strings(&["2001:db8::99", "10.0.0.1"]), &vec![]).is_none());
    let rejected = classify(&f, &strings(&["2001:db8::99"]), &vec![]);
    assert_eq!(protocols_of(&rejected), vec![Protocol::ETHERNET]);
}

#[test]
fn ip_filter_on_ipv4_uses_dotted_decimal() {
    let f = ipv4_tcp_frame();
    assert!(check_all_layers(&f, &vec![], &strings(&["10.0.0.1"]), &vec![]).is_some());
    assert!(check_all_layers(&f, &vec![], &strings(&["192.168.1.10"]), &vec![80]).is_some());
    assert!(check_all_layers(&f, &vec![], &strings(&["192.168.1.1"]), &vec![]).is_none());
}

#[test]
fn empty_protocol_filter_accepts_every_classified_chain() {
    for f in [ipv4_tcp_frame(), ipv6_udp_frame(), frame(0x0806, &arp_packet(2)), ethernet_header(0x1234)] {
        assert!(check_all_layers(&f, &vec![], &vec![], &vec![]).is_some());
    }
}

#[test]
fn protocol_filter_needs_one_listed_layer() {
    let f = ipv4_tcp_frame();
    assert!(check_all_layers(&f, &vec![Protocol::TCP], &vec![], &vec![]).is_some());
    assert!(check_all_layers(&f, &vec![Protocol::UDP, Protocol::IPv4], &vec![], &vec![]).is_some());
    assert!(check_all_layers(&f, &vec![Protocol::UDP, Protocol::IPv6], &vec![], &vec![]).is_none());
}

#[test]
fn ip_filter_without_network_layer_rejects() {
    let f = frame(0x0806, &arp_packet(1));
    assert!(check_all_layers(&f, &vec![], &strings(&["192.168.1.1"]), &vec![]).is_none());
    let short_ip = frame(0x0800, &[0x45, 0, 0, 20]);
    assert_eq!(classify(&short_ip, &vec![], &vec![]).len(), 1);
    assert!(check_all_layers(&short_ip, &vec![], &strings(&["10.0.0.1"]), &vec![]).is_none());
}

#[test]
fn port_filter_without_transport_layer_rejects() {
    let icmp = frame(0x0800, &ipv4_packet(1, [1, 2, 3, 4], [5, 6, 7, 8], &[8, 0, 0, 0]));
    assert_eq!(classify(&icmp, &vec![], &vec![]).len(), 2);
    assert!(check_all_layers(&icmp, &vec![], &vec![], &vec![]).is_some());
    assert!(check_all_layers(&icmp, &vec![], &vec![], &vec![80]).is_none());
}

#[test]
fn version_mismatch_ends_chain_at_link_layer() {
    let mut inner = ipv4_packet(6, [1, 2, 3, 4], [5, 6, 7, 8], &tcp_segment(1, 2, &[]));
    inner[0] = 0x65;
    let f = frame(0x0800, &inner);
    assert_eq!(protocols_of(&classify(&f, &vec![], &vec![])), vec![Protocol::ETHERNET]);
    let v4_in_v6 = frame(0x86dd, &ipv4_packet(17, [1, 2, 3, 4], [5, 6, 7, 8], &[0; 40]));
    assert_eq!(classify(&v4_in_v6, &vec![], &vec![]).len(), 1);
}

#[test]
fn arp_operation_filter() {
    let p = arp_packet(1);
    assert!(arp::check_and_get_next_layer(&p, Parameters::ArpOperation(Some(1))).is_some());
    assert!(arp::check_and_get_next_layer(&p, Parameters::ArpOperation(Some(2))).is_none());
    assert!(arp::check_and_get_next_layer(&p, Parameters::ArpOperation(None)).is_some());
    assert!(arp::check_and_get_next_layer(&p, Parameters::NoParameter).is_some());
    assert!(arp::check_and_get_next_layer(&p[..27], Parameters::NoParameter).is_none());
    assert!(check_arp_operation(1, Parameters::ArpOperation(Some(1))));
    assert!(!check_arp_operation(1, Parameters::ArpOperation(Some(2))));
}

#[test]
fn ethernet_decoder_reads_ethertype_and_payload() {
    let f = frame(0x86dd, &[9, 8, 7]);
    match ethernet::check_and_get_next_layer(&f) {
        Some((UpperProtocol::Layer1(t), rest)) => {
            assert_eq!(t, 0x86dd);
            assert_eq!(rest, vec![9, 8, 7]);
        }
        other => panic!("unexpected {:?}", other),
    }
    assert!(ethernet::check_and_get_next_layer(&f[..13]).is_none());
}

#[test]
fn ipv4_payload_stops_at_total_length() {
    let mut p = ipv4_packet(17, [1, 2, 3, 4], [5, 6, 7, 8], &[1, 2, 3, 4]);
    p.extend_from_slice(&[0xee, 0xee]);
    match ipv4::check_and_get_next_layer(&p, Parameters::NoParameter) {
        Some((UpperProtocol::Layer2(n), rest)) => {
            assert_eq!(n, 17);
            assert_eq!(rest, vec![1, 2, 3, 4]);
        }
        other => panic!("unexpected {:?}", other),
    }
    assert!(ipv4::check_and_get_next_layer(&p[..19], Parameters::NoParameter).is_none());
    assert!(ipv4::check_and_get_next_layer(&p, Parameters::IpAddress(strings(&["1.2.3.4"]))).is_some());
    assert!(ipv4::check_and_get_next_layer(&p, Parameters::IpAddress(strings(&["1.2.3.5"]))).is_none());
}

#[test]
fn ipv6_payload_stops_at_payload_length() {
    let mut p = ipv6_packet(6, FE80_1, DB8_2, &[1, 2, 3]);
    p.push(0xee);
    match ipv6::check_and_get_next_layer(&p, Parameters::NoParameter) {
        Some((UpperProtocol::Layer2(n), rest)) => {
            assert_eq!(n, 6);
            assert_eq!(rest, vec![1, 2, 3]);
        }
        other => panic!("unexpected {:?}", other),
    }
    assert!(ipv6::check_and_get_next_layer(&p[..39], Parameters::NoParameter).is_none());
}

#[test]
fn tcp_payload_follows_options() {
    let mut seg = tcp_segment(1000, 2000, &[]);
    seg[12] = 0x60;
    seg.extend_from_slice(&[1, 1, 1, 1, 0xaa, 0xbb]);
    match tcp::check_and_get_next_layer(&seg, Parameters::Port(vec![2000])) {
        Some((UpperProtocol::Layer3(dest, source), rest)) => {
            assert_eq!((dest, source), (2000, 1000));
            assert_eq!(rest, vec![0xaa, 0xbb]);
        }
        other => panic!("unexpected {:?}", other),
    }
    assert!(tcp::check_and_get_next_layer(&seg, Parameters::Port(vec![3000])).is_none());
    assert!(tcp::check_and_get_next_layer(&seg[..19], Parameters::NoParameter).is_none());
}

#[test]
fn udp_decoder_reads_ports_and_payload() {
    let d = udp_datagram(5353, 53, &[7, 7]);
    match udp::check_and_get_next_layer(&d, Parameters::Port(vec![])) {
        Some((UpperProtocol::Layer3(dest, source), rest)) => {
            assert_eq!((dest, source), (53, 5353));
            assert_eq!(rest, vec![7, 7]);
        }
        other => panic!("unexpected {:?}", other),
    }
    assert!(udp::check_and_get_next_layer(&d[..7], Parameters::NoParameter).is_none());
}

#[test]
fn port_and_ip_checks() {
    assert!(check_ports(80, 12345, Parameters::Port(vec![80])));
    assert!(check_ports(80, 12345, Parameters::Port(vec![12345])));
    assert!(!check_ports(80, 12345, Parameters::Port(vec![443])));
    assert!(check_ports(80, 12345, Parameters::Port(vec![])));
    assert!(check_ports(80, 12345, Parameters::NoParameter));
    let header = ipv4::Ipv4Header {
        version: 4,
        next_level_protocol: 6,
        source: "1.1.1.1".to_string(),
        destination: "2.2.2.2".to_string(),
        payload: vec![],
    };
    assert_eq!(header.get_source_dest(), ("1.1.1.1".to_string(), "2.2.2.2".to_string()));
    assert!(check_ips(&header, Parameters::IpAddress(strings(&["2.2.2.2"]))));
    assert!(!check_ips(&header, Parameters::IpAddress(strings(&["3.3.3.3"]))));
    assert!(check_ips(&header, Parameters::IpAddress(vec![])));
    assert!(check_ips(&header, Parameters::NoParameter));
}

#[test]
fn application_layer_is_never_recognised() {
    assert!(check_application_layer(vec![1, 2, 3], UpperProtocol::Layer3(80, 1234)).is_none());
    let chain = classify(&ipv4_tcp_frame(), &vec![], &vec![]);
    assert!(chain.len() <= 3);
    assert!(packet_accepted(&chain, &vec![], &vec![], &vec![]));
    assert!(!packet_accepted(&vec![], &vec![], &vec![], &vec![]));
}

#[test]
fn workers_keep_independent_counters() {
    let config = FilterConfig { protocols: vec![], ips: vec![], ports: vec![] };
    let mut a = CaptureSession::new("eth0".to_string());
    let mut b = CaptureSession::new("wlan0".to_string());
    assert_eq!((a.packet_counter, b.packet_counter), (0, 0));
    match a.handle(CaptureEvent::Frame(ipv4_tcp_frame()), &config) {
        CaptureAction::Report { packet_id, interface, chain } => {
            assert_eq!(packet_id, 0);
            assert_eq!(interface, "eth0");
            assert_eq!(chain.len(), 3);
        }
        _ => panic!("expected a report"),
    }
    assert!(matches!(a.handle(CaptureEvent::ReadError, &config), CaptureAction::ReportReadError { .. }));
    match b.handle(CaptureEvent::Frame(ipv6_udp_frame()), &config) {
        CaptureAction::Report { packet_id, interface, .. } => {
            assert_eq!(packet_id, 0);
            assert_eq!(interface, "wlan0");
        }
        _ => panic!("expected a report"),
    }
    assert!(matches!(a.handle(CaptureEvent::Frame(vec![1, 2]), &config), CaptureAction::Skip));
    assert_eq!((a.packet_counter, b.packet_counter), (3, 1));
}

#[test]
fn consider_parameters_selection() {
    let ifaces = strings(&["lo", "eth0", "wlan0"]);
    let (w, ports, ips, prots) = consider_parameters_all(ifaces.clone(), vec![Parameters::Interface(strings(&["nope"]))]);
    assert_eq!(w, ifaces);
    assert!(ports.is_empty() && ips.is_empty() && prots.is_empty());
    let (w, ports, _, prots) = consider_parameters_all(
        ifaces.clone(),
        vec![
            Parameters::Port(vec![1]),
            Parameters::Interface(strings(&["wlan0", "lo"])),
            Parameters::Port(vec![2, 3]),
            Parameters::Protocol(vec![Protocol::UDP]),
            Parameters::NoParameter,
        ],
    );
    assert_eq!(w, strings(&["lo", "wlan0"]));
    assert_eq!(ports, vec![2, 3]);
    assert_eq!(prots, vec![Protocol::UDP]);
}

fn consider_parameters_all(
    interfaces: Vec<String>,
    params: Vec<Parameters>,
) -> (Vec<String>, Vec<u16>, Vec<String>, Vec<Protocol>) {
    ohrest::protocols::consider_parameters(interfaces, params)
}
