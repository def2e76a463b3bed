use sniffer::parser::Parsed;
use sniffer::parser::wrapers::{Ipv4Address, Ipv6Address, MacAddress};
use sniffer::text::{dec_string, hex_string, ipv4_string, ipv6_string, mac_string};

fn eth_frame(dest: [u8; 6], src: [u8; 6], ethertype: u16, payload: &[u8]) -> Vec<u8> {
    let mut frame: Vec<u8> = Vec::new();
    frame.extend_from_slice(&dest);
    frame.extend_from_slice(&src);
    frame.push((ethertype >> 8) as u8);
    frame.push((ethertype & 0xff) as u8);
    frame.extend_from_slice(payload);
    frame
}

fn ipv4_header(source: [u8; 4], dest: [u8; 4], protocol: u8, total_len: u16) -> Vec<u8> {
    let mut h: Vec<u8> = vec![
        0x45, 0x00, (total_len >> 8) as u8, (total_len & 0xff) as u8, 0x00, 0x00, 0x40, 0x00,
        0x40, protocol, 0x00, 0x00,
    ];
    h.extend_from_slice(&source);
    h.extend_from_slice(&dest);
    h
}

fn columns(p: Parsed) -> Vec<String> {
    p.to_list_item().elements
}

#[test]
fn dec_string_formats_exact_values() {
    assert_eq!(dec_string(0), "0");
    assert_eq!(dec_string(7), "7");
    assert_eq!(dec_string(10), "10");
    assert_eq!(dec_string(305), "305");
    assert_eq!(dec_string(65535), "65535");
}

#[test]
fn hex_string_formats_exact_values() {
    assert_eq!(hex_string(0), "0");
    assert_eq!(hex_string(0x0a), "a");
    assert_eq!(hex_string(0x1f), "1f");
    assert_eq!(hex_string(0xfe80), "fe80");
}

#[test]
fn address_strings_format_exact_values() {
    assert_eq!(mac_string(&MacAddress(0x00, 0x1b, 0x44, 0x11, 0x3a, 0xb7)), "00:1b:44:11:3a:b7");
    assert_eq!(ipv4_string(&Ipv4Address(192, 168, 0, 1)), "192.168.0.1");
    assert_eq!(
        ipv6_string(&Ipv6Address(0xfe80, 0, 0, 0, 0, 0, 0, 1)),
        "fe80:0:0:0:0:0:0:1"
    );
}

#[test]
fn short_frame_summary_shows_placeholders_only() {
    let cols = columns(Parsed::parse(&vec![0u8; 5]));
    assert_eq!(cols, vec!["-", "- -> -", "-", "-"]);
}

#[test]
fn udp_frame_summary_shows_proto_addresses_and_size() {
    let mut payload = ipv4_header([10, 0, 0, 1], [10, 0, 0, 2], 17, 28);
    payload.extend_from_slice(&[0x00, 0x35, 0x00, 0x50, 0x00, 0x08, 0x00, 0x00]);
    let frame = eth_frame([1; 6], [2; 6], 0x0800, &payload);
    let len = frame.len();
    let cols = columns(Parsed::parse(&frame));
    assert_eq!(cols[0], "UDP");
    assert_eq!(cols[1], "10.0.0.1 -> 10.0.0.2");
    assert_eq!(cols[2], format!("{}", len));
    assert_eq!(cols[3], "-");
}

#[test]
fn icmp_frame_summary_shows_type_detail() {
    let mut payload = ipv4_header([10, 0, 0, 1], [10, 0, 0, 2], 1, 28);
    payload.extend_from_slice(&[8, 0, 0x00, 0x00, 0x00, 0x01, 0x00, 0x07]);
    let frame = eth_frame([1; 6], [2; 6], 0x0800, &payload);
    let cols = columns(Parsed::parse(&frame));
    assert_eq!(cols[0], "ICMP");
    assert_eq!(cols[3], "IcmpType(8)");
}

#[test]
fn icmpv6_frame_summary_shows_type_detail() {
    let mut payload: Vec<u8> = vec![0x60, 0x00, 0x00, 0x00, 0x00, 0x04, 58, 0xff];
    payload.extend_from_slice(&[0u8; 32]);
    payload.extend_from_slice(&[135, 0, 0x00, 0x00]);
    let frame = eth_frame([1; 6], [2; 6], 0x86DD, &payload);
    let cols = columns(Parsed::parse(&frame));
    assert_eq!(cols[0], "ICMPv6");
    assert_eq!(cols[3], "Icmpv6Type(135)");
}

#[test]
fn ipv6_frame_summary_shows_group_addresses() {
    let mut payload: Vec<u8> = vec![0x60, 0x00, 0x00, 0x00, 0x00, 0x08, 17, 0x40];
    let source: [u8; 16] = [0xfe, 0x80, 0, 0, 0, 0, 0, 0, 0, 0, 0, 0, 0, 0, 0, 0x01];
    let dest: [u8; 16] = [0x20, 0x01, 0x0d, 0xb8, 0, 0, 0, 0, 0, 0, 0, 0, 0, 0, 0, 0x02];
    payload.extend_from_slice(&source);
    payload.extend_from_slice(&dest);
    payload.extend_from_slice(&[0x00, 0x35, 0x00, 0x35, 0x00, 0x08, 0x00, 0x00]);
    let frame = eth_frame([1; 6], [2; 6], 0x86DD, &payload);
    let cols = columns(Parsed::parse(&frame));
    assert_eq!(cols[0], "UDP");
    assert_eq!(cols[1], "fe80:0:0:0:0:0:0:1 -> 2001:db8:0:0:0:0:0:2");
}

#[test]
fn arp_frame_summary_shows_operation_and_macs() {
    let arp: [u8; 28] = [
        0x00, 0x01, 0x08, 0x00, 6, 4, 0x00, 0x01, 0x01, 0x02, 0x03, 0x04, 0x05, 0x06, 10, 0, 0,
        1, 0x00, 0x00, 0x00, 0x00, 0x00, 0x00, 10, 0, 0, 2,
    ];
    let frame = eth_frame(
        [0xff; 6],
        [0x0a, 0x1b, 0x2c, 0x3d, 0x4e, 0x5f],
        0x0806,
        &arp,
    );
    let cols = columns(Parsed::parse(&frame));
    assert_eq!(cols[0], "ARP");
    assert_eq!(cols[1], "0a:1b:2c:3d:4e:5f -> ff:ff:ff:ff:ff:ff");
    assert_eq!(cols[3], "ArpOperation(1)");
}

#[test]
fn unknown_ethertype_summary_shows_only_size() {
    let frame = eth_frame([1; 6], [2; 6], 0x88CC, &[0xde, 0xad]);
    let cols = columns(Parsed::parse(&frame));
    assert_eq!(cols, vec!["-", "- -> -", "16", "-"]);
}

#[test]
fn malformed_transport_leaves_proto_placeholder() {
    let mut payload = ipv4_header([10, 0, 0, 1], [10, 0, 0, 2], 6, 23);
    payload.extend_from_slice(&[1, 2, 3]);
    let frame = eth_frame([1; 6], [2; 6], 0x0800, &payload);
    let cols = columns(Parsed::parse(&frame));
    assert_eq!(cols[0], "-");
    assert_eq!(cols[1], "10.0.0.1 -> 10.0.0.2");
}
