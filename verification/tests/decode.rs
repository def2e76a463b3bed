use sniffer::parser::parse_ethernet_frame;
use sniffer::parser::wrapers::{MacAddress, SerializablePacket};

fn eth_frame(dest: [u8; 6], src: [u8; 6], ethertype: u16, payload: &[u8]) -> Vec<u8> {
    let mut frame: Vec<u8> = Vec::new();
    frame.extend_from_slice(&dest);
    frame.extend_from_slice(&src);
    frame.push((ethertype >> 8) as u8);
    frame.push((ethertype & 0xff) as u8);
    frame.extend_from_slice(payload);
    frame
}

fn ipv4_header(source: [u8; 4], dest: [u8; 4], protocol: u8, total_len: u16) -> Vec<u8> {
    let mut h: Vec<u8> = vec![
        0x45, 0x00, (total_len >> 8) as u8, (total_len & 0xff) as u8, 0x00, 0x00, 0x40, 0x00,
        0x40, protocol, 0x00, 0x00,
    ];
    h.extend_from_slice(&source);
    h.extend_from_slice(&dest);
    h
}

#[test]
fn short_frame_has_all_slots_empty() {
    let frame: Vec<u8> = vec![0xaa; 13];
    let p = parse_ethernet_frame(&frame, 7);
    assert_eq!(p.get_id(), 7);
    assert!(p.get_link_layer_packet().is_none());
    assert!(p.get_network_layer_packet().is_none());
    assert!(p.get_transport_layer_packet().is_none());
    assert!(p.get_application_layer_packet().is_none());
}

#[test]
fn ipv4_tcp_frame_decodes_all_three_layers() {
    let mut payload = ipv4_header([10, 0, 0, 1], [10, 0, 0, 2], 6, 40);
    let tcp: [u8; 20] = [
        0x1f, 0x90, // source port 8080
        0x00, 0x50, // destination port 80
        0, 0, 0, 1, 0, 0, 0, 2, 0x50, 0x18, // data offset 5, flags ACK|PSH = 0x18
        0x00, 0xff, 0x00, 0x00, 0x00, 0x00,
    ];
    payload.extend_from_slice(&tcp);
    let frame = eth_frame([1, 2, 3, 4, 5, 6], [7, 8, 9, 10, 11, 12], 0x0800, &payload);
    let p = parse_ethernet_frame(&frame, 0);

    match p.get_link_layer_packet() {
        Some(SerializablePacket::EthernetPacket(e)) => {
            assert_eq!(e.destination, MacAddress(1, 2, 3, 4, 5, 6));
            assert_eq!(e.source, MacAddress(7, 8, 9, 10, 11, 12));
            assert_eq!(e.ethertype, 0x0800);
        }
        _ => panic!("expected an Ethernet link record"),
    }
    match p.get_network_layer_packet() {
        Some(SerializablePacket::Ipv4Packet(ip)) => {
            assert_eq!(
                (ip.source.0, ip.source.1, ip.source.2, ip.source.3),
                (10, 0, 0, 1)
            );
            assert_eq!(
                (ip.destination.0, ip.destination.1, ip.destination.2, ip.destination.3),
                (10, 0, 0, 2)
            );
            assert_eq!(ip.next_level_protocol, 6);
        }
        _ => panic!("expected an IPv4 network record"),
    }
    match p.get_transport_layer_packet() {
        Some(SerializablePacket::TcpPacket(t)) => {
            assert_eq!(t.source, 8080);
            assert_eq!(t.destination, 80);
            assert_eq!(t.flags, 0x18);
        }
        _ => panic!("expected a TCP transport record"),
    }
}

#[test]
fn truncated_ipv4_payload_gives_malformed_transport() {
    let mut payload = ipv4_header([10, 0, 0, 1], [10, 0, 0, 2], 6, 23);
    payload.extend_from_slice(&[0x01, 0x02, 0x03]);
    let frame = eth_frame([1, 2, 3, 4, 5, 6], [7, 8, 9, 10, 11, 12], 0x0800, &payload);
    let p = parse_ethernet_frame(&frame, 0);

    match p.get_network_layer_packet() {
        Some(SerializablePacket::Ipv4Packet(_)) => {}
        _ => panic!("expected a populated IPv4 network record"),
    }
    match p.get_transport_layer_packet() {
        Some(SerializablePacket::MalformedPacket(reason)) => {
            assert_eq!(reason, "Malformed TCP Packet");
        }
        _ => panic!("expected a malformed transport record"),
    }
}

#[test]
fn ipv4_udp_frame_records_ports_and_length() {
    let mut payload = ipv4_header([192, 168, 1, 1], [192, 168, 1, 2], 17, 28);
    let udp: [u8; 8] = [0x00, 0x35, 0xc0, 0x00, 0x00, 0x08, 0x00, 0x00];
    payload.extend_from_slice(&udp);
    let frame = eth_frame([1, 1, 1, 1, 1, 1], [2, 2, 2, 2, 2, 2], 0x0800, &payload);
    let p = parse_ethernet_frame(&frame, 0);
    match p.get_transport_layer_packet() {
        Some(SerializablePacket::UdpPacket(u)) => {
            assert_eq!(u.source, 53);
            assert_eq!(u.destination, 0xc000);
            assert_eq!(u.length, 8);
        }
        _ => panic!("expected a UDP transport record"),
    }
}

#[test]
fn too_short_ipv4_header_is_malformed_network() {
    let frame = eth_frame([1; 6], [2; 6], 0x0800, &[0x45, 0x00, 0x00]);
    let p = parse_ethernet_frame(&frame, 0);
    match p.get_network_layer_packet() {
        Some(SerializablePacket::MalformedPacket(reason)) => {
            assert_eq!(reason, "Malformed IPv4 Packet");
        }
        _ => panic!("expected a malformed network record"),
    }
    assert!(p.get_transport_layer_packet().is_none());
}

#[test]
fn arp_request_frame_decodes_operation_request() {
    let arp: [u8; 28] = [
        0x00, 0x01, // hardware type: Ethernet
        0x08, 0x00, // protocol type: IPv4
        6, 4, // address lengths
        0x00, 0x01, // operation: request
        0x01, 0x02, 0x03, 0x04, 0x05, 0x06, // sender hardware address
        10, 0, 0, 1, // sender protocol address
        0x00, 0x00, 0x00, 0x00, 0x00, 0x00, // target hardware address
        10, 0, 0, 2, // target protocol address
    ];
    let frame = eth_frame([0xff; 6], [0x01, 0x02, 0x03, 0x04, 0x05, 0x06], 0x0806, &arp);
    let p = parse_ethernet_frame(&frame, 0);
    match p.get_network_layer_packet() {
        Some(SerializablePacket::ArpPacket(a)) => {
            assert_eq!(a.operation, 1);
            assert_eq!(a.sender_hw_addr, MacAddress(1, 2, 3, 4, 5, 6));
            assert_eq!(
                (a.sender_proto_addr.0, a.sender_proto_addr.1, a.sender_proto_addr.2,
                 a.sender_proto_addr.3),
                (10, 0, 0, 1)
            );
            assert_eq!(
                (a.target_proto_addr.0, a.target_proto_addr.1, a.target_proto_addr.2,
                 a.target_proto_addr.3),
                (10, 0, 0, 2)
            );
        }
        _ => panic!("expected an ARP network record"),
    }
    assert!(p.get_transport_layer_packet().is_none());
}

#[test]
fn short_arp_message_is_malformed() {
    let frame = eth_frame([0xff; 6], [1; 6], 0x0806, &[0x00, 0x01, 0x08]);
    let p = parse_ethernet_frame(&frame, 0);
    match p.get_network_layer_packet() {
        Some(SerializablePacket::MalformedPacket(reason)) => {
            assert_eq!(reason, "Malformed ARP Packet");
        }
        _ => panic!("expected a malformed network record"),
    }
}

#[test]
fn icmp_echo_request_records_identifier_and_sequence() {
    let mut payload = ipv4_header([10, 0, 0, 1], [10, 0, 0, 2], 1, 28);
    let icmp: [u8; 8] = [8, 0, 0x00, 0x00, 0x00, 0x01, 0x00, 0x07];
    payload.extend_from_slice(&icmp);
    let frame = eth_frame([1; 6], [2; 6], 0x0800, &payload);
    let p = parse_ethernet_frame(&frame, 0);
    match p.get_transport_layer_packet() {
        Some(SerializablePacket::EchoRequestPacket(e)) => {
            assert_eq!(e.identifier, 1);
            assert_eq!(e.sequence_number, 7);
        }
        _ => panic!("expected an echo-request transport record"),
    }
}

#[test]
fn icmp_echo_reply_records_identifier_and_sequence() {
    let mut payload = ipv4_header([10, 0, 0, 2], [10, 0, 0, 1], 1, 28);
    let icmp: [u8; 8] = [0, 0, 0x00, 0x00, 0x00, 0x01, 0x00, 0x07];
    payload.extend_from_slice(&icmp);
    let frame = eth_frame([1; 6], [2; 6], 0x0800, &payload);
    let p = parse_ethernet_frame(&frame, 0);
    match p.get_transport_layer_packet() {
        Some(SerializablePacket::EchoReplyPacket(e)) => {
            assert_eq!(e.identifier, 1);
            assert_eq!(e.sequence_number, 7);
        }
        _ => panic!("expected an echo-reply transport record"),
    }
}

#[test]
fn other_icmp_type_records_generic_icmp() {
    let mut payload = ipv4_header([10, 0, 0, 1], [10, 0, 0, 2], 1, 24);
    let icmp: [u8; 4] = [3, 1, 0x00, 0x00];
    payload.extend_from_slice(&icmp);
    let frame = eth_frame([1; 6], [2; 6], 0x0800, &payload);
    let p = parse_ethernet_frame(&frame, 0);
    match p.get_transport_layer_packet() {
        Some(SerializablePacket::IcmpPacket(i)) => {
            assert_eq!(i.icmp_type, 3);
            assert_eq!(i.icmp_code, 1);
        }
        _ => panic!("expected a generic ICMP transport record"),
    }
}

#[test]
fn truncated_icmp_echo_is_malformed() {
    let mut payload = ipv4_header([10, 0, 0, 1], [10, 0, 0, 2], 1, 24);
    let icmp: [u8; 4] = [8, 0, 0x00, 0x00];
    payload.extend_from_slice(&icmp);
    let frame = eth_frame([1; 6], [2; 6], 0x0800, &payload);
    let p = parse_ethernet_frame(&frame, 0);
    match p.get_transport_layer_packet() {
        Some(SerializablePacket::MalformedPacket(reason)) => {
            assert_eq!(reason, "Malformed ICMP Packet");
        }
        _ => panic!("expected a malformed transport record"),
    }
}

#[test]
fn ipv6_udp_frame_decodes_network_and_transport() {
    let mut payload: Vec<u8> = vec![
        0x60, 0x00, 0x00, 0x00, // version 6
        0x00, 0x08, // payload length 8
        17,   // next header: UDP
        0x40, // hop limit
    ];
    let source: [u8; 16] = [
        0xfe, 0x80, 0, 0, 0, 0, 0, 0, 0, 0, 0, 0, 0, 0, 0, 0x01,
    ];
    let dest: [u8; 16] = [
        0x20, 0x01, 0x0d, 0xb8, 0, 0, 0, 0, 0, 0, 0, 0, 0, 0, 0, 0x02,
    ];
    payload.extend_from_slice(&source);
    payload.extend_from_slice(&dest);
    payload.extend_from_slice(&[0x00, 0x35, 0x00, 0x35, 0x00, 0x08, 0x00, 0x00]);
    let frame = eth_frame([1; 6], [2; 6], 0x86DD, &payload);
    let p = parse_ethernet_frame(&frame, 0);
    match p.get_network_layer_packet() {
        Some(SerializablePacket::Ipv6Packet(ip)) => {
            assert_eq!(ip.source.0, 0xfe80);
            assert_eq!(ip.source.7, 0x0001);
            assert_eq!(ip.destination.0, 0x2001);
            assert_eq!(ip.destination.1, 0x0db8);
            assert_eq!(ip.next_header, 17);
        }
        _ => panic!("expected an IPv6 network record"),
    }
    match p.get_transport_layer_packet() {
        Some(SerializablePacket::UdpPacket(u)) => {
            assert_eq!(u.source, 53);
            assert_eq!(u.destination, 53);
        }
        _ => panic!("expected a UDP transport record"),
    }
}

#[test]
fn icmpv6_frame_records_type_and_code() {
    let mut payload: Vec<u8> = vec![0x60, 0x00, 0x00, 0x00, 0x00, 0x04, 58, 0xff];
    payload.extend_from_slice(&[0u8; 32]);
    payload.extend_from_slice(&[135, 0, 0x00, 0x00]);
    let frame = eth_frame([1; 6], [2; 6], 0x86DD, &payload);
    let p = parse_ethernet_frame(&frame, 0);
    match p.get_transport_layer_packet() {
        Some(SerializablePacket::Icmpv6Packet(i)) => {
            assert_eq!(i.icmpv6_type, 135);
            assert_eq!(i.icmpv6_code, 0);
        }
        _ => panic!("expected an ICMPv6 transport record"),
    }
}

#[test]
fn unknown_ethertype_records_unknown_link() {
    let frame = eth_frame([1, 2, 3, 4, 5, 6], [7, 8, 9, 10, 11, 12], 0x88CC, &[0xde, 0xad]);
    let p = parse_ethernet_frame(&frame, 3);
    match p.get_link_layer_packet() {
        Some(SerializablePacket::UnknownPacket(u)) => {
            assert_eq!(u.destination, MacAddress(1, 2, 3, 4, 5, 6));
            assert_eq!(u.source, MacAddress(7, 8, 9, 10, 11, 12));
            assert_eq!(u.ethertype, 0x88CC);
            assert_eq!(u.length, 16);
        }
        _ => panic!("expected an unknown link record"),
    }
    assert!(p.get_network_layer_packet().is_none());
    assert!(p.get_transport_layer_packet().is_none());
}

#[test]
fn unhandled_next_protocol_leaves_transport_empty() {
    let mut payload = ipv4_header([10, 0, 0, 1], [10, 0, 0, 2], 47, 20);
    payload.extend_from_slice(&[0u8; 8]);
    let frame = eth_frame([1; 6], [2; 6], 0x0800, &payload);
    let p = parse_ethernet_frame(&frame, 0);
    match p.get_network_layer_packet() {
        Some(SerializablePacket::Ipv4Packet(ip)) => assert_eq!(ip.next_level_protocol, 47),
        _ => panic!("expected an IPv4 network record"),
    }
    assert!(p.get_transport_layer_packet().is_none());
}

#[test]
fn caller_assigned_ids_are_preserved_in_order() {
    let frame: Vec<u8> = vec![0u8; 10];
    let mut last: Option<usize> = None;
    for id in 0..5usize {
        let p = parse_ethernet_frame(&frame, id);
        assert_eq!(p.get_id(), id);
        if let Some(prev) = last {
            assert_eq!(p.get_id(), prev + 1);
        }
        last = Some(p.get_id());
    }
}
