use vstd::prelude::*;
use vstd::string::StringExecFns;

use crate::parser::bytes::{read_be16, spec_be16};
use crate::parser::wrapers::{
    PacketModel, ParsedPacket, ParsedPacketModel, SerializableEchoReplyPacket,
    SerializableEchoRequestPacket, SerializableIcmpPacket, SerializableIcmpv6Packet,
    SerializablePacket, SerializableTcpPacket, SerializableUdpPacket,
};

verus! {

/// IP next-protocol number of ICMP.
pub const PROTOCOL_ICMP: u8 = 1;

/// IP next-protocol number of TCP.
pub const PROTOCOL_TCP: u8 = 6;

/// IP next-protocol number of UDP.
pub const PROTOCOL_UDP: u8 = 17;

/// IP next-protocol number of ICMPv6.
pub const PROTOCOL_ICMPV6: u8 = 58;

/// ICMP type of an echo reply.
pub const ICMP_TYPE_ECHO_REPLY: u8 = 0;

/// ICMP type of an echo request.
pub const ICMP_TYPE_ECHO_REQUEST: u8 = 8;

/// Minimum UDP header length in bytes.
pub const UDP_MIN_LEN: usize = 8;

/// Minimum TCP header length in bytes.
pub const TCP_MIN_LEN: usize = 20;

/// Minimum ICMP / ICMPv6 header length in bytes (type, code, checksum).
pub const ICMP_MIN_LEN: usize = 4;

/// Minimum ICMP echo request / reply length in bytes (type, code, checksum,
/// identifier, sequence number).
pub const ICMP_ECHO_MIN_LEN: usize = 8;

/// The record decoded from the UDP header bytes `b`: source and destination
/// port and the header's length field, or malformed when `b` is shorter than
/// a UDP header.
pub open spec fn spec_udp_record(b: Seq<u8>) -> PacketModel {
    if b.len() >= UDP_MIN_LEN {
        PacketModel::Udp {
            source: spec_be16(b, 0),
            destination: spec_be16(b, 2),
            length: spec_be16(b, 4),
        }
    } else {
        PacketModel::Malformed { reason: "Malformed UDP Packet"@ }
    }
}

/// The record decoded from the TCP header bytes `b`: source and destination
/// port and the control-flags byte, or malformed when `b` is shorter than a
/// TCP header.
pub open spec fn spec_tcp_record(b: Seq<u8>) -> PacketModel {
    if b.len() >= TCP_MIN_LEN {
        PacketModel::Tcp {
            source: spec_be16(b, 0),
            destination: spec_be16(b, 2),
            flags: b[13],
        }
    } else {
        PacketModel::Malformed { reason: "Malformed TCP Packet"@ }
    }
}

/// The record decoded from the ICMP bytes `b`. An echo request or reply
/// additionally carries identifier and sequence number; any other type is
/// recorded generically; bytes too short for the attempted structure are
/// malformed.
pub open spec fn spec_icmp_record(b: Seq<u8>) -> PacketModel {
    if b.len() < ICMP_MIN_LEN {
        PacketModel::Malformed { reason: "Malformed ICMP Packet"@ }
    } else if b[0] == ICMP_TYPE_ECHO_REPLY {
        if b.len() >= ICMP_ECHO_MIN_LEN {
            PacketModel::EchoReply {
                identifier: spec_be16(b, 4),
                sequence_number: spec_be16(b, 6),
            }
        } else {
            PacketModel::Malformed { reason: "Malformed ICMP Packet"@ }
        }
    } else if b[0] == ICMP_TYPE_ECHO_REQUEST {
        if b.len() >= ICMP_ECHO_MIN_LEN {
            PacketModel::EchoRequest {
                identifier: spec_be16(b, 4),
                sequence_number: spec_be16(b, 6),
            }
        } else {
            PacketModel::Malformed { reason: "Malformed ICMP Packet"@ }
        }
    } else {
        PacketModel::Icmp { icmp_type: b[0], icmp_code: b[1] }
    }
}

/// The record decoded from the ICMPv6 bytes `b`: its type and code, or
/// malformed when `b` is shorter than an ICMPv6 header.
pub open spec fn spec_icmpv6_record(b: Seq<u8>) -> PacketModel {
    if b.len() >= ICMP_MIN_LEN {
        PacketModel::Icmpv6 { icmpv6_type: b[0], icmpv6_code: b[1] }
    } else {
        PacketModel::Malformed { reason: "Malformed ICMPv6 Packet"@ }
    }
}

/// The transport record for next-protocol number `protocol` over the payload
/// bytes `b`, or `None` when the number names no transport protocol the
/// decoder knows (recognized-but-unhandled, distinct from malformed).
pub open spec fn spec_transport_record(protocol: u8, b: Seq<u8>) -> Option<PacketModel> {
    if protocol == PROTOCOL_UDP {
        Some(spec_udp_record(b))
    } else if protocol == PROTOCOL_TCP {
        Some(spec_tcp_record(b))
    } else if protocol == PROTOCOL_ICMP {
        Some(spec_icmp_record(b))
    } else if protocol == PROTOCOL_ICMPV6 {
        Some(spec_icmpv6_record(b))
    } else {
        None
    }
}

/// What the transport slot holds after dispatch: the decoded record for a
/// known protocol number, else the slot's previous contents.
pub open spec fn spec_transport_outcome(
    protocol: u8,
    b: Seq<u8>,
    prev: Option<PacketModel>,
) -> Option<PacketModel> {
    match spec_transport_record(protocol, b) {
        Some(m) => Some(m),
        None => prev,
    }
}

/// Build a UDP record from a network-layer payload, save it in the parsed
/// packet.
pub fn handle_udp_packet(packet: &[u8], parsed_packet: &mut ParsedPacket)
    ensures
        final(parsed_packet)@ == (ParsedPacketModel {
            transport: Some(spec_udp_record(packet@)),
            ..old(parsed_packet)@
        }),
{
    if packet.len() >= UDP_MIN_LEN {
        let record = SerializableUdpPacket {
            source: read_be16(packet, 0),
            destination: read_be16(packet, 2),
            length: read_be16(packet, 4),
        };
        parsed_packet.set_transport_layer_packet(Some(SerializablePacket::UdpPacket(record)));
    } else {
        parsed_packet.set_transport_layer_packet(Some(SerializablePacket::MalformedPacket(
            String::from_str("Malformed UDP Packet"),
        )));
    }
}

/// Build a TCP record from a network-layer payload, save it in the parsed
/// packet.
pub fn handle_tcp_packet(packet: &[u8], parsed_packet: &mut ParsedPacket)
    ensures
        final(parsed_packet)@ == (ParsedPacketModel {
            transport: Some(spec_tcp_record(packet@)),
            ..old(parsed_packet)@
        }),
{
    if packet.len() >= TCP_MIN_LEN {
        let record = SerializableTcpPacket {
            source: read_be16(packet, 0),
            destination: read_be16(packet, 2),
            flags: packet[13],
        };
        parsed_packet.set_transport_layer_packet(Some(SerializablePacket::TcpPacket(record)));
    } else {
        parsed_packet.set_transport_layer_packet(Some(SerializablePacket::MalformedPacket(
            String::from_str("Malformed TCP Packet"),
        )));
    }
}

/// Build an ICMP record from a network-layer payload, save it in the parsed
/// packet. Echo requests and replies get their identifier and sequence
/// number recorded; other types only their type and code.
pub fn handle_icmp_packet(packet: &[u8], parsed_packet: &mut ParsedPacket)
    ensures
        final(parsed_packet)@ == (ParsedPacketModel {
            transport: Some(spec_icmp_record(packet@)),
            ..old(parsed_packet)@
        }),
{
    if packet.len() < ICMP_MIN_LEN {
        parsed_packet.set_transport_layer_packet(Some(SerializablePacket::MalformedPacket(
            String::from_str("Malformed ICMP Packet"),
        )));
    } else if packet[0] == ICMP_TYPE_ECHO_REPLY {
        if packet.len() >= ICMP_ECHO_MIN_LEN {
            let record = SerializableEchoReplyPacket {
                identifier: read_be16(packet, 4),
                sequence_number: read_be16(packet, 6),
            };
            parsed_packet.set_transport_layer_packet(Some(SerializablePacket::EchoReplyPacket(
                record,
            )));
        } else {
            parsed_packet.set_transport_layer_packet(Some(SerializablePacket::MalformedPacket(
                String::from_str("Malformed ICMP Packet"),
            )));
        }
    } else if packet[0] == ICMP_TYPE_ECHO_REQUEST {
        if packet.len() >= ICMP_ECHO_MIN_LEN {
            let record = SerializableEchoRequestPacket {
                identifier: read_be16(packet, 4),
                sequence_number: read_be16(packet, 6),
            };
            parsed_packet.set_transport_layer_packet(Some(
                SerializablePacket::EchoRequestPacket(record),
            ));
        } else {
            parsed_packet.set_transport_layer_packet(Some(SerializablePacket::MalformedPacket(
                String::from_str("Malformed ICMP Packet"),
            )));
        }
    } else {
        let record = SerializableIcmpPacket { icmp_type: packet[0], icmp_code: packet[1] };
        parsed_packet.set_transport_layer_packet(Some(SerializablePacket::IcmpPacket(record)));
    }
}

/// Build an ICMPv6 record from a network-layer payload, save it in the
/// parsed packet.
pub fn handle_icmpv6_packet(packet: &[u8], parsed_packet: &mut ParsedPacket)
    ensures
        final(parsed_packet)@ == (ParsedPacketModel {
            transport: Some(spec_icmpv6_record(packet@)),
            ..old(parsed_packet)@
        }),
{
    if packet.len() >= ICMP_MIN_LEN {
        let record = SerializableIcmpv6Packet { icmpv6_type: packet[0], icmpv6_code: packet[1] };
        parsed_packet.set_transport_layer_packet(Some(SerializablePacket::Icmpv6Packet(record)));
    } else {
        parsed_packet.set_transport_layer_packet(Some(SerializablePacket::MalformedPacket(
            String::from_str("Malformed ICMPv6 Packet"),
        )));
    }
}

/// Dispatch on the next-protocol field: decode the payload as the named
/// transport protocol, or leave the transport slot untouched for a number
/// the decoder does not know.
pub fn handle_transport_protocol(protocol: u8, packet: &[u8], parsed_packet: &mut ParsedPacket)
    ensures
        final(parsed_packet)@ == (ParsedPacketModel {
            transport: spec_transport_outcome(protocol, packet@, old(parsed_packet)@.transport),
            ..old(parsed_packet)@
        }),
{
    if protocol == PROTOCOL_UDP {
        handle_udp_packet(packet, parsed_packet);
    } else if protocol == PROTOCOL_TCP {
        handle_tcp_packet(packet, parsed_packet);
    } else if protocol == PROTOCOL_ICMP {
        handle_icmp_packet(packet, parsed_packet);
    } else if protocol == PROTOCOL_ICMPV6 {
        handle_icmpv6_packet(packet, parsed_packet);
    } else {
        proof {
            assert(old(parsed_packet)@ =~= ParsedPacketModel {
                transport: old(parsed_packet)@.transport,
                ..old(parsed_packet)@
            });
        }
    }
}

} // verus!
