use vstd::prelude::*;
use vstd::slice::slice_subrange;
use vstd::string::StringExecFns;

use crate::parser::bytes::{read_be16, spec_be16};
use crate::parser::transport::{handle_transport_protocol, spec_transport_outcome};
use crate::parser::wrapers::{
    Ipv4Address, Ipv6Address, MacAddress, PacketModel, ParsedPacket, ParsedPacketModel,
    SerializableArpPacket, SerializableIpv4Packet, SerializableIpv6Packet, SerializablePacket,
};

verus! {

/// Minimum IPv4 header length in bytes.
pub const IPV4_MIN_LEN: usize = 20;

/// Fixed IPv6 header length in bytes.
pub const IPV6_MIN_LEN: usize = 40;

/// Minimum ARP message length in bytes (Ethernet/IPv4 address sizes).
pub const ARP_MIN_LEN: usize = 28;

/// The record decoded from the IPv4 header bytes `b`: source and destination
/// address and the next-protocol field, or malformed when `b` is shorter
/// than the minimum IPv4 header.
pub open spec fn spec_ipv4_record(b: Seq<u8>) -> PacketModel {
    if b.len() >= IPV4_MIN_LEN {
        PacketModel::Ipv4 {
            source: b.subrange(12, 16),
            destination: b.subrange(16, 20),
            next_level_protocol: b[9],
        }
    } else {
        PacketModel::Malformed { reason: "Malformed IPv4 Packet"@ }
    }
}

/// The payload of the IPv4 header bytes `b`: what lies between the end of
/// the header (per its header-length field, clamped below to the minimum
/// header) and the end of the datagram (per its total-length field, clamped
/// to the bytes present).
pub open spec fn spec_ipv4_payload(b: Seq<u8>) -> Seq<u8>
    recommends
        b.len() >= IPV4_MIN_LEN,
{
    let header_len = 4 * (b[0] as int % 16);
    let start = if header_len > 20 {
        header_len
    } else {
        20
    };
    let declared = if spec_be16(b, 2) as int > header_len {
        spec_be16(b, 2) as int - header_len
    } else {
        0
    };
    let end = if start + declared < b.len() {
        start + declared
    } else {
        b.len() as int
    };
    if b.len() <= start {
        Seq::empty()
    } else {
        b.subrange(start, end)
    }
}

/// The eight 16-bit address groups stored big-endian from offset `base` of
/// `b`.
pub open spec fn spec_ipv6_groups(b: Seq<u8>, base: int) -> Seq<u16>
    recommends
        0 <= base,
        base + 16 <= b.len(),
{
    seq![
        spec_be16(b, base),
        spec_be16(b, base + 2),
        spec_be16(b, base + 4),
        spec_be16(b, base + 6),
        spec_be16(b, base + 8),
        spec_be16(b, base + 10),
        spec_be16(b, base + 12),
        spec_be16(b, base + 14),
    ]
}

/// The record decoded from the IPv6 header bytes `b`: source and destination
/// address groups and the next-header field, or malformed when `b` is
/// shorter than the fixed IPv6 header.
pub open spec fn spec_ipv6_record(b: Seq<u8>) -> PacketModel {
    if b.len() >= IPV6_MIN_LEN {
        PacketModel::Ipv6 {
            source: spec_ipv6_groups(b, 8),
            destination: spec_ipv6_groups(b, 24),
            next_header: b[6],
        }
    } else {
        PacketModel::Malformed { reason: "Malformed IPv6 Packet"@ }
    }
}

/// The payload of the IPv6 header bytes `b`: the bytes after the fixed
/// header, bounded by the payload-length field, clamped to the bytes
/// present.
pub open spec fn spec_ipv6_payload(b: Seq<u8>) -> Seq<u8>
    recommends
        b.len() >= IPV6_MIN_LEN,
{
    let declared = spec_be16(b, 4) as int;
    let end = if 40 + declared < b.len() {
        40 + declared
    } else {
        b.len() as int
    };
    if b.len() <= 40 {
        Seq::empty()
    } else {
        b.subrange(40, end)
    }
}

/// The record decoded from the ARP message bytes `b`: the operation and the
/// sender and target hardware and protocol addresses, or malformed when `b`
/// is shorter than an ARP message.
pub open spec fn spec_arp_record(b: Seq<u8>) -> PacketModel {
    if b.len() >= ARP_MIN_LEN {
        PacketModel::Arp {
            operation: spec_be16(b, 6),
            sender_hw: b.subrange(8, 14),
            sender_proto: b.subrange(14, 18),
            target_hw: b.subrange(18, 24),
            target_proto: b.subrange(24, 28),
        }
    } else {
        PacketModel::Malformed { reason: "Malformed ARP Packet"@ }
    }
}

/// The slice of `b` that `spec_ipv4_payload` describes.
pub(crate) fn ipv4_payload<'a>(b: &'a [u8]) -> (r: &'a [u8])
    requires
        b@.len() >= IPV4_MIN_LEN,
    ensures
        r@ == spec_ipv4_payload(b@),
{
    let header_len: usize = 4 * ((b[0] % 16) as usize);
    let start: usize = if header_len > 20 {
        header_len
    } else {
        20
    };
    let declared_total: usize = read_be16(b, 2) as usize;
    let declared: usize = if declared_total > header_len {
        declared_total - header_len
    } else {
        0
    };
    let end: usize = if start + declared < b.len() {
        start + declared
    } else {
        b.len()
    };
    if b.len() <= start {
        let r = slice_subrange(b, 0, 0);
        proof {
            assert(r@ =~= spec_ipv4_payload(b@));
        }
        r
    } else {
        slice_subrange(b, start, end)
    }
}

/// The slice of `b` that `spec_ipv6_payload` describes.
pub(crate) fn ipv6_payload<'a>(b: &'a [u8]) -> (r: &'a [u8])
    requires
        b@.len() >= IPV6_MIN_LEN,
    ensures
        r@ == spec_ipv6_payload(b@),
{
    let declared: usize = read_be16(b, 4) as usize;
    let end: usize = if 40 + declared < b.len() {
        40 + declared
    } else {
        b.len()
    };
    if b.len() <= 40 {
        let r = slice_subrange(b, 0, 0);
        proof {
            assert(r@ =~= spec_ipv6_payload(b@));
        }
        r
    } else {
        slice_subrange(b, 40, end)
    }
}

/// Build an IPv4 record from a link-layer payload, save it in the parsed
/// packet, and go on to the transport layer with the IPv4 payload.
pub fn handle_ipv4_packet(packet: &[u8], parsed_packet: &mut ParsedPacket)
    ensures
        final(parsed_packet)@ == (ParsedPacketModel {
            network: Some(spec_ipv4_record(packet@)),
            transport: if packet@.len() >= IPV4_MIN_LEN {
                spec_transport_outcome(
                    packet@[9],
                    spec_ipv4_payload(packet@),
                    old(parsed_packet)@.transport,
                )
            } else {
                old(parsed_packet)@.transport
            },
            ..old(parsed_packet)@
        }),
{
    if packet.len() >= IPV4_MIN_LEN {
        let source = Ipv4Address(packet[12], packet[13], packet[14], packet[15]);
        let destination = Ipv4Address(packet[16], packet[17], packet[18], packet[19]);
        proof {
            assert(source@ =~= packet@.subrange(12, 16));
            assert(destination@ =~= packet@.subrange(16, 20));
        }
        let next_level_protocol = packet[9];
        parsed_packet.set_network_layer_packet(Some(SerializablePacket::Ipv4Packet(
            SerializableIpv4Packet { source, destination, next_level_protocol },
        )));
        let payload = ipv4_payload(packet);
        handle_transport_protocol(next_level_protocol, payload, parsed_packet);
    } else {
        parsed_packet.set_network_layer_packet(Some(SerializablePacket::MalformedPacket(
            String::from_str("Malformed IPv4 Packet"),
        )));
    }
}

/// Build an IPv6 record from a link-layer payload, save it in the parsed
/// packet, and go on to the transport layer with the IPv6 payload.
pub fn handle_ipv6_packet(packet: &[u8], parsed_packet: &mut ParsedPacket)
    ensures
        final(parsed_packet)@ == (ParsedPacketModel {
            network: Some(spec_ipv6_record(packet@)),
            transport: if packet@.len() >= IPV6_MIN_LEN {
                spec_transport_outcome(
                    packet@[6],
                    spec_ipv6_payload(packet@),
                    old(parsed_packet)@.transport,
                )
            } else {
                old(parsed_packet)@.transport
            },
            ..old(parsed_packet)@
        }),
{
    if packet.len() >= IPV6_MIN_LEN {
        let source = Ipv6Address(
            read_be16(packet, 8),
            read_be16(packet, 10),
            read_be16(packet, 12),
            read_be16(packet, 14),
            read_be16(packet, 16),
            read_be16(packet, 18),
            read_be16(packet, 20),
            read_be16(packet, 22),
        );
        let destination = Ipv6Address(
            read_be16(packet, 24),
            read_be16(packet, 26),
            read_be16(packet, 28),
            read_be16(packet, 30),
            read_be16(packet, 32),
            read_be16(packet, 34),
            read_be16(packet, 36),
            read_be16(packet, 38),
        );
        let next_header = packet[6];
        parsed_packet.set_network_layer_packet(Some(SerializablePacket::Ipv6Packet(
            SerializableIpv6Packet { source, destination, next_header },
        )));
        let payload = ipv6_payload(packet);
        handle_transport_protocol(next_header, payload, parsed_packet);
    } else {
        parsed_packet.set_network_layer_packet(Some(SerializablePacket::MalformedPacket(
            String::from_str("Malformed IPv6 Packet"),
        )));
    }
}

/// Build an ARP record from a link-layer payload, save it in the parsed
/// packet. ARP has no transport layer: decoding stops after the network
/// slot.
pub fn handle_arp_packet(packet: &[u8], parsed_packet: &mut ParsedPacket)
    ensures
        final(parsed_packet)@ == (ParsedPacketModel {
            network: Some(spec_arp_record(packet@)),
            ..old(parsed_packet)@
        }),
{
    if packet.len() >= ARP_MIN_LEN {
        let sender_hw_addr = MacAddress(
            packet[8],
            packet[9],
            packet[10],
            packet[11],
            packet[12],
            packet[13],
        );
        let sender_proto_addr = Ipv4Address(packet[14], packet[15], packet[16], packet[17]);
        let target_hw_addr = MacAddress(
            packet[18],
            packet[19],
            packet[20],
            packet[21],
            packet[22],
            packet[23],
        );
        let target_proto_addr = Ipv4Address(packet[24], packet[25], packet[26], packet[27]);
        proof {
            assert(sender_hw_addr@ =~= packet@.subrange(8, 14));
            assert(sender_proto_addr@ =~= packet@.subrange(14, 18));
            assert(target_hw_addr@ =~= packet@.subrange(18, 24));
            assert(target_proto_addr@ =~= packet@.subrange(24, 28));
        }
        let operation = read_be16(packet, 6);
        parsed_packet.set_network_layer_packet(Some(SerializablePacket::ArpPacket(
            SerializableArpPacket {
                operation,
                sender_hw_addr,
                sender_proto_addr,
                target_hw_addr,
                target_proto_addr,
            },
        )));
    } else {
        parsed_packet.set_network_layer_packet(Some(SerializablePacket::MalformedPacket(
            String::from_str("Malformed ARP Packet"),
        )));
    }
}

} // verus!
