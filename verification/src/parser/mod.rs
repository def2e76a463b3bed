pub mod bytes;
pub mod network;
pub mod transport;
pub mod wrapers;

use vstd::prelude::*;
use vstd::slice::slice_subrange;
use vstd::string::StringExecFns;

use crate::parser::bytes::{read_be16, spec_be16};
use crate::parser::network::{
    handle_arp_packet, handle_ipv4_packet, handle_ipv6_packet, ipv4_payload, ipv6_payload,
    spec_arp_record, spec_ipv4_payload, spec_ipv4_record, spec_ipv6_groups, spec_ipv6_payload,
    spec_ipv6_record, ARP_MIN_LEN, IPV4_MIN_LEN, IPV6_MIN_LEN,
};
use crate::parser::transport::{
    spec_transport_record, ICMP_ECHO_MIN_LEN, ICMP_MIN_LEN, ICMP_TYPE_ECHO_REQUEST,
    PROTOCOL_ICMP, PROTOCOL_ICMPV6, PROTOCOL_TCP, PROTOCOL_UDP, TCP_MIN_LEN, UDP_MIN_LEN,
};
use crate::parser::wrapers::{
    Ipv4Address, Ipv6Address, MacAddress, PacketModel, ParsedPacket, ParsedPacketModel,
    SerializableEthernetPacket, SerializablePacket, SerializableUnknownPacket,
};
use crate::text::{
    dec_string, ipv4_string, ipv6_string, mac_string, spec_dec, spec_ipv4_str, spec_ipv6_str,
    spec_mac_str,
};
use crate::ui::ListItem;

verus! {

/// Minimum Ethernet header length in bytes.
pub const ETHERNET_HEADER_LEN: usize = 14;

/// Ethertype of IPv4.
pub const ETHERTYPE_IPV4: u16 = 0x0800;

/// Ethertype of ARP.
pub const ETHERTYPE_ARP: u16 = 0x0806;

/// Ethertype of IPv6.
pub const ETHERTYPE_IPV6: u16 = 0x86DD;

/// ARP operation code of a request.
pub const ARP_OPERATION_REQUEST: u16 = 1;

/// Whether the decoder knows the network protocol an ethertype names.
pub open spec fn spec_known_ethertype(et: u16) -> bool {
    et == ETHERTYPE_IPV4 || et == ETHERTYPE_IPV6 || et == ETHERTYPE_ARP
}

/// The link record of a frame that is at least an Ethernet header long: the
/// Ethernet record when the ethertype is known, else the unknown record with
/// the frame's total length.
pub open spec fn spec_link_record(frame: Seq<u8>) -> PacketModel
    recommends
        frame.len() >= ETHERNET_HEADER_LEN,
{
    let ethertype = spec_be16(frame, 12);
    if spec_known_ethertype(ethertype) {
        PacketModel::Ethernet {
            destination: frame.subrange(0, 6),
            source: frame.subrange(6, 12),
            ethertype,
        }
    } else {
        PacketModel::Unknown {
            destination: frame.subrange(0, 6),
            source: frame.subrange(6, 12),
            ethertype,
            length: frame.len() as int,
        }
    }
}

/// What the network slot holds after dispatch on the ethertype over the
/// Ethernet payload: empty for an ethertype the decoder does not know.
pub open spec fn spec_network_slot(ethertype: u16, payload: Seq<u8>) -> Option<PacketModel> {
    if ethertype == ETHERTYPE_IPV4 {
        Some(spec_ipv4_record(payload))
    } else if ethertype == ETHERTYPE_IPV6 {
        Some(spec_ipv6_record(payload))
    } else if ethertype == ETHERTYPE_ARP {
        Some(spec_arp_record(payload))
    } else {
        None
    }
}

/// What the transport slot holds: a record only when the network layer
/// identified a known sub-protocol, that is when an IPv4 or IPv6 header was
/// decoded and its next-protocol field names a known transport protocol.
pub open spec fn spec_transport_slot(ethertype: u16, payload: Seq<u8>) -> Option<PacketModel> {
    if ethertype == ETHERTYPE_IPV4 && payload.len() >= IPV4_MIN_LEN {
        spec_transport_record(payload[9], spec_ipv4_payload(payload))
    } else if ethertype == ETHERTYPE_IPV6 && payload.len() >= IPV6_MIN_LEN {
        spec_transport_record(payload[6], spec_ipv6_payload(payload))
    } else {
        None
    }
}

/// The full decode of one raw frame under a caller-assigned id. A frame
/// shorter than the minimum Ethernet header decodes to a record with every
/// layer slot empty; the application slot is a reserved extension point and
/// always empty.
pub open spec fn spec_decode(frame: Seq<u8>, id: int) -> ParsedPacketModel {
    if frame.len() < ETHERNET_HEADER_LEN {
        ParsedPacketModel { id, link: None, network: None, transport: None, application: None }
    } else {
        let ethertype = spec_be16(frame, 12);
        let payload = frame.subrange(ETHERNET_HEADER_LEN as int, frame.len() as int);
        ParsedPacketModel {
            id,
            link: Some(spec_link_record(frame)),
            network: spec_network_slot(ethertype, payload),
            transport: spec_transport_slot(ethertype, payload),
            application: None,
        }
    }
}

/// Decode one raw frame into its layered representation, under the
/// caller-assigned id. Pure and total: malformed or unrecognized input
/// yields a valid record, never an error.
pub fn parse_ethernet_frame(frame: &[u8], id: usize) -> (r: ParsedPacket)
    ensures
        r@ == spec_decode(frame@, id as int),
{
    let mut parsed_packet = ParsedPacket::new(id);
    if frame.len() < ETHERNET_HEADER_LEN {
        proof {
            assert(parsed_packet@ =~= spec_decode(frame@, id as int));
        }
        return parsed_packet;
    }
    let destination = MacAddress(frame[0], frame[1], frame[2], frame[3], frame[4], frame[5]);
    let source = MacAddress(frame[6], frame[7], frame[8], frame[9], frame[10], frame[11]);
    proof {
        assert(destination@ =~= frame@.subrange(0, 6));
        assert(source@ =~= frame@.subrange(6, 12));
    }
    let ethertype = read_be16(frame, 12);
    parsed_packet.set_link_layer_packet(Some(SerializablePacket::EthernetPacket(
        SerializableEthernetPacket { destination, source, ethertype },
    )));
    let payload = slice_subrange(frame, ETHERNET_HEADER_LEN, frame.len());
    if ethertype == ETHERTYPE_IPV4 {
        handle_ipv4_packet(payload, &mut parsed_packet);
    } else if ethertype == ETHERTYPE_IPV6 {
        handle_ipv6_packet(payload, &mut parsed_packet);
    } else if ethertype == ETHERTYPE_ARP {
        handle_arp_packet(payload, &mut parsed_packet);
    } else {
        parsed_packet.set_link_layer_packet(Some(SerializablePacket::UnknownPacket(
            SerializableUnknownPacket { destination, source, ethertype, length: frame.len() },
        )));
    }
    proof {
        assert(parsed_packet@ =~= spec_decode(frame@, id as int));
    }
    parsed_packet
}

/// Every frame long enough for an Ethernet header that declares IPv4,
/// carries a full IPv4 header naming TCP, and holds a full TCP header in the
/// IPv4 payload decodes to link Ethernet, network IPv4 and transport TCP,
/// with the addresses and ports read from the input header fields.
pub proof fn lemma_ipv4_tcp_decode(frame: Seq<u8>, id: int)
    requires
        frame.len() >= ETHERNET_HEADER_LEN,
        spec_be16(frame, 12) == ETHERTYPE_IPV4,
        frame.subrange(14, frame.len() as int).len() >= IPV4_MIN_LEN,
        frame.subrange(14, frame.len() as int)[9] == PROTOCOL_TCP,
        spec_ipv4_payload(frame.subrange(14, frame.len() as int)).len() >= TCP_MIN_LEN,
    ensures
        spec_decode(frame, id).link == Some(PacketModel::Ethernet {
            destination: frame.subrange(0, 6),
            source: frame.subrange(6, 12),
            ethertype: ETHERTYPE_IPV4,
        }),
        spec_decode(frame, id).network == Some(PacketModel::Ipv4 {
            source: frame.subrange(14, frame.len() as int).subrange(12, 16),
            destination: frame.subrange(14, frame.len() as int).subrange(16, 20),
            next_level_protocol: PROTOCOL_TCP,
        }),
        spec_decode(frame, id).transport == Some(PacketModel::Tcp {
            source: spec_be16(spec_ipv4_payload(frame.subrange(14, frame.len() as int)), 0),
            destination: spec_be16(spec_ipv4_payload(frame.subrange(14, frame.len() as int)), 2),
            flags: spec_ipv4_payload(frame.subrange(14, frame.len() as int))[13],
        }),
{
}

/// Every byte sequence shorter than the minimum Ethernet header decodes to a
/// record with every layer slot empty, under the caller's id.
pub proof fn lemma_short_frame_all_empty(frame: Seq<u8>, id: int)
    requires
        frame.len() < ETHERNET_HEADER_LEN,
    ensures
        spec_decode(frame, id).id == id,
        spec_decode(frame, id).link is None,
        spec_decode(frame, id).network is None,
        spec_decode(frame, id).transport is None,
        spec_decode(frame, id).application is None,
{
}

/// A well-formed Ethernet+IPv4 frame — minimum header length, total length
/// consistent with the bytes present — whose IPv4 payload is truncated to 3
/// bytes yields a populated IPv4 network record and a malformed transport
/// record, for every transport protocol the decoder knows.
pub proof fn lemma_truncated_transport_is_malformed(frame: Seq<u8>, id: int)
    requires
        frame.len() == ETHERNET_HEADER_LEN + IPV4_MIN_LEN + 3,
        spec_be16(frame, 12) == ETHERTYPE_IPV4,
        frame[14] % 16 == 5,
        spec_be16(frame, 16) as int == IPV4_MIN_LEN + 3,
        frame[23] == PROTOCOL_TCP || frame[23] == PROTOCOL_UDP || frame[23] == PROTOCOL_ICMP
            || frame[23] == PROTOCOL_ICMPV6,
    ensures
        spec_decode(frame, id).network matches Some(m) && m is Ipv4,
        spec_decode(frame, id).transport matches Some(t) && t is Malformed,
{
    let payload = frame.subrange(14, frame.len() as int);
    assert(payload[0] == frame[14]);
    assert(payload[9] == frame[23]);
    assert(spec_be16(payload, 2) == spec_be16(frame, 16));
    assert(spec_ipv4_payload(payload).len() == 3);
}

/// An ARP request frame — Ethernet destination the broadcast address,
/// ethertype ARP, ARP operation request — decodes to an Ethernet link
/// record, an ARP network record with the request operation, and an empty
/// transport slot.
pub proof fn lemma_arp_request_decode(frame: Seq<u8>, id: int)
    requires
        frame.len() >= ETHERNET_HEADER_LEN,
        forall|i: int| 0 <= i < 6 ==> frame[i] == 0xffu8,
        spec_be16(frame, 12) == ETHERTYPE_ARP,
        frame.subrange(14, frame.len() as int).len() >= ARP_MIN_LEN,
        spec_be16(frame.subrange(14, frame.len() as int), 6) == ARP_OPERATION_REQUEST,
    ensures
        spec_decode(frame, id).link == Some(PacketModel::Ethernet {
            destination: frame.subrange(0, 6),
            source: frame.subrange(6, 12),
            ethertype: ETHERTYPE_ARP,
        }),
        spec_decode(frame, id).network matches Some(m) && m matches PacketModel::Arp {
            operation,
            ..
        } && operation == ARP_OPERATION_REQUEST,
        spec_decode(frame, id).transport is None,
{
}

/// An ICMP echo request inside Ethernet+IPv4 — echo type, with identifier
/// and sequence number at their header offsets — decodes to an echo-request
/// transport record carrying both, never to the generic ICMP record that
/// other ICMP types produce.
pub proof fn lemma_icmp_echo_request_decode(frame: Seq<u8>, id: int)
    requires
        frame.len() >= ETHERNET_HEADER_LEN,
        spec_be16(frame, 12) == ETHERTYPE_IPV4,
        frame.subrange(14, frame.len() as int).len() >= IPV4_MIN_LEN,
        frame.subrange(14, frame.len() as int)[9] == PROTOCOL_ICMP,
        spec_ipv4_payload(frame.subrange(14, frame.len() as int)).len() >= ICMP_ECHO_MIN_LEN,
        spec_ipv4_payload(frame.subrange(14, frame.len() as int))[0] == ICMP_TYPE_ECHO_REQUEST,
    ensures
        spec_decode(frame, id).transport == Some(PacketModel::EchoRequest {
            identifier: spec_be16(spec_ipv4_payload(frame.subrange(14, frame.len() as int)), 4),
            sequence_number: spec_be16(
                spec_ipv4_payload(frame.subrange(14, frame.len() as int)),
                6,
            ),
        }),
        !(spec_decode(frame, id).transport matches Some(PacketModel::Icmp { .. })),
{
}

/// Errors establishing a capture channel. They are fatal to setting capture
/// up and never occur mid-stream.
#[derive(Clone, Copy, Debug, PartialEq, Eq, Structural)]
pub enum ParserError {
    /// No network interface with the requested name exists.
    InterfaceNotFound,
    /// The platform returned a capture channel that is not a supported
    /// link-layer type.
    ChannelNotSupported,
    /// The channel could not be created (permissions, device busy, ...).
    ChannelCreationError,
}

/// The mathematical model of one frame's display summary: each of the five
/// texts, where present.
#[verifier::ext_equal]
pub ghost struct SummaryModel {
    pub proto: Option<Seq<char>>,
    pub size: Option<Seq<char>>,
    pub from: Option<Seq<char>>,
    pub to: Option<Seq<char>>,
    pub other: Option<Seq<char>>,
}

/// The model of an optional text.
pub open spec fn spec_text(o: Option<String>) -> Option<Seq<char>> {
    match o {
        Some(s) => Some(s@),
        None => None,
    }
}

/// The protocol label a frame summary shows for next-protocol number
/// `protocol` over the transport bytes `b`: named only when the transport
/// header itself decodes.
pub open spec fn spec_proto_label(protocol: u8, b: Seq<u8>) -> Option<Seq<char>> {
    if protocol == PROTOCOL_UDP {
        if b.len() >= UDP_MIN_LEN {
            Some("UDP"@)
        } else {
            None
        }
    } else if protocol == PROTOCOL_TCP {
        if b.len() >= TCP_MIN_LEN {
            Some("TCP"@)
        } else {
            None
        }
    } else if protocol == PROTOCOL_ICMP {
        if b.len() >= ICMP_MIN_LEN {
            Some("ICMP"@)
        } else {
            None
        }
    } else if protocol == PROTOCOL_ICMPV6 {
        if b.len() >= ICMP_MIN_LEN {
            Some("ICMPv6"@)
        } else {
            None
        }
    } else {
        None
    }
}

/// The auxiliary detail a frame summary shows: the ICMP or ICMPv6 type,
/// where one was decoded.
pub open spec fn spec_other_label(protocol: u8, b: Seq<u8>) -> Option<Seq<char>> {
    if protocol == PROTOCOL_ICMP && b.len() >= ICMP_MIN_LEN {
        Some("IcmpType("@ + spec_dec(b[0] as nat) + ")"@)
    } else if protocol == PROTOCOL_ICMPV6 && b.len() >= ICMP_MIN_LEN {
        Some("Icmpv6Type("@ + spec_dec(b[0] as nat) + ")"@)
    } else {
        None
    }
}

/// A summary after transport dispatch: the protocol label and auxiliary
/// detail are filled in where the transport layer decoded, else left as
/// they were.
pub open spec fn spec_with_transport(m: SummaryModel, protocol: u8, b: Seq<u8>) -> SummaryModel {
    SummaryModel {
        proto: match spec_proto_label(protocol, b) {
            Some(p) => Some(p),
            None => m.proto,
        },
        other: match spec_other_label(protocol, b) {
            Some(o) => Some(o),
            None => m.other,
        },
        ..m
    }
}

/// The display summary of one raw frame: a too-short frame shows nothing; a
/// decodable frame shows its byte length, and per layer whatever decoded —
/// addresses for IPv4/IPv6, hardware addresses and the operation for ARP,
/// the transport protocol label and ICMP detail where the transport header
/// decoded.
pub open spec fn spec_summary(frame: Seq<u8>) -> SummaryModel {
    if frame.len() < ETHERNET_HEADER_LEN {
        SummaryModel { proto: None, size: None, from: None, to: None, other: None }
    } else {
        let base = SummaryModel {
            proto: None,
            size: Some(spec_dec(frame.len())),
            from: None,
            to: None,
            other: None,
        };
        let ethertype = spec_be16(frame, 12);
        let payload = frame.subrange(ETHERNET_HEADER_LEN as int, frame.len() as int);
        if ethertype == ETHERTYPE_IPV4 {
            if payload.len() >= IPV4_MIN_LEN {
                spec_with_transport(
                    SummaryModel {
                        from: Some(spec_ipv4_str(payload.subrange(12, 16))),
                        to: Some(spec_ipv4_str(payload.subrange(16, 20))),
                        ..base
                    },
                    payload[9],
                    spec_ipv4_payload(payload),
                )
            } else {
                base
            }
        } else if ethertype == ETHERTYPE_IPV6 {
            if payload.len() >= IPV6_MIN_LEN {
                spec_with_transport(
                    SummaryModel {
                        from: Some(spec_ipv6_str(spec_ipv6_groups(payload, 8))),
                        to: Some(spec_ipv6_str(spec_ipv6_groups(payload, 24))),
                        ..base
                    },
                    payload[6],
                    spec_ipv6_payload(payload),
                )
            } else {
                base
            }
        } else if ethertype == ETHERTYPE_ARP {
            if payload.len() >= ARP_MIN_LEN {
                SummaryModel {
                    proto: Some("ARP"@),
                    other: Some("ArpOperation("@ + spec_dec(spec_be16(payload, 6) as nat) + ")"@),
                    from: Some(spec_mac_str(frame.subrange(6, 12))),
                    to: Some(spec_mac_str(frame.subrange(0, 6))),
                    ..base
                }
            } else {
                base
            }
        } else {
            base
        }
    }
}

/// The text a summary column shows, with the documented placeholder for an
/// empty slot.
pub open spec fn spec_or_dash(o: Option<Seq<char>>) -> Seq<char> {
    match o {
        Some(s) => s,
        None => "-"@,
    }
}

/// The display summary of one frame: up to five short texts for the list
/// view. Every field is optional; an empty field means its source layer did
/// not decode.
pub struct Parsed {
    proto: Option<String>,
    size: Option<String>,
    from: Option<String>,
    to: Option<String>,
    other: Option<String>,
}

impl View for Parsed {
    type V = SummaryModel;

    closed spec fn view(&self) -> SummaryModel {
        SummaryModel {
            proto: spec_text(self.proto),
            size: spec_text(self.size),
            from: spec_text(self.from),
            to: spec_text(self.to),
            other: spec_text(self.other),
        }
    }
}

impl Parsed {
    /// Fill the protocol label and auxiliary detail from the transport
    /// bytes, as the summary shows them.
    fn handle_transport_protocol(&mut self, protocol: u8, packet: &[u8])
        ensures
            final(self)@ == spec_with_transport(old(self)@, protocol, packet@),
    {
        if protocol == PROTOCOL_UDP {
            if packet.len() >= UDP_MIN_LEN {
                self.proto = Some(String::from_str("UDP"));
            }
        } else if protocol == PROTOCOL_TCP {
            if packet.len() >= TCP_MIN_LEN {
                self.proto = Some(String::from_str("TCP"));
            }
        } else if protocol == PROTOCOL_ICMP {
            if packet.len() >= ICMP_MIN_LEN {
                self.proto = Some(String::from_str("ICMP"));
                let mut other = String::from_str("IcmpType(");
                let num = dec_string(packet[0] as usize);
                other.append(num.as_str());
                other.append(")");
                self.other = Some(other);
            }
        } else if protocol == PROTOCOL_ICMPV6 {
            if packet.len() >= ICMP_MIN_LEN {
                self.proto = Some(String::from_str("ICMPv6"));
                let mut other = String::from_str("Icmpv6Type(");
                let num = dec_string(packet[0] as usize);
                other.append(num.as_str());
                other.append(")");
                self.other = Some(other);
            }
        }
        proof {
            assert(self@ =~= spec_with_transport(old(self)@, protocol, packet@));
        }
    }

    /// Summarize one raw frame for display. Pure and total: malformed or
    /// unrecognized input yields a summary with the affected fields empty,
    /// never an error.
    pub fn parse(packet: &Vec<u8>) -> (r: Self)
        ensures
            r@ == spec_summary(packet@),
    {
        let mut parsed_frame = Parsed { proto: None, from: None, to: None, size: None, other: None };
        if packet.len() < ETHERNET_HEADER_LEN {
            proof {
                assert(parsed_frame@ =~= spec_summary(packet@));
            }
            return parsed_frame;
        }
        parsed_frame.size = Some(dec_string(packet.len()));
        let frame = packet.as_slice();
        let ethertype = read_be16(frame, 12);
        let payload = slice_subrange(frame, ETHERNET_HEADER_LEN, frame.len());
        if ethertype == ETHERTYPE_IPV4 {
            if payload.len() >= IPV4_MIN_LEN {
                let source = Ipv4Address(payload[12], payload[13], payload[14], payload[15]);
                let destination = Ipv4Address(payload[16], payload[17], payload[18], payload[19]);
                proof {
                    assert(source@ =~= payload@.subrange(12, 16));
                    assert(destination@ =~= payload@.subrange(16, 20));
                }
                parsed_frame.from = Some(ipv4_string(&source));
                parsed_frame.to = Some(ipv4_string(&destination));
                let transport = ipv4_payload(payload);
                parsed_frame.handle_transport_protocol(payload[9], transport);
            }
        } else if ethertype == ETHERTYPE_IPV6 {
            if payload.len() >= IPV6_MIN_LEN {
                let source = Ipv6Address(
                    read_be16(payload, 8),
                    read_be16(payload, 10),
                    read_be16(payload, 12),
                    read_be16(payload, 14),
                    read_be16(payload, 16),
                    read_be16(payload, 18),
                    read_be16(payload, 20),
                    read_be16(payload, 22),
                );
                let destination = Ipv6Address(
                    read_be16(payload, 24),
                    read_be16(payload, 26),
                    read_be16(payload, 28),
                    read_be16(payload, 30),
                    read_be16(payload, 32),
                    read_be16(payload, 34),
                    read_be16(payload, 36),
                    read_be16(payload, 38),
                );
                parsed_frame.from = Some(ipv6_string(&source));
                parsed_frame.to = Some(ipv6_string(&destination));
                let transport = ipv6_payload(payload);
                parsed_frame.handle_transport_protocol(payload[6], transport);
            }
        } else if ethertype == ETHERTYPE_ARP {
            if payload.len() >= ARP_MIN_LEN {
                parsed_frame.proto = Some(String::from_str("ARP"));
                let mut op = String::from_str("ArpOperation(");
                let num = dec_string(read_be16(payload, 6) as usize);
                op.append(num.as_str());
                op.append(")");
                parsed_frame.other = Some(op);
                let from_mac = MacAddress(
                    frame[6],
                    frame[7],
                    frame[8],
                    frame[9],
                    frame[10],
                    frame[11],
                );
                let to_mac = MacAddress(frame[0], frame[1], frame[2], frame[3], frame[4], frame[5]);
                proof {
                    assert(from_mac@ =~= packet@.subrange(6, 12));
                    assert(to_mac@ =~= packet@.subrange(0, 6));
                }
                parsed_frame.from = Some(mac_string(&from_mac));
                parsed_frame.to = Some(mac_string(&to_mac));
            }
        }
        proof {
            assert(parsed_frame@ =~= spec_summary(packet@));
        }
        parsed_frame
    }

    /// The four display columns, in order: protocol label, "from -> to"
    /// summary, byte length, auxiliary detail — each falling back to the
    /// documented placeholder when its source layer is empty.
    pub fn to_list_item(self) -> (r: ListItem)
        ensures
            r.elements@.len() == 4,
            r.elements@[0]@ == spec_or_dash(self@.proto),
            r.elements@[1]@ == spec_or_dash(self@.from) + " -> "@ + spec_or_dash(self@.to),
            r.elements@[2]@ == spec_or_dash(self@.size),
            r.elements@[3]@ == spec_or_dash(self@.other),
    {
        let Parsed { proto, size, from, to, other } = self;
        let mut elements: Vec<String> = Vec::new();
        let proto_text = match proto {
            Some(p) => p,
            None => String::from_str("-"),
        };
        elements.push(proto_text);
        let mut fromto = match from {
            Some(f) => f,
            None => String::from_str("-"),
        };
        fromto.append(" -> ");
        let to_text = match to {
            Some(t) => t,
            None => String::from_str("-"),
        };
        fromto.append(to_text.as_str());
        elements.push(fromto);
        let size_text = match size {
            Some(s) => s,
            None => String::from_str("-"),
        };
        elements.push(size_text);
        let other_text = match other {
            Some(o) => o,
            None => String::from_str("-"),
        };
        elements.push(other_text);
        ListItem { elements }
    }
}

} // verus!
