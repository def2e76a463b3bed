use vstd::prelude::*;

verus! {

/// A 48-bit hardware (MAC) address, one octet per field, most significant
/// octet first.
#[derive(Clone, Copy, Debug, PartialEq, Eq, Structural)]
pub struct MacAddress(pub u8, pub u8, pub u8, pub u8, pub u8, pub u8);

impl View for MacAddress {
    type V = Seq<u8>;

    open spec fn view(&self) -> Seq<u8> {
        seq![self.0, self.1, self.2, self.3, self.4, self.5]
    }
}

/// An IPv4 address, one octet per field, most significant octet first.
#[derive(Clone, Copy, Debug, PartialEq, Eq, Structural)]
pub struct Ipv4Address(pub u8, pub u8, pub u8, pub u8);

impl View for Ipv4Address {
    type V = Seq<u8>;

    open spec fn view(&self) -> Seq<u8> {
        seq![self.0, self.1, self.2, self.3]
    }
}

/// An IPv6 address as its eight 16-bit groups, most significant group first.
#[derive(Clone, Copy, Debug, PartialEq, Eq, Structural)]
pub struct Ipv6Address(
    pub u16,
    pub u16,
    pub u16,
    pub u16,
    pub u16,
    pub u16,
    pub u16,
    pub u16,
);

impl View for Ipv6Address {
    type V = Seq<u16>;

    open spec fn view(&self) -> Seq<u16> {
        seq![self.0, self.1, self.2, self.3, self.4, self.5, self.6, self.7]
    }
}

/// Display fields of a decoded Ethernet header.
#[derive(Clone, Copy, Debug, PartialEq, Eq, Structural)]
pub struct SerializableEthernetPacket {
    pub destination: MacAddress,
    pub source: MacAddress,
    pub ethertype: u16,
}

/// Display fields of an Ethernet frame whose ethertype names no protocol the
/// decoder knows.
#[derive(Clone, Copy, Debug, PartialEq, Eq, Structural)]
pub struct SerializableUnknownPacket {
    pub destination: MacAddress,
    pub source: MacAddress,
    pub ethertype: u16,
    pub length: usize,
}

/// Display fields of a decoded ARP header.
#[derive(Clone, Copy, Debug, PartialEq, Eq, Structural)]
pub struct SerializableArpPacket {
    pub operation: u16,
    pub sender_hw_addr: MacAddress,
    pub sender_proto_addr: Ipv4Address,
    pub target_hw_addr: MacAddress,
    pub target_proto_addr: Ipv4Address,
}

/// Display fields of a decoded IPv4 header.
#[derive(Clone, Copy, Debug, PartialEq, Eq, Structural)]
pub struct SerializableIpv4Packet {
    pub source: Ipv4Address,
    pub destination: Ipv4Address,
    pub next_level_protocol: u8,
}

/// Display fields of a decoded IPv6 header.
#[derive(Clone, Copy, Debug, PartialEq, Eq, Structural)]
pub struct SerializableIpv6Packet {
    pub source: Ipv6Address,
    pub destination: Ipv6Address,
    pub next_header: u8,
}

/// Display fields of a decoded ICMP echo reply.
#[derive(Clone, Copy, Debug, PartialEq, Eq, Structural)]
pub struct SerializableEchoReplyPacket {
    pub identifier: u16,
    pub sequence_number: u16,
}

/// Display fields of a decoded ICMP echo request.
#[derive(Clone, Copy, Debug, PartialEq, Eq, Structural)]
pub struct SerializableEchoRequestPacket {
    pub identifier: u16,
    pub sequence_number: u16,
}

/// Display fields of a decoded generic ICMP header.
#[derive(Clone, Copy, Debug, PartialEq, Eq, Structural)]
pub struct SerializableIcmpPacket {
    pub icmp_type: u8,
    pub icmp_code: u8,
}

/// Display fields of a decoded ICMPv6 header.
#[derive(Clone, Copy, Debug, PartialEq, Eq, Structural)]
pub struct SerializableIcmpv6Packet {
    pub icmpv6_type: u8,
    pub icmpv6_code: u8,
}

/// Display fields of a decoded TCP header.
#[derive(Clone, Copy, Debug, PartialEq, Eq, Structural)]
pub struct SerializableTcpPacket {
    pub source: u16,
    pub destination: u16,
    pub flags: u8,
}

/// Display fields of a decoded UDP header.
#[derive(Clone, Copy, Debug, PartialEq, Eq, Structural)]
pub struct SerializableUdpPacket {
    pub source: u16,
    pub destination: u16,
    pub length: u16,
}

/// One decoded layer record: a closed tagged variant per recognised
/// protocol, `MalformedPacket` for bytes that did not conform to the layer's
/// structure, and `UnknownPacket` for an unrecognised ethertype.
#[derive(Debug, PartialEq)]
pub enum SerializablePacket {
    EthernetPacket(SerializableEthernetPacket),
    ArpPacket(SerializableArpPacket),
    Ipv4Packet(SerializableIpv4Packet),
    Ipv6Packet(SerializableIpv6Packet),
    EchoReplyPacket(SerializableEchoReplyPacket),
    EchoRequestPacket(SerializableEchoRequestPacket),
    IcmpPacket(SerializableIcmpPacket),
    Icmpv6Packet(SerializableIcmpv6Packet),
    TcpPacket(SerializableTcpPacket),
    UdpPacket(SerializableUdpPacket),
    MalformedPacket(String),
    UnknownPacket(SerializableUnknownPacket),
}

/// The mathematical model of one layer record.
#[verifier::ext_equal]
pub ghost enum PacketModel {
    Ethernet { destination: Seq<u8>, source: Seq<u8>, ethertype: u16 },
    Arp {
        operation: u16,
        sender_hw: Seq<u8>,
        sender_proto: Seq<u8>,
        target_hw: Seq<u8>,
        target_proto: Seq<u8>,
    },
    Ipv4 { source: Seq<u8>, destination: Seq<u8>, next_level_protocol: u8 },
    Ipv6 { source: Seq<u16>, destination: Seq<u16>, next_header: u8 },
    EchoReply { identifier: u16, sequence_number: u16 },
    EchoRequest { identifier: u16, sequence_number: u16 },
    Icmp { icmp_type: u8, icmp_code: u8 },
    Icmpv6 { icmpv6_type: u8, icmpv6_code: u8 },
    Tcp { source: u16, destination: u16, flags: u8 },
    Udp { source: u16, destination: u16, length: u16 },
    Malformed { reason: Seq<char> },
    Unknown { destination: Seq<u8>, source: Seq<u8>, ethertype: u16, length: int },
}

impl View for SerializablePacket {
    type V = PacketModel;

    open spec fn view(&self) -> PacketModel {
        match self {
            SerializablePacket::EthernetPacket(p) => PacketModel::Ethernet {
                destination: p.destination@,
                source: p.source@,
                ethertype: p.ethertype,
            },
            SerializablePacket::ArpPacket(p) => PacketModel::Arp {
                operation: p.operation,
                sender_hw: p.sender_hw_addr@,
                sender_proto: p.sender_proto_addr@,
                target_hw: p.target_hw_addr@,
                target_proto: p.target_proto_addr@,
            },
            SerializablePacket::Ipv4Packet(p) => PacketModel::Ipv4 {
                source: p.source@,
                destination: p.destination@,
                next_level_protocol: p.next_level_protocol,
            },
            SerializablePacket::Ipv6Packet(p) => PacketModel::Ipv6 {
                source: p.source@,
                destination: p.destination@,
                next_header: p.next_header,
            },
            SerializablePacket::EchoReplyPacket(p) => PacketModel::EchoReply {
                identifier: p.identifier,
                sequence_number: p.sequence_number,
            },
            SerializablePacket::EchoRequestPacket(p) => PacketModel::EchoRequest {
                identifier: p.identifier,
                sequence_number: p.sequence_number,
            },
            SerializablePacket::IcmpPacket(p) => PacketModel::Icmp {
                icmp_type: p.icmp_type,
                icmp_code: p.icmp_code,
            },
            SerializablePacket::Icmpv6Packet(p) => PacketModel::Icmpv6 {
                icmpv6_type: p.icmpv6_type,
                icmpv6_code: p.icmpv6_code,
            },
            SerializablePacket::TcpPacket(p) => PacketModel::Tcp {
                source: p.source,
                destination: p.destination,
                flags: p.flags,
            },
            SerializablePacket::UdpPacket(p) => PacketModel::Udp {
                source: p.source,
                destination: p.destination,
                length: p.length,
            },
            SerializablePacket::MalformedPacket(reason) => PacketModel::Malformed {
                reason: reason@,
            },
            SerializablePacket::UnknownPacket(p) => PacketModel::Unknown {
                destination: p.destination@,
                source: p.source@,
                ethertype: p.ethertype,
                length: p.length as int,
            },
        }
    }
}

/// The model of `Option<SerializablePacket>`: the model of the record, if any.
pub open spec fn option_model(o: Option<SerializablePacket>) -> Option<PacketModel> {
    match o {
        Some(p) => Some(p@),
        None => None,
    }
}

/// The mathematical model of one fully decoded frame: the caller-assigned id
/// and the four optional layer records.
#[verifier::ext_equal]
pub ghost struct ParsedPacketModel {
    pub id: int,
    pub link: Option<PacketModel>,
    pub network: Option<PacketModel>,
    pub transport: Option<PacketModel>,
    pub application: Option<PacketModel>,
}

/// One decoded frame: a sequential id and up to four layer records. An empty
/// slot means "not decoded / not applicable", distinct from malformed.
#[derive(Debug, PartialEq)]
pub struct ParsedPacket {
    id: usize,
    link_layer_packet: Option<SerializablePacket>,
    network_layer_packet: Option<SerializablePacket>,
    transport_layer_packet: Option<SerializablePacket>,
    application_layer_packet: Option<SerializablePacket>,
}

impl View for ParsedPacket {
    type V = ParsedPacketModel;

    closed spec fn view(&self) -> ParsedPacketModel {
        ParsedPacketModel {
            id: self.id as int,
            link: option_model(self.link_layer_packet),
            network: option_model(self.network_layer_packet),
            transport: option_model(self.transport_layer_packet),
            application: option_model(self.application_layer_packet),
        }
    }
}

impl ParsedPacket {
    /// A fresh record under the caller-assigned id, all four layer slots
    /// empty.
    pub fn new(id: usize) -> (r: Self)
        ensures
            r@ == (ParsedPacketModel {
                id: id as int,
                link: None,
                network: None,
                transport: None,
                application: None,
            }),
    {
        ParsedPacket {
            id,
            link_layer_packet: None,
            network_layer_packet: None,
            transport_layer_packet: None,
            application_layer_packet: None,
        }
    }

    /// Get packet unique identifier.
    pub fn get_id(&self) -> (r: usize)
        ensures
            r as int == self@.id,
    {
        self.id
    }

    /// Get link layer packet representation.
    pub fn get_link_layer_packet(&self) -> (r: Option<&SerializablePacket>)
        ensures
            match r {
                Some(p) => self@.link == Some(p@),
                None => self@.link is None,
            },
    {
        self.link_layer_packet.as_ref()
    }

    /// Get network layer packet representation.
    pub fn get_network_layer_packet(&self) -> (r: Option<&SerializablePacket>)
        ensures
            match r {
                Some(p) => self@.network == Some(p@),
                None => self@.network is None,
            },
    {
        self.network_layer_packet.as_ref()
    }

    /// Get transport layer packet representation.
    pub fn get_transport_layer_packet(&self) -> (r: Option<&SerializablePacket>)
        ensures
            match r {
                Some(p) => self@.transport == Some(p@),
                None => self@.transport is None,
            },
    {
        self.transport_layer_packet.as_ref()
    }

    /// Get application layer packet representation.
    pub fn get_application_layer_packet(&self) -> (r: Option<&SerializablePacket>)
        ensures
            match r {
                Some(p) => self@.application == Some(p@),
                None => self@.application is None,
            },
    {
        self.application_layer_packet.as_ref()
    }

    /// Set link layer packet representation.
    pub fn set_link_layer_packet(&mut self, link_layer_packet: Option<SerializablePacket>)
        ensures
            final(self)@ == (ParsedPacketModel {
                link: option_model(link_layer_packet),
                ..old(self)@
            }),
    {
        self.link_layer_packet = link_layer_packet;
    }

    /// Set network layer packet representation.
    pub fn set_network_layer_packet(&mut self, network_layer_packet: Option<SerializablePacket>)
        ensures
            final(self)@ == (ParsedPacketModel {
                network: option_model(network_layer_packet),
                ..old(self)@
            }),
    {
        self.network_layer_packet = network_layer_packet;
    }

    /// Set transport layer packet representation.
    pub fn set_transport_layer_packet(
        &mut self,
        transport_layer_packet: Option<SerializablePacket>,
    )
        ensures
            final(self)@ == (ParsedPacketModel {
                transport: option_model(transport_layer_packet),
                ..old(self)@
            }),
    {
        self.transport_layer_packet = transport_layer_packet;
    }

    /// Set application layer packet representation.
    pub fn set_application_layer_packet(
        &mut self,
        application_layer_packet: Option<SerializablePacket>,
    )
        ensures
            final(self)@ == (ParsedPacketModel {
                application: option_model(application_layer_packet),
                ..old(self)@
            }),
    {
        self.application_layer_packet = application_layer_packet;
    }
}

} // verus!
