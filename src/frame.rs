//! The shape of a received or transmitted frame, layer by layer, as the frame
//! codec hands it over: a tagged union of protocol kinds at each layer, with
//! the header fields that the network core reads. Byte-level layout is the
//! codec's business and does not appear here.
use vstd::prelude::*;

verus! {

/// A 48-bit link-layer (MAC) address.
#[derive(Clone, Copy, PartialEq, Eq, Debug)]
pub struct EthernetAddress(pub [u8; 6]);

/// An IPv4 address, held as its 32-bit big-endian value.
#[derive(Clone, Copy, PartialEq, Eq, Structural, Debug)]
pub struct Ipv4Address(pub u32);

/// The 32-bit value of the dotted address `a.b.c.d`.
pub open spec fn ipv4_value(a: u8, b: u8, c: u8, d: u8) -> int {
    a * 0x100_0000 + b * 0x1_0000 + c * 0x100 + d
}

impl Ipv4Address {
    /// The address `a.b.c.d`.
    pub fn new(a: u8, b: u8, c: u8, d: u8) -> (r: Ipv4Address)
        ensures
            r.0 == ipv4_value(a, b, c, d),
    {
        Ipv4Address((a as u32) * 0x100_0000 + (b as u32) * 0x1_0000 + (c as u32) * 0x100 + (d as u32))
    }
}

/// The link-layer header.
#[derive(Clone, Copy, PartialEq, Eq, Debug)]
pub struct EthernetHeader {
    pub dst_addr: EthernetAddress,
    pub src_addr: EthernetAddress,
}

/// A whole link-layer frame.
#[derive(Clone, PartialEq, Eq, Debug)]
pub struct EthernetPacket {
    pub header: EthernetHeader,
    pub payload: EthernetKind,
}

/// What a link-layer frame carries, by its type tag.
#[derive(Clone, PartialEq, Eq, Debug)]
pub enum EthernetKind {
    Ipv4(Ipv4Packet),
    Arp(ArpPacket),
    /// Any other type tag, kept as it was read.
    Unknown(u16),
}

/// The operation of an address-resolution message.
#[derive(Clone, Copy, PartialEq, Eq, Structural, Debug)]
pub enum ArpOperation {
    Request,
    Reply,
}

/// An address-resolution message: who is asking (`src_*`) and about whom (`dst_*`).
#[derive(Clone, Copy, PartialEq, Eq, Debug)]
pub struct ArpPacket {
    pub operation: ArpOperation,
    pub src_mac: EthernetAddress,
    pub src_ip: Ipv4Address,
    pub dst_mac: EthernetAddress,
    pub dst_ip: Ipv4Address,
}

/// The network-layer header.
#[derive(Clone, Copy, PartialEq, Eq, Structural, Debug)]
pub struct Ipv4Header {
    pub src_addr: Ipv4Address,
    pub dst_addr: Ipv4Address,
}

/// A network-layer packet.
#[derive(Clone, PartialEq, Eq, Debug)]
pub struct Ipv4Packet {
    pub header: Ipv4Header,
    pub payload: Ipv4Kind,
}

/// What a network-layer packet carries, by its protocol number.
#[derive(Clone, PartialEq, Eq, Debug)]
pub enum Ipv4Kind {
    Udp(UdpPacket),
    Icmp(IcmpPacket),
    /// Any other protocol number, with the payload bytes.
    Unknown(u8, Vec<u8>),
}

/// The datagram header.
#[derive(Clone, Copy, PartialEq, Eq, Structural, Debug)]
pub struct UdpHeader {
    pub src_port: u16,
    pub dst_port: u16,
}

/// A datagram.
#[derive(Clone, PartialEq, Eq, Debug)]
pub struct UdpPacket {
    pub header: UdpHeader,
    pub payload: UdpKind,
}

/// The application protocols recognised inside a datagram.
#[derive(Clone, PartialEq, Eq, Debug)]
pub enum UdpKind {
    Dhcp(DhcpPacket),
    Dns(DnsPacket),
    /// Anything else, with the payload bytes.
    Unknown(Vec<u8>),
}

/// An address-configuration message.
#[derive(Clone, Copy, PartialEq, Eq, Debug)]
pub struct DhcpPacket {
    /// The client's link address.
    pub mac: EthernetAddress,
    pub transaction_id: u32,
    pub operation: DhcpType,
}

/// The kind of an address-configuration message, with the addresses it names.
#[derive(Clone, Copy, PartialEq, Eq, Structural, Debug)]
pub enum DhcpType {
    Discover,
    Offer { ip: Ipv4Address, dhcp_server_ip: Ipv4Address },
    Request { ip: Ipv4Address, dhcp_server_ip: Ipv4Address },
    Ack { ip: Ipv4Address },
}

/// A name-resolution message.
#[derive(Clone, PartialEq, Eq, Debug)]
pub struct DnsPacket {
    pub id: u16,
    /// Set in answers, clear in queries.
    pub is_response: bool,
    /// The name asked about, where the message carries one.
    pub hostname: Option<String>,
}

/// The kind of a control message.
#[derive(Clone, Copy, PartialEq, Eq, Structural, Debug)]
pub enum IcmpType {
    EchoRequest { id: u16, sequence_number: u16 },
    EchoReply { id: u16, sequence_number: u16 },
    /// Any other message type, kept as it was read.
    Unknown(u8),
}

/// A control message and the data that follows its header.
#[derive(Clone, PartialEq, Eq, Debug)]
pub struct IcmpPacket {
    pub icmp_type: IcmpType,
    pub data: Vec<u8>,
}

} // verus!
