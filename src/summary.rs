//! The per-frame summary: addresses, ports, protocol kind and direction, read
//! off a parsed frame for diagnostics. It is a report, not state.
use vstd::prelude::*;
use crate::frame::{
    DhcpType, EthernetAddress, EthernetKind, EthernetPacket, IcmpType, Ipv4Address, Ipv4Kind,
    UdpKind, ArpOperation,
};

verus! {

/// The protocol a frame was recognised as.
#[derive(Clone, Copy, PartialEq, Eq, Structural, Debug)]
pub enum ParseResultType {
    Unknown,
    ARP,
    DHCP,
    ICMP,
    DNS,
    /// Reserved; no frame is classified as this.
    HTTP,
}

/// Whether a message asks or answers.
#[derive(Clone, Copy, PartialEq, Eq, Structural, Debug)]
pub enum ParseResultDirection {
    Request,
    Response,
}

/// What the frame codec made of the received bytes could not be used.
#[derive(Clone, Copy, PartialEq, Eq, Structural, Debug)]
pub enum FrameError {
    /// No valid link-layer header could be read.
    MalformedFrame,
}

/// The summary of one frame. Fields of a layer that the frame does not carry are `None`.
#[derive(Clone, PartialEq, Eq, Debug)]
pub struct ParseResult {
    pub mac_src: Option<EthernetAddress>,
    pub mac_dst: Option<EthernetAddress>,
    pub ipv4_src: Option<Ipv4Address>,
    pub ipv4_dst: Option<Ipv4Address>,
    pub port_src: Option<u16>,
    pub port_dst: Option<u16>,
    pub pkt_type: ParseResultType,
    pub direction: Option<ParseResultDirection>,
    pub hostname: Option<String>,
}

/// The network source to report: the header's, or the acknowledged address of
/// an address-configuration Ack.
pub open spec fn ipv4_src_of(f: EthernetPacket) -> Option<Ipv4Address> {
    match f.payload {
        EthernetKind::Ipv4(p) => match p.payload {
            Ipv4Kind::Udp(u) => match u.payload {
                UdpKind::Dhcp(d) => match d.operation {
                    DhcpType::Ack { ip } => Some(ip),
                    _ => Some(p.header.src_addr),
                },
                _ => Some(p.header.src_addr),
            },
            _ => Some(p.header.src_addr),
        },
        _ => None,
    }
}

/// The network destination to report: the header's, or the offered address of
/// an address-configuration Offer.
pub open spec fn ipv4_dst_of(f: EthernetPacket) -> Option<Ipv4Address> {
    match f.payload {
        EthernetKind::Ipv4(p) => match p.payload {
            Ipv4Kind::Udp(u) => match u.payload {
                UdpKind::Dhcp(d) => match d.operation {
                    DhcpType::Offer { ip, .. } => Some(ip),
                    _ => Some(p.header.dst_addr),
                },
                _ => Some(p.header.dst_addr),
            },
            _ => Some(p.header.dst_addr),
        },
        _ => None,
    }
}

/// The datagram ports, where the frame carries a datagram.
pub open spec fn ports_of(f: EthernetPacket) -> Option<(u16, u16)> {
    match f.payload {
        EthernetKind::Ipv4(p) => match p.payload {
            Ipv4Kind::Udp(u) => Some((u.header.src_port, u.header.dst_port)),
            _ => None,
        },
        _ => None,
    }
}

/// The protocol tag: from the innermost layer that is recognised.
pub open spec fn kind_of(f: EthernetPacket) -> ParseResultType {
    match f.payload {
        EthernetKind::Ipv4(p) => match p.payload {
            Ipv4Kind::Udp(u) => match u.payload {
                UdpKind::Dhcp(_) => ParseResultType::DHCP,
                UdpKind::Dns(_) => ParseResultType::DNS,
                UdpKind::Unknown(_) => ParseResultType::Unknown,
            },
            Ipv4Kind::Icmp(_) => ParseResultType::ICMP,
            Ipv4Kind::Unknown(..) => ParseResultType::Unknown,
        },
        EthernetKind::Arp(_) => ParseResultType::ARP,
        EthernetKind::Unknown(_) => ParseResultType::Unknown,
    }
}

/// The direction, where the recognised message says whether it asks or answers.
pub open spec fn direction_of(f: EthernetPacket) -> Option<ParseResultDirection> {
    match f.payload {
        EthernetKind::Ipv4(p) => match p.payload {
            Ipv4Kind::Udp(u) => match u.payload {
                UdpKind::Dhcp(d) => match d.operation {
                    DhcpType::Discover => Some(ParseResultDirection::Request),
                    DhcpType::Request { .. } => Some(ParseResultDirection::Request),
                    DhcpType::Offer { .. } => Some(ParseResultDirection::Response),
                    DhcpType::Ack { .. } => Some(ParseResultDirection::Response),
                },
                UdpKind::Dns(d) => if d.is_response {
                    Some(ParseResultDirection::Response)
                } else {
                    Some(ParseResultDirection::Request)
                },
                UdpKind::Unknown(_) => None,
            },
            Ipv4Kind::Icmp(i) => match i.icmp_type {
                IcmpType::EchoRequest { .. } => Some(ParseResultDirection::Request),
                IcmpType::EchoReply { .. } => Some(ParseResultDirection::Response),
                IcmpType::Unknown(_) => None,
            },
            Ipv4Kind::Unknown(..) => None,
        },
        EthernetKind::Arp(a) => match a.operation {
            ArpOperation::Request => Some(ParseResultDirection::Request),
            ArpOperation::Reply => Some(ParseResultDirection::Response),
        },
        EthernetKind::Unknown(_) => None,
    }
}

/// The name that a name-resolution message carries.
pub open spec fn hostname_of(f: EthernetPacket) -> Option<Seq<char>> {
    match f.payload {
        EthernetKind::Ipv4(p) => match p.payload {
            Ipv4Kind::Udp(u) => match u.payload {
                UdpKind::Dns(d) => match d.hostname {
                    Some(h) => Some(h@),
                    None => None,
                },
                _ => None,
            },
            _ => None,
        },
        _ => None,
    }
}

/// `r` is the summary of frame `f`.
pub open spec fn summarizes(r: ParseResult, f: EthernetPacket) -> bool {
    &&& r.mac_src == Some(f.header.src_addr)
    &&& r.mac_dst == Some(f.header.dst_addr)
    &&& r.ipv4_src == ipv4_src_of(f)
    &&& r.ipv4_dst == ipv4_dst_of(f)
    &&& r.port_src == (match ports_of(f) { Some(p) => Some(p.0), None => None })
    &&& r.port_dst == (match ports_of(f) { Some(p) => Some(p.1), None => None })
    &&& r.pkt_type == kind_of(f)
    &&& r.direction == direction_of(f)
    &&& match r.hostname {
        Some(h) => hostname_of(f) == Some(h@),
        None => hostname_of(f) is None,
    }
}

/// The summary of a parsed frame.
pub fn summarize(frame: &EthernetPacket) -> (r: ParseResult)
    ensures
        summarizes(r, *frame),
{
    let mut r = ParseResult {
        mac_src: Some(frame.header.src_addr),
        mac_dst: Some(frame.header.dst_addr),
        ipv4_src: None,
        ipv4_dst: None,
        port_src: None,
        port_dst: None,
        pkt_type: ParseResultType::Unknown,
        direction: None,
        hostname: None,
    };
    match &frame.payload {
        EthernetKind::Ipv4(p) => {
            r.ipv4_src = Some(p.header.src_addr);
            r.ipv4_dst = Some(p.header.dst_addr);
            match &p.payload {
                Ipv4Kind::Udp(u) => {
                    r.port_src = Some(u.header.src_port);
                    r.port_dst = Some(u.header.dst_port);
                    match &u.payload {
                        UdpKind::Dhcp(d) => {
                            r.pkt_type = ParseResultType::DHCP;
                            match d.operation {
                                DhcpType::Discover => {
                                    r.direction = Some(ParseResultDirection::Request);
                                },
                                DhcpType::Request { .. } => {
                                    r.direction = Some(ParseResultDirection::Request);
                                },
                                DhcpType::Offer { ip, .. } => {
                                    r.ipv4_dst = Some(ip);
                                    r.direction = Some(ParseResultDirection::Response);
                                },
                                DhcpType::Ack { ip } => {
                                    r.ipv4_src = Some(ip);
                                    r.direction = Some(ParseResultDirection::Response);
                                },
                            }
                        },
                        UdpKind::Dns(d) => {
                            r.pkt_type = ParseResultType::DNS;
                            r.direction = if d.is_response {
                                Some(ParseResultDirection::Response)
                            } else {
                                Some(ParseResultDirection::Request)
                            };
                            r.hostname = match &d.hostname {
                                Some(h) => Some(h.clone()),
                                None => None,
                            };
                        },
                        UdpKind::Unknown(_) => {},
                    }
                },
                Ipv4Kind::Icmp(i) => {
                    r.pkt_type = ParseResultType::ICMP;
                    match i.icmp_type {
                        IcmpType::EchoRequest { .. } => {
                            r.direction = Some(ParseResultDirection::Request);
                        },
                        IcmpType::EchoReply { .. } => {
                            r.direction = Some(ParseResultDirection::Response);
                        },
                        IcmpType::Unknown(_) => {},
                    }
                },
                Ipv4Kind::Unknown(..) => {},
            }
        },
        EthernetKind::Arp(a) => {
            r.pkt_type = ParseResultType::ARP;
            r.direction = match a.operation {
                ArpOperation::Request => Some(ParseResultDirection::Request),
                ArpOperation::Reply => Some(ParseResultDirection::Response),
            };
        },
        EthernetKind::Unknown(_) => {},
    }
    r
}

/// Classifies what the frame codec made of the received bytes (`None` where it
/// could not read a link-layer header): the frame's summary, or `MalformedFrame`.
pub fn classify(parsed: &Option<EthernetPacket>) -> (r: Result<ParseResult, FrameError>)
    ensures
        *parsed is None <==> r == Err::<ParseResult, FrameError>(FrameError::MalformedFrame),
        *parsed matches Some(f) ==> (r matches Ok(s) && summarizes(s, f)),
{
    match parsed {
        Some(f) => Ok(summarize(f)),
        None => Err(FrameError::MalformedFrame),
    }
}

} // verus!
