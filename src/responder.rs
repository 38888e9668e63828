//! The protocol responders and the chain that offers each frame to them in
//! priority order. A responder either passes a frame on or claims it; a claim
//! may change the network state and may produce one reply frame.
use vstd::prelude::*;
use crate::frame::{
    ArpOperation, ArpPacket, DhcpType, EthernetHeader, EthernetKind, EthernetPacket, IcmpPacket,
    IcmpType, Ipv4Header, Ipv4Kind, Ipv4Packet, UdpKind,
};
use crate::state::{cached, NetView, NetworkState};

verus! {

/// The address-configuration message that a frame carries.
pub open spec fn dhcp_operation(f: EthernetPacket) -> Option<DhcpType> {
    match f.payload {
        EthernetKind::Ipv4(p) => match p.payload {
            Ipv4Kind::Udp(u) => match u.payload {
                UdpKind::Dhcp(d) => Some(d.operation),
                _ => None,
            },
            _ => None,
        },
        _ => None,
    }
}

/// The address-resolution message that a frame carries.
pub open spec fn arp_message(f: EthernetPacket) -> Option<ArpPacket> {
    match f.payload {
        EthernetKind::Arp(a) => Some(a),
        _ => None,
    }
}

/// The control message that a frame carries, with its network header.
pub open spec fn icmp_message(f: EthernetPacket) -> Option<(Ipv4Header, IcmpPacket)> {
    match f.payload {
        EthernetKind::Ipv4(p) => match p.payload {
            Ipv4Kind::Icmp(i) => Some((p.header, i)),
            _ => None,
        },
        _ => None,
    }
}

/// The state after an address-configuration message: an Offer records the
/// offered address as requested; an Ack makes the acknowledged address the
/// node's own and ends the request; other messages change nothing.
pub open spec fn dhcp_next(op: DhcpType, s: NetView) -> NetView {
    match op {
        DhcpType::Offer { ip, .. } => NetView { requested: Some(ip), ..s },
        DhcpType::Ack { ip } => NetView { assigned: Some(ip), requested: None, ..s },
        _ => s,
    }
}

/// The state after an address-resolution message: the sender's binding is cached.
pub open spec fn arp_next(a: ArpPacket, s: NetView) -> NetView {
    NetView { cache: s.cache.insert(a.src_ip.0, a.src_mac), ..s }
}

/// Whether `a` is a resolution request for the node's assigned address.
pub open spec fn asks_for_node(a: ArpPacket, s: NetView) -> bool {
    a.operation == ArpOperation::Request && s.assigned == Some(a.dst_ip)
}

/// The reply to resolution request `a`: the node's link address, announced to the asker.
pub open spec fn arp_reply(a: ArpPacket, s: NetView) -> EthernetPacket {
    EthernetPacket {
        header: EthernetHeader { dst_addr: a.src_mac, src_addr: s.link },
        payload: EthernetKind::Arp(
            ArpPacket {
                operation: ArpOperation::Reply,
                src_mac: s.link,
                src_ip: a.dst_ip,
                dst_mac: a.src_mac,
                dst_ip: a.src_ip,
            },
        ),
    }
}

/// Whether an echo request with network header `h` gets an answer in state `s`:
/// it is addressed to the node's assigned address and its sender's link
/// address is cached.
pub open spec fn echo_answerable(h: Ipv4Header, i: IcmpPacket, s: NetView) -> bool {
    &&& i.icmp_type is EchoRequest
    &&& s.assigned == Some(h.dst_addr)
    &&& s.cache.contains_key(h.src_addr.0)
}

/// `reply` is the echo reply to request `i` with network header `h`: sent to
/// the cached link address of the sender, with the request's identifier,
/// sequence number and data.
pub open spec fn is_echo_reply(reply: EthernetPacket, h: Ipv4Header, i: IcmpPacket, s: NetView) -> bool {
    &&& reply.header == (EthernetHeader { dst_addr: s.cache[h.src_addr.0], src_addr: s.link })
    &&& reply.payload matches EthernetKind::Ipv4(p)
    &&& p.header == (Ipv4Header { src_addr: h.dst_addr, dst_addr: h.src_addr })
    &&& p.payload matches Ipv4Kind::Icmp(r)
    &&& r.icmp_type == (IcmpType::EchoReply {
        id: i.icmp_type->EchoRequest_id,
        sequence_number: i.icmp_type->EchoRequest_sequence_number,
    })
    &&& r.data@ == i.data@
}

/// A protocol responder.
#[derive(Clone, Copy, PartialEq, Eq, Structural, Debug)]
pub enum Responder {
    /// Address configuration: follows Offer and Ack.
    Dhcp,
    /// Address resolution: learns bindings, answers requests for the node.
    Arp,
    /// Echo: answers echo requests to the node.
    Icmp,
}

impl Responder {
    /// Whether this responder claims frame `f`.
    pub open spec fn claims(self, f: EthernetPacket) -> bool {
        match self {
            Responder::Dhcp => dhcp_operation(f) is Some,
            Responder::Arp => arp_message(f) is Some,
            Responder::Icmp => icmp_message(f) is Some,
        }
    }

    /// The state after this responder has handled frame `f`, which it claims.
    pub open spec fn next(self, f: EthernetPacket, s: NetView) -> NetView {
        match self {
            Responder::Dhcp => dhcp_next(dhcp_operation(f)->0, s),
            Responder::Arp => arp_next(arp_message(f)->0, s),
            Responder::Icmp => s,
        }
    }

    /// `reply` is what this responder answers to frame `f`, which it claims, in state `s`.
    pub open spec fn replies(self, f: EthernetPacket, s: NetView, reply: Option<EthernetPacket>) -> bool {
        match self {
            Responder::Dhcp => reply is None,
            Responder::Arp => {
                let a = arp_message(f)->0;
                if asks_for_node(a, s) {
                    reply == Some(arp_reply(a, s))
                } else {
                    reply is None
                }
            },
            Responder::Icmp => {
                let (h, i) = icmp_message(f)->0;
                if echo_answerable(h, i, s) {
                    reply matches Some(r) && is_echo_reply(r, h, i, s)
                } else {
                    reply is None
                }
            },
        }
    }

    /// Offers `frame` to this responder: `None` if it passes the frame on,
    /// otherwise the reply it produced, if any.
    pub fn try_handle(&self, frame: &EthernetPacket, state: &mut NetworkState) -> (r: Option<
        Option<EthernetPacket>,
    >)
        ensures
            r is None <==> !self.claims(*frame),
            r is None ==> final(state)@ == old(state)@,
            r matches Some(reply) ==> {
                &&& final(state)@ == self.next(*frame, old(state)@)
                &&& self.replies(*frame, old(state)@, reply)
            },
    {
        match self {
            Responder::Dhcp => try_handle_dhcp(frame, state),
            Responder::Arp => try_handle_arp(frame, state),
            Responder::Icmp => try_handle_icmp(frame, state),
        }
    }
}

fn try_handle_dhcp(frame: &EthernetPacket, state: &mut NetworkState) -> (r: Option<
    Option<EthernetPacket>,
>)
    ensures
        r is None <==> dhcp_operation(*frame) is None,
        r is None ==> final(state)@ == old(state)@,
        r is Some ==> r == Some(None::<EthernetPacket>) && final(state)@ == dhcp_next(
            dhcp_operation(*frame)->0,
            old(state)@,
        ),
{
    let op = match &frame.payload {
        EthernetKind::Ipv4(p) => match &p.payload {
            Ipv4Kind::Udp(u) => match &u.payload {
                UdpKind::Dhcp(d) => d.operation,
                _ => {
                    return None;
                },
            },
            _ => {
                return None;
            },
        },
        _ => {
            return None;
        },
    };
    match op {
        DhcpType::Offer { ip, .. } => {
            state.requested_address = Some(ip);
        },
        DhcpType::Ack { ip } => {
            state.assigned_address = Some(ip);
            state.requested_address = None;
        },
        _ => {},
    }
    Some(None)
}

fn try_handle_arp(frame: &EthernetPacket, state: &mut NetworkState) -> (r: Option<
    Option<EthernetPacket>,
>)
    ensures
        r is None <==> arp_message(*frame) is None,
        r is None ==> final(state)@ == old(state)@,
        r matches Some(reply) ==> {
            &&& final(state)@ == arp_next(arp_message(*frame)->0, old(state)@)
            &&& Responder::Arp.replies(*frame, old(state)@, reply)
        },
{
    let a = match &frame.payload {
        EthernetKind::Arp(a) => *a,
        _ => {
            return None;
        },
    };
    state.arp_cache.insert(a.src_ip.0, a.src_mac);
    let asked = match (a.operation, state.assigned_address) {
        (ArpOperation::Request, Some(own)) => own.0 == a.dst_ip.0,
        _ => false,
    };
    if !asked {
        return Some(None);
    }
    let link = state.link_address;
    Some(
        Some(
            EthernetPacket {
                header: EthernetHeader { dst_addr: a.src_mac, src_addr: link },
                payload: EthernetKind::Arp(
                    ArpPacket {
                        operation: ArpOperation::Reply,
                        src_mac: link,
                        src_ip: a.dst_ip,
                        dst_mac: a.src_mac,
                        dst_ip: a.src_ip,
                    },
                ),
            },
        ),
    )
}

fn try_handle_icmp(frame: &EthernetPacket, state: &mut NetworkState) -> (r: Option<
    Option<EthernetPacket>,
>)
    ensures
        r is None <==> icmp_message(*frame) is None,
        final(state)@ == old(state)@,
        r matches Some(reply) ==> Responder::Icmp.replies(*frame, old(state)@, reply),
{
    let (h, i) = match &frame.payload {
        EthernetKind::Ipv4(p) => match &p.payload {
            Ipv4Kind::Icmp(i) => (p.header, i),
            _ => {
                return None;
            },
        },
        _ => {
            return None;
        },
    };
    let (id, sequence_number) = match i.icmp_type {
        IcmpType::EchoRequest { id, sequence_number } => (id, sequence_number),
        _ => {
            return Some(None);
        },
    };
    let addressed = match state.assigned_address {
        Some(own) => own.0 == h.dst_addr.0,
        None => false,
    };
    if !addressed {
        return Some(None);
    }
    let dst_mac = match state.lookup(h.src_addr) {
        Some(mac) => mac,
        None => {
            return Some(None);
        },
    };
    let data = i.data.clone();
    Some(
        Some(
            EthernetPacket {
                header: EthernetHeader { dst_addr: dst_mac, src_addr: state.link_address },
                payload: EthernetKind::Ipv4(
                    Ipv4Packet {
                        header: Ipv4Header { src_addr: h.dst_addr, dst_addr: h.src_addr },
                        payload: Ipv4Kind::Icmp(
                            IcmpPacket {
                                icmp_type: IcmpType::EchoReply { id, sequence_number },
                                data,
                            },
                        ),
                    },
                ),
            },
        ),
    )
}

} // verus!
