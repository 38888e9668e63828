use disco_core::chain::{packets, process_one_frame, ResponderChain};
use disco_core::frame::{
    ArpOperation, ArpPacket, DhcpPacket, DhcpType, DnsPacket, EthernetAddress, EthernetHeader,
    EthernetKind, EthernetPacket, IcmpPacket, IcmpType, Ipv4Address, Ipv4Header, Ipv4Kind,
    Ipv4Packet, UdpHeader, UdpKind, UdpPacket,
};
use disco_core::responder::Responder;
use disco_core::state::NetworkState;
use disco_core::summary::{classify, FrameError, ParseResultDirection, ParseResultType};

const OWN_MAC: EthernetAddress = EthernetAddress([0x00, 0x08, 0xdc, 0xab, 0xcd, 0xef]);
const PEER_MAC: EthernetAddress = EthernetAddress([0xAA, 0xBB, 0xCC, 0xDD, 0xEE, 0xFF]);
const BROADCAST: EthernetAddress = EthernetAddress([0xff; 6]);

fn ip(a: u8, b: u8, c: u8, d: u8) -> Ipv4Address {
    Ipv4Address::new(a, b, c, d)
}

fn udp_frame(src: Ipv4Address, dst: Ipv4Address, ports: (u16, u16), payload: UdpKind) -> EthernetPacket {
    EthernetPacket {
        header: EthernetHeader { dst_addr: OWN_MAC, src_addr: PEER_MAC },
        payload: EthernetKind::Ipv4(Ipv4Packet {
            header: Ipv4Header { src_addr: src, dst_addr: dst },
            payload: Ipv4Kind::Udp(UdpPacket {
                header: UdpHeader { src_port: ports.0, dst_port: ports.1 },
                payload,
            }),
        }),
    }
}

fn dhcp_frame(operation: DhcpType) -> EthernetPacket {
    udp_frame(
        ip(10, 0, 0, 1),
        ip(255, 255, 255, 255),
        (67, 68),
        UdpKind::Dhcp(DhcpPacket { mac: OWN_MAC, transaction_id: 0x1234, operation }),
    )
}

fn offer(addr: Ipv4Address) -> EthernetPacket {
    dhcp_frame(DhcpType::Offer { ip: addr, dhcp_server_ip: ip(10, 0, 0, 1) })
}

fn ack(addr: Ipv4Address) -> EthernetPacket {
    dhcp_frame(DhcpType::Ack { ip: addr })
}

fn arp_frame(operation: ArpOperation, src_mac: EthernetAddress, src_ip: Ipv4Address, dst_ip: Ipv4Address) -> EthernetPacket {
    EthernetPacket {
        header: EthernetHeader { dst_addr: BROADCAST, src_addr: src_mac },
        payload: EthernetKind::Arp(ArpPacket {
            operation,
            src_mac,
            src_ip,
            dst_mac: EthernetAddress([0; 6]),
            dst_ip,
        }),
    }
}

fn echo_request(src: Ipv4Address, dst: Ipv4Address, data: Vec<u8>) -> EthernetPacket {
    EthernetPacket {
        header: EthernetHeader { dst_addr: OWN_MAC, src_addr: PEER_MAC },
        payload: EthernetKind::Ipv4(Ipv4Packet {
            header: Ipv4Header { src_addr: src, dst_addr: dst },
            payload: Ipv4Kind::Icmp(IcmpPacket {
                icmp_type: IcmpType::EchoRequest { id: 7, sequence_number: 3 },
                data,
            }),
        }),
    }
}

#[test]
fn ipv4_address_from_octets() {
    assert_eq!(ip(10, 0, 0, 5), Ipv4Address(0x0a00_0005));
    assert_eq!(ip(192, 168, 1, 255), Ipv4Address(0xc0a8_01ff));
}

#[test]
fn malformed_frame_is_reported_and_changes_nothing() {
    assert_eq!(classify(&None).unwrap_err(), FrameError::MalformedFrame);
    let mut state = NetworkState::new(OWN_MAC);
    state.assigned_address = Some(ip(10, 0, 0, 5));
    assert!(matches!(packets(&None, &mut state), Err(FrameError::MalformedFrame)));
    assert_eq!(process_one_frame(&None, &mut state), None);
    assert_eq!(state.assigned_address, Some(ip(10, 0, 0, 5)));
    assert_eq!(state.requested_address, None);
    assert!(state.arp_cache.is_empty());
}

#[test]
fn classify_dhcp_offer_reports_offered_address_as_destination() {
    let s = classify(&Some(offer(ip(10, 0, 0, 5)))).unwrap();
    assert_eq!(s.pkt_type, ParseResultType::DHCP);
    assert_eq!(s.mac_src, Some(PEER_MAC));
    assert_eq!(s.mac_dst, Some(OWN_MAC));
    assert_eq!(s.ipv4_src, Some(ip(10, 0, 0, 1)));
    assert_eq!(s.ipv4_dst, Some(ip(10, 0, 0, 5)));
    assert_eq!(s.port_src, Some(67));
    assert_eq!(s.port_dst, Some(68));
    assert_eq!(s.direction, Some(ParseResultDirection::Response));
    assert_eq!(s.hostname, None);
}

#[test]
fn classify_dhcp_ack_reports_acknowledged_address_as_source() {
    let s = classify(&Some(ack(ip(10, 0, 0, 5)))).unwrap();
    assert_eq!(s.pkt_type, ParseResultType::DHCP);
    assert_eq!(s.ipv4_src, Some(ip(10, 0, 0, 5)));
    assert_eq!(s.ipv4_dst, Some(ip(255, 255, 255, 255)));
}

#[test]
fn classify_dhcp_discover_is_a_request() {
    let s = classify(&Some(dhcp_frame(DhcpType::Discover))).unwrap();
    assert_eq!(s.pkt_type, ParseResultType::DHCP);
    assert_eq!(s.direction, Some(ParseResultDirection::Request));
    assert_eq!(s.ipv4_src, Some(ip(10, 0, 0, 1)));
}

#[test]
fn classify_arp_has_no_network_fields() {
    let f = arp_frame(ArpOperation::Request, PEER_MAC, ip(9, 9, 9, 9), ip(10, 0, 0, 5));
    let s = classify(&Some(f)).unwrap();
    assert_eq!(s.pkt_type, ParseResultType::ARP);
    assert_eq!(s.mac_src, Some(PEER_MAC));
    assert_eq!(s.mac_dst, Some(BROADCAST));
    assert_eq!(s.ipv4_src, None);
    assert_eq!(s.ipv4_dst, None);
    assert_eq!(s.port_src, None);
    assert_eq!(s.direction, Some(ParseResultDirection::Request));
}

#[test]
fn classify_icmp_skips_transport_fields() {
    let s = classify(&Some(echo_request(ip(9, 9, 9, 9), ip(10, 0, 0, 5), vec![1, 2]))).unwrap();
    assert_eq!(s.pkt_type, ParseResultType::ICMP);
    assert_eq!(s.ipv4_src, Some(ip(9, 9, 9, 9)));
    assert_eq!(s.ipv4_dst, Some(ip(10, 0, 0, 5)));
    assert_eq!(s.port_src, None);
    assert_eq!(s.port_dst, None);
    assert_eq!(s.direction, Some(ParseResultDirection::Request));
}

#[test]
fn classify_dns_carries_hostname() {
    let dns = DnsPacket { id: 1, is_response: true, hostname: Some(String::from("example.org")) };
    let f = udp_frame(ip(8, 8, 8, 8), ip(10, 0, 0, 5), (53, 4000), UdpKind::Dns(dns));
    let s = classify(&Some(f)).unwrap();
    assert_eq!(s.pkt_type, ParseResultType::DNS);
    assert_eq!(s.hostname, Some(String::from("example.org")));
    assert_eq!(s.direction, Some(ParseResultDirection::Response));
    assert_eq!(s.port_src, Some(53));
}

#[test]
fn classify_unknown_kinds() {
    let f = udp_frame(ip(1, 1, 1, 1), ip(2, 2, 2, 2), (1000, 2000), UdpKind::Unknown(vec![0xde, 0xad]));
    let s = classify(&Some(f)).unwrap();
    assert_eq!(s.pkt_type, ParseResultType::Unknown);
    assert_eq!(s.port_dst, Some(2000));
    assert_eq!(s.direction, None);

    let f = EthernetPacket {
        header: EthernetHeader { dst_addr: OWN_MAC, src_addr: PEER_MAC },
        payload: EthernetKind::Unknown(0x86dd),
    };
    let s = classify(&Some(f)).unwrap();
    assert_eq!(s.pkt_type, ParseResultType::Unknown);
    assert_eq!(s.ipv4_src, None);
    assert_eq!(s.mac_src, Some(PEER_MAC));

    let f = EthernetPacket {
        header: EthernetHeader { dst_addr: OWN_MAC, src_addr: PEER_MAC },
        payload: EthernetKind::Ipv4(Ipv4Packet {
            header: Ipv4Header { src_addr: ip(1, 1, 1, 1), dst_addr: ip(2, 2, 2, 2) },
            payload: Ipv4Kind::Unknown(6, vec![]),
        }),
    };
    let s = classify(&Some(f)).unwrap();
    assert_eq!(s.pkt_type, ParseResultType::Unknown);
    assert_eq!(s.ipv4_dst, Some(ip(2, 2, 2, 2)));
    assert_eq!(s.port_src, None);
}

#[test]
fn standard_chain_order() {
    let chain = ResponderChain::new();
    assert_eq!(chain.responders, vec![Responder::Dhcp, Responder::Arp, Responder::Icmp]);
}

#[test]
fn chain_stops_at_first_claimant() {
    // Two address-resolution responders: only the first one is offered the frame,
    // so a request is answered once and the state is updated once.
    let chain = ResponderChain { responders: vec![Responder::Icmp, Responder::Arp, Responder::Arp] };
    let mut state = NetworkState::new(OWN_MAC);
    state.assigned_address = Some(ip(10, 0, 0, 5));
    let f = arp_frame(ArpOperation::Request, PEER_MAC, ip(9, 9, 9, 9), ip(10, 0, 0, 5));
    let reply = chain.dispatch(&f, &mut state);
    assert!(reply.is_some());
    assert_eq!(state.arp_cache.len(), 1);
}

#[test]
fn unclaimed_frame_changes_nothing() {
    let chain = ResponderChain { responders: vec![Responder::Dhcp, Responder::Icmp] };
    let mut state = NetworkState::new(OWN_MAC);
    let f = arp_frame(ArpOperation::Request, PEER_MAC, ip(9, 9, 9, 9), ip(10, 0, 0, 5));
    assert_eq!(chain.dispatch(&f, &mut state), None);
    assert!(state.arp_cache.is_empty());
}

#[test]
fn responder_passes_frames_of_other_protocols() {
    let mut state = NetworkState::new(OWN_MAC);
    let f = arp_frame(ArpOperation::Request, PEER_MAC, ip(9, 9, 9, 9), ip(10, 0, 0, 5));
    assert_eq!(Responder::Dhcp.try_handle(&f, &mut state), None);
    assert_eq!(Responder::Icmp.try_handle(&f, &mut state), None);
    assert!(state.arp_cache.is_empty());
    assert_eq!(Responder::Arp.try_handle(&f, &mut state), Some(None));
    assert_eq!(state.lookup(ip(9, 9, 9, 9)), Some(PEER_MAC));
}

#[test]
fn arp_cache_keeps_latest_binding() {
    let mut state = NetworkState::new(OWN_MAC);
    let a = ip(9, 9, 9, 9);
    let b = ip(9, 9, 9, 10);
    let l1 = EthernetAddress([1, 1, 1, 1, 1, 1]);
    let l2 = EthernetAddress([2, 2, 2, 2, 2, 2]);
    let l3 = EthernetAddress([3, 3, 3, 3, 3, 3]);
    process_one_frame(&Some(arp_frame(ArpOperation::Request, l1, a, ip(10, 0, 0, 7))), &mut state);
    assert_eq!(state.lookup(a), Some(l1));
    process_one_frame(&Some(arp_frame(ArpOperation::Request, l1, a, ip(10, 0, 0, 7))), &mut state);
    assert_eq!(state.lookup(a), Some(l1));
    process_one_frame(&Some(arp_frame(ArpOperation::Request, l3, b, ip(10, 0, 0, 7))), &mut state);
    assert_eq!(state.lookup(a), Some(l1));
    process_one_frame(&Some(arp_frame(ArpOperation::Reply, l2, a, ip(10, 0, 0, 7))), &mut state);
    assert_eq!(state.lookup(a), Some(l2));
    assert_eq!(state.lookup(b), Some(l3));
    assert_eq!(state.lookup(ip(9, 9, 9, 11)), None);
}

#[test]
fn arp_request_for_other_address_gets_no_reply() {
    let mut state = NetworkState::new(OWN_MAC);
    state.assigned_address = Some(ip(10, 0, 0, 5));
    let f = arp_frame(ArpOperation::Request, PEER_MAC, ip(9, 9, 9, 9), ip(10, 0, 0, 6));
    assert_eq!(process_one_frame(&Some(f), &mut state), None);
    assert_eq!(state.lookup(ip(9, 9, 9, 9)), Some(PEER_MAC));
}

#[test]
fn arp_request_before_address_gets_no_reply() {
    let mut state = NetworkState::new(OWN_MAC);
    let f = arp_frame(ArpOperation::Request, PEER_MAC, ip(9, 9, 9, 9), ip(10, 0, 0, 5));
    assert_eq!(process_one_frame(&Some(f), &mut state), None);
    assert_eq!(state.lookup(ip(9, 9, 9, 9)), Some(PEER_MAC));
}

#[test]
fn dhcp_offer_then_ack() {
    let x = ip(10, 0, 0, 5);
    let mut state = NetworkState::new(OWN_MAC);
    assert_eq!(process_one_frame(&Some(offer(x)), &mut state), None);
    assert_eq!(state.requested_address, Some(x));
    assert_eq!(state.assigned_address, None);
    assert_eq!(process_one_frame(&Some(ack(x)), &mut state), None);
    assert_eq!(state.assigned_address, Some(x));
    assert_eq!(state.requested_address, None);
}

#[test]
fn dhcp_later_offer_overwrites_request() {
    let mut state = NetworkState::new(OWN_MAC);
    process_one_frame(&Some(offer(ip(10, 0, 0, 5))), &mut state);
    process_one_frame(&Some(offer(ip(10, 0, 0, 9))), &mut state);
    assert_eq!(state.requested_address, Some(ip(10, 0, 0, 9)));
    assert_eq!(state.assigned_address, None);
}

#[test]
fn dhcp_other_messages_are_claimed_silently() {
    let mut state = NetworkState::new(OWN_MAC);
    let f = dhcp_frame(DhcpType::Request { ip: ip(10, 0, 0, 5), dhcp_server_ip: ip(10, 0, 0, 1) });
    assert_eq!(Responder::Dhcp.try_handle(&f, &mut state), Some(None));
    assert_eq!(state.requested_address, None);
    assert_eq!(state.assigned_address, None);
}

#[test]
fn echo_request_without_address_gets_no_reply() {
    let mut state = NetworkState::new(OWN_MAC);
    let f = echo_request(ip(9, 9, 9, 9), ip(10, 0, 0, 5), vec![1, 2, 3]);
    assert_eq!(process_one_frame(&Some(f), &mut state), None);
}

#[test]
fn echo_request_from_uncached_sender_gets_no_reply() {
    let mut state = NetworkState::new(OWN_MAC);
    state.assigned_address = Some(ip(10, 0, 0, 5));
    let f = echo_request(ip(9, 9, 9, 9), ip(10, 0, 0, 5), vec![1, 2, 3]);
    assert_eq!(process_one_frame(&Some(f), &mut state), None);
}

#[test]
fn end_to_end_scenario() {
    let node = ip(10, 0, 0, 5);
    let peer = ip(9, 9, 9, 9);
    let mut state = NetworkState::new(OWN_MAC);

    assert_eq!(process_one_frame(&Some(offer(node)), &mut state), None);
    assert_eq!(state.requested_address, Some(node));

    assert_eq!(process_one_frame(&Some(ack(node)), &mut state), None);
    assert_eq!(state.assigned_address, Some(node));

    let reply = process_one_frame(&Some(arp_frame(ArpOperation::Request, PEER_MAC, peer, node)), &mut state);
    assert_eq!(state.lookup(peer), Some(PEER_MAC));
    assert_eq!(
        reply,
        Some(EthernetPacket {
            header: EthernetHeader { dst_addr: PEER_MAC, src_addr: OWN_MAC },
            payload: EthernetKind::Arp(ArpPacket {
                operation: ArpOperation::Reply,
                src_mac: OWN_MAC,
                src_ip: node,
                dst_mac: PEER_MAC,
                dst_ip: peer,
            }),
        })
    );

    let (summary, reply) = packets(&Some(echo_request(peer, node, vec![0xca, 0xfe])), &mut state).unwrap();
    assert_eq!(summary.pkt_type, ParseResultType::ICMP);
    assert_eq!(
        reply,
        Some(EthernetPacket {
            header: EthernetHeader { dst_addr: PEER_MAC, src_addr: OWN_MAC },
            payload: EthernetKind::Ipv4(Ipv4Packet {
                header: Ipv4Header { src_addr: node, dst_addr: peer },
                payload: Ipv4Kind::Icmp(IcmpPacket {
                    icmp_type: IcmpType::EchoReply { id: 7, sequence_number: 3 },
                    data: vec![0xca, 0xfe],
                }),
            }),
        })
    );
}

#[test]
fn echo_reply_goes_to_cached_link_address() {
    let node = ip(10, 0, 0, 5);
    let peer = ip(9, 9, 9, 9);
    let cached = EthernetAddress([0x02, 0, 0, 0, 0, 0x42]);
    let mut state = NetworkState::new(OWN_MAC);
    state.assigned_address = Some(node);
    process_one_frame(&Some(arp_frame(ArpOperation::Reply, cached, peer, node)), &mut state);
    let reply = process_one_frame(&Some(echo_request(peer, node, vec![])), &mut state).unwrap();
    assert_eq!(reply.header, EthernetHeader { dst_addr: cached, src_addr: OWN_MAC });
}
