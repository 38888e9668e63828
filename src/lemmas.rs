//! Properties of frame handling that span several frames or several responders.
use vstd::prelude::*;
use crate::chain::{first_claimant, handled_reply, handled_state};
use crate::frame::{ArpPacket, DhcpType, EthernetPacket, Ipv4Address};
use crate::responder::{arp_message, dhcp_operation, icmp_message, Responder};
use crate::state::NetView;

verus! {

/// A frame goes to the earliest responder in the chain that claims it: if the
/// responder at position `i` claims `f` and none before it does, it is the
/// claimant, whatever the responders after it would say.
pub proof fn lemma_earliest_claimant_wins(rs: Seq<Responder>, f: EthernetPacket, i: int)
    requires
        0 <= i < rs.len(),
        rs[i].claims(f),
        forall|j: int| 0 <= j < i ==> !(#[trigger] rs[j]).claims(f),
    ensures
        first_claimant(rs, f) == Some(rs[i]),
    decreases i,
{
    if i > 0 {
        assert(!rs[0].claims(f));
        lemma_earliest_claimant_wins(rs.drop_first(), f, i - 1);
    }
}

/// A frame that no responder of the chain claims has no claimant.
pub proof fn lemma_unclaimed_frame(rs: Seq<Responder>, f: EthernetPacket)
    requires
        forall|j: int| 0 <= j < rs.len() ==> !(#[trigger] rs[j]).claims(f),
    ensures
        first_claimant(rs, f) is None,
    decreases rs.len(),
{
    if rs.len() > 0 {
        assert(!rs[0].claims(f));
        lemma_unclaimed_frame(rs.drop_first(), f);
    }
}

/// No frame is claimed by two of the node's responders: a frame carries at
/// most one of an address-configuration, an address-resolution and a control
/// message.
pub proof fn lemma_claims_disjoint(f: EthernetPacket)
    ensures
        !(Responder::Dhcp.claims(f) && Responder::Arp.claims(f)),
        !(Responder::Dhcp.claims(f) && Responder::Icmp.claims(f)),
        !(Responder::Arp.claims(f) && Responder::Icmp.claims(f)),
{
}

/// What the standard chain makes of the cache: a resolution message caches its
/// sender's binding; every other frame leaves the cache as it was.
pub proof fn lemma_cache_after_frame(f: EthernetPacket, s: NetView)
    ensures
        handled_state(f, s).cache == (match arp_message(f) {
            Some(a) => s.cache.insert(a.src_ip.0, a.src_mac),
            None => s.cache,
        }),
{
}

/// The state after the standard chain has handled `frames` in order, from state `s`.
pub open spec fn handled_all(frames: Seq<EthernetPacket>, s: NetView) -> NetView
    decreases frames.len(),
{
    if frames.len() == 0 {
        s
    } else {
        handled_state(frames.last(), handled_all(frames.drop_last(), s))
    }
}

/// The cache keeps the latest binding heard: after a sequence of frames, the
/// cache maps an address to the link address of the last resolution message
/// sent from it; a later message from another address does not disturb it.
pub proof fn lemma_cache_holds_latest_binding(
    frames: Seq<EthernetPacket>,
    s: NetView,
    k: int,
    a: ArpPacket,
)
    requires
        0 <= k < frames.len(),
        arp_message(frames[k]) == Some(a),
        forall|j: int|
            k < j < frames.len() ==> (#[trigger] arp_message(frames[j]) matches Some(b)
                ==> b.src_ip != a.src_ip),
    ensures
        handled_all(frames, s).cache.contains_key(a.src_ip.0),
        handled_all(frames, s).cache[a.src_ip.0] == a.src_mac,
    decreases frames.len(),
{
    let n = frames.len();
    let before = handled_all(frames.drop_last(), s);
    lemma_cache_after_frame(frames.last(), before);
    if k < n - 1 {
        lemma_cache_holds_latest_binding(frames.drop_last(), s, k, a);
        assert(frames.drop_last()[k] == frames[k]);
        assert(arp_message(frames[n - 1]) matches Some(b) ==> b.src_ip != a.src_ip);
    }
}

/// Address configuration from no address: an Offer of `x` makes `x` the
/// requested address and leaves the node without an address; an Ack of `x`
/// that follows makes `x` the node's address.
pub proof fn lemma_offer_then_ack(offer: EthernetPacket, ack: EthernetPacket, s: NetView, x: Ipv4Address)
    requires
        s.assigned is None,
        dhcp_operation(offer) matches Some(DhcpType::Offer { ip, .. }) && ip == x,
        dhcp_operation(ack) == Some(DhcpType::Ack { ip: x }),
    ensures
        handled_state(offer, s).requested == Some(x),
        handled_state(offer, s).assigned is None,
        handled_state(ack, handled_state(offer, s)).assigned == Some(x),
        handled_state(ack, handled_state(offer, s)).requested is None,
{
}

/// A node without an address answers no echo request.
pub proof fn lemma_no_echo_reply_without_address(
    f: EthernetPacket,
    s: NetView,
    reply: Option<EthernetPacket>,
)
    requires
        icmp_message(f) matches Some((h, i)) && i.icmp_type is EchoRequest,
        s.assigned is None,
        handled_reply(f, s, reply),
    ensures
        reply is None,
{
}

} // verus!
