//! The node's network state, kept from one frame to the next.
use vstd::prelude::*;
use std::collections::BTreeMap;
use crate::frame::{EthernetAddress, Ipv4Address};

verus! {

/// The node's addresses and its address-resolution cache.
pub struct NetworkState {
    /// The node's own link address, which its replies announce.
    pub link_address: EthernetAddress,
    /// The address confirmed by an address-configuration Ack; `None` until then.
    pub assigned_address: Option<Ipv4Address>,
    /// The address under negotiation: set by an Offer, cleared by the Ack.
    pub requested_address: Option<Ipv4Address>,
    /// Link address of each IPv4 address heard from, keyed by the address's value.
    pub arp_cache: BTreeMap<u32, EthernetAddress>,
}

/// The mathematical value of a [`NetworkState`].
pub struct NetView {
    pub link: EthernetAddress,
    pub assigned: Option<Ipv4Address>,
    pub requested: Option<Ipv4Address>,
    pub cache: Map<u32, EthernetAddress>,
}

impl View for NetworkState {
    type V = NetView;

    open spec fn view(&self) -> NetView {
        NetView {
            link: self.link_address,
            assigned: self.assigned_address,
            requested: self.requested_address,
            cache: self.arp_cache@,
        }
    }
}

/// What the cache holds for `ip`.
pub open spec fn cached(cache: Map<u32, EthernetAddress>, ip: Ipv4Address) -> Option<
    EthernetAddress,
> {
    if cache.contains_key(ip.0) {
        Some(cache[ip.0])
    } else {
        None
    }
}

impl NetworkState {
    /// The state at start-up: no address, nothing requested, an empty cache.
    pub fn new(link_address: EthernetAddress) -> (r: NetworkState)
        ensures
            r@ == (NetView {
                link: link_address,
                assigned: None,
                requested: None,
                cache: Map::empty(),
            }),
    {
        NetworkState {
            link_address,
            assigned_address: None,
            requested_address: None,
            arp_cache: BTreeMap::new(),
        }
    }

    /// The link address cached for `ip`, if any.
    pub fn lookup(&self, ip: Ipv4Address) -> (r: Option<EthernetAddress>)
        ensures
            r == cached(self@.cache, ip),
    {
        match self.arp_cache.get(&ip.0) {
            Some(mac) => Some(*mac),
            None => None,
        }
    }
}

} // verus!
