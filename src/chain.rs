//! The responder chain and the per-frame entry points.
use vstd::prelude::*;
use crate::frame::EthernetPacket;
use crate::responder::Responder;
use crate::state::{NetView, NetworkState};
use crate::summary::{summarize, summarizes, FrameError, ParseResult};

verus! {

/// The first responder of `rs` that claims frame `f`.
pub open spec fn first_claimant(rs: Seq<Responder>, f: EthernetPacket) -> Option<Responder>
    decreases rs.len(),
{
    if rs.len() == 0 {
        None
    } else if rs[0].claims(f) {
        Some(rs[0])
    } else {
        first_claimant(rs.drop_first(), f)
    }
}

/// The state after responders `rs` have been offered frame `f`.
pub open spec fn chain_next(rs: Seq<Responder>, f: EthernetPacket, s: NetView) -> NetView {
    match first_claimant(rs, f) {
        Some(c) => c.next(f, s),
        None => s,
    }
}

/// `reply` is what responders `rs` answer to frame `f` in state `s`: the
/// claimant's reply, or none where no responder claims the frame.
pub open spec fn chain_replies(
    rs: Seq<Responder>,
    f: EthernetPacket,
    s: NetView,
    reply: Option<EthernetPacket>,
) -> bool {
    match first_claimant(rs, f) {
        Some(c) => c.replies(f, s, reply),
        None => reply is None,
    }
}

/// The node's responders, highest priority first: address configuration,
/// then address resolution, then echo.
pub open spec fn standard_order() -> Seq<Responder> {
    seq![Responder::Dhcp, Responder::Arp, Responder::Icmp]
}

/// An ordered list of responders.
pub struct ResponderChain {
    pub responders: Vec<Responder>,
}

impl ResponderChain {
    /// The node's chain, in [`standard_order`].
    pub fn new() -> (r: ResponderChain)
        ensures
            r.responders@ == standard_order(),
    {
        let mut responders: Vec<Responder> = Vec::new();
        responders.push(Responder::Dhcp);
        responders.push(Responder::Arp);
        responders.push(Responder::Icmp);
        proof {
            assert(responders@ =~= standard_order());
        }
        ResponderChain { responders }
    }

    /// Offers `frame` to the responders in order, up to the first that claims
    /// it, and returns that responder's reply.
    pub fn dispatch(&self, frame: &EthernetPacket, state: &mut NetworkState) -> (r: Option<
        EthernetPacket,
    >)
        ensures
            final(state)@ == chain_next(self.responders@, *frame, old(state)@),
            chain_replies(self.responders@, *frame, old(state)@, r),
    {
        let n = self.responders.len();
        let mut k: usize = 0;
        assert(self.responders@.subrange(0, n as int) =~= self.responders@);
        while k < n
            invariant
                n == self.responders@.len(),
                k <= n,
                state@ == old(state)@,
                first_claimant(self.responders@, *frame) == first_claimant(
                    self.responders@.subrange(k as int, n as int),
                    *frame,
                ),
            decreases n - k,
        {
            let rest = Ghost(self.responders@.subrange(k as int, n as int));
            assert(rest@.drop_first() =~= self.responders@.subrange(k + 1, n as int));
            match self.responders[k].try_handle(frame, state) {
                Some(reply) => {
                    return reply;
                },
                None => {},
            }
            k = k + 1;
        }
        assert(self.responders@.subrange(n as int, n as int).len() == 0);
        None
    }
}

/// The responder of the standard chain that claims frame `f`.
pub open spec fn standard_claimant(f: EthernetPacket) -> Option<Responder> {
    if Responder::Dhcp.claims(f) {
        Some(Responder::Dhcp)
    } else if Responder::Arp.claims(f) {
        Some(Responder::Arp)
    } else if Responder::Icmp.claims(f) {
        Some(Responder::Icmp)
    } else {
        None
    }
}

/// The standard chain hands each frame to [`standard_claimant`].
pub proof fn lemma_standard_claimant(f: EthernetPacket)
    ensures
        first_claimant(standard_order(), f) == standard_claimant(f),
{
    let rs = standard_order();
    assert(rs.drop_first() =~= seq![Responder::Arp, Responder::Icmp]);
    assert(rs.drop_first().drop_first() =~= seq![Responder::Icmp]);
    assert(rs.drop_first().drop_first().drop_first() =~= Seq::<Responder>::empty());
    reveal_with_fuel(first_claimant, 4);
}

/// What the standard chain does with frame `f` in state `s`.
pub open spec fn handled_state(f: EthernetPacket, s: NetView) -> NetView {
    match standard_claimant(f) {
        Some(c) => c.next(f, s),
        None => s,
    }
}

/// `reply` is what the standard chain answers to frame `f` in state `s`.
pub open spec fn handled_reply(f: EthernetPacket, s: NetView, reply: Option<EthernetPacket>) -> bool {
    match standard_claimant(f) {
        Some(c) => c.replies(f, s, reply),
        None => reply is None,
    }
}

/// Handles one frame as the codec parsed it (`None` where the bytes held no
/// valid link-layer header): its summary and the reply to send, if any. A
/// malformed frame is dropped and changes nothing.
pub fn packets(parsed: &Option<EthernetPacket>, state: &mut NetworkState) -> (r: Result<
    (ParseResult, Option<EthernetPacket>),
    FrameError,
>)
    ensures
        *parsed is None ==> r is Err && r->Err_0 == FrameError::MalformedFrame && final(state)@
            == old(state)@,
        *parsed matches Some(f) ==> {
            &&& r matches Ok((summary, reply))
            &&& summarizes(summary, f)
            &&& final(state)@ == handled_state(f, old(state)@)
            &&& handled_reply(f, old(state)@, reply)
        },
{
    match parsed {
        None => Err(FrameError::MalformedFrame),
        Some(frame) => {
            let summary = summarize(frame);
            let chain = ResponderChain::new();
            proof {
                lemma_standard_claimant(*frame);
            }
            let reply = chain.dispatch(frame, state);
            Ok((summary, reply))
        },
    }
}

/// Handles one frame and returns only the reply to send, if any.
pub fn process_one_frame(parsed: &Option<EthernetPacket>, state: &mut NetworkState) -> (r: Option<
    EthernetPacket,
>)
    ensures
        *parsed is None ==> r is None && final(state)@ == old(state)@,
        *parsed matches Some(f) ==> {
            &&& final(state)@ == handled_state(f, old(state)@)
            &&& handled_reply(f, old(state)@, r)
        },
{
    match packets(parsed, state) {
        Ok((_, reply)) => reply,
        Err(_) => None,
    }
}

} // verus!
