//! The link layer: what an Ethernet card sends and which incoming frames it
//! keeps, and where a switch floods a frame that came in on one of its ports.
use vstd::prelude::*;

use crate::core_actor::Uuid;
use crate::endpoint::OnReceiveRaw;
use crate::format::{EthernetFrame, EthernetFrameType, MacAddr};

verus! {

/// A frame an Ethernet card kept, with the endpoint it came in on.
#[derive(Debug)]
pub struct OnReceive {
    pub payload: EthernetFrame,
    pub dst: Uuid,
}

/// What an Ethernet card decides by: its own hardware address, and whether it
/// keeps every frame whatever its destination.
#[derive(Debug, Clone, Copy)]
pub struct EthernetCardActorState {
    pub mac: MacAddr,
    pub is_promiscuous: bool,
}

/// Whether a card with address `mac` keeps a frame addressed to `dst`.
pub open spec fn accepts(mac: MacAddr, is_promiscuous: bool, dst: MacAddr) -> bool {
    dst == mac || dst.is_broadcast_spec() || is_promiscuous
}

impl EthernetCardActorState {
    pub fn new(mac: MacAddr, is_promiscuous: bool) -> (s: EthernetCardActorState)
        ensures
            s.mac == mac,
            s.is_promiscuous == is_promiscuous,
    {
        EthernetCardActorState { mac, is_promiscuous }
    }

    /// The frame the card puts on the wire to send `payload` to `dst`.
    pub fn outgoing(&self, dst: MacAddr, payload: EthernetFrameType) -> (f: EthernetFrame)
        ensures
            f == (EthernetFrame { src: self.mac, dst, payload }),
    {
        EthernetFrame::new(self.mac, dst, payload)
    }

    /// A frame came in on endpoint `onr.dst`: the card keeps it when it is
    /// addressed to the card, is broadcast, or the card is promiscuous.
    pub fn accept(&self, onr: OnReceiveRaw) -> (kept: Option<OnReceive>)
        ensures
            accepts(self.mac, self.is_promiscuous, onr.payload.dst) ==> kept == Some(
                OnReceive { payload: onr.payload, dst: onr.dst },
            ),
            !accepts(self.mac, self.is_promiscuous, onr.payload.dst) ==> kept is None,
    {
        if onr.payload.dst == self.mac || onr.payload.dst.is_broadcast() || self.is_promiscuous {
            Some(OnReceive { payload: onr.payload, dst: onr.dst })
        } else {
            None
        }
    }
}

/// The ports, by index, that a frame that came in on endpoint `from` is sent
/// out of: every port whose endpoint is not `from`, in port order.
pub open spec fn flood_spec(ports: Seq<Uuid>, from: Uuid) -> Seq<usize>
    decreases ports.len(),
{
    if ports.len() == 0 {
        Seq::empty()
    } else {
        let rest = flood_spec(ports.drop_last(), from);
        if ports.last() != from {
            rest.push((ports.len() - 1) as usize)
        } else {
            rest
        }
    }
}

/// The actor of a switch; its decisions stand here.
pub struct L2SwActor;

impl L2SwActor {
    /// The ports a frame that came in on endpoint `from` goes out of, given the
    /// endpoints of the switch's ports in port order.
    pub fn flood_targets(ports: &Vec<Uuid>, from: Uuid) -> (targets: Vec<usize>)
        ensures
            targets@ == flood_spec(ports@, from),
    {
        let mut targets: Vec<usize> = Vec::new();
        let n = ports.len();
        let mut i: usize = 0;
        while i < n
            invariant
                i <= n,
                n == ports@.len(),
                targets@ == flood_spec(ports@.take(i as int), from),
            decreases n - i,
        {
            assert(ports@.take(i + 1).drop_last() =~= ports@.take(i as int));
            if ports[i] != from {
                targets.push(i);
            }
            i = i + 1;
        }
        assert(ports@.take(n as int) =~= ports@);
        targets
    }
}

/// Flooding sends a frame out of each port at most once, never back out of a
/// port whose endpoint it came in on, and out of every other port.
pub proof fn flood_reaches_every_other_port(ports: Seq<Uuid>, from: Uuid)
    requires
        ports.len() <= usize::MAX,
    ensures
        flood_spec(ports, from).no_duplicates(),
        forall|i: int|
            0 <= i < ports.len() ==> (flood_spec(ports, from).contains(i as usize) <==> ports[i] != from),
        forall|k: int| 0 <= k < flood_spec(ports, from).len() ==> flood_spec(ports, from)[k] < ports.len(),
    decreases ports.len(),
{
    if ports.len() > 0 {
        let init = ports.drop_last();
        flood_reaches_every_other_port(init, from);
        let rest = flood_spec(init, from);
        let last = (ports.len() - 1) as usize;
        assert forall|i: int| 0 <= i < ports.len() implies (flood_spec(ports, from).contains(i as usize)
            <==> ports[i] != from) by {
            if i < ports.len() - 1 {
                assert(init[i] == ports[i]);
                if ports.last() != from {
                    let s = rest.push(last);
                    if rest.contains(i as usize) {
                        let k = choose|k: int| 0 <= k < rest.len() && rest[k] == i as usize;
                        assert(s[k] == i as usize);
                    }
                    if s.contains(i as usize) {
                        let k = choose|k: int| 0 <= k < s.len() && s[k] == i as usize;
                        if k < rest.len() {
                            assert(rest[k] == i as usize);
                        }
                    }
                }
            } else {
                if ports.last() != from {
                    assert(rest.push(last)[rest.len() as int] == last);
                } else {
                    if rest.contains(last) {
                        let k = choose|k: int| 0 <= k < rest.len() && rest[k] == last;
                        assert(rest[k] < init.len());
                    }
                }
            }
        }
        if ports.last() != from {
            let s = rest.push(last);
            assert forall|a: int, b: int| 0 <= a < s.len() && 0 <= b < s.len() && a != b implies s[a]
                != s[b] by {
                if a < rest.len() && b < rest.len() {
                } else if a < rest.len() {
                    assert(rest[a] < init.len());
                } else {
                    assert(rest[b] < init.len());
                }
            }
        }
    }
}

/// A card keeps a frame exactly when the frame's destination equals the card's
/// address in all six octets, or is the broadcast address (all six octets
/// `0xFF`), or the card is promiscuous.
pub proof fn card_keeps_exactly_its_frames(mac: MacAddr, is_promiscuous: bool, dst: MacAddr)
    ensures
        accepts(mac, is_promiscuous, dst) <==> (is_promiscuous || (forall|i: int|
            0 <= i < 6 ==> #[trigger] dst.octets[i] == mac.octets[i]) || (forall|i: int|
            0 <= i < 6 ==> #[trigger] dst.octets[i] == 0xffu8)),
{
    crate::format::broadcast_is_all_ones(dst);
    if forall|i: int| 0 <= i < 6 ==> #[trigger] dst.octets[i] == mac.octets[i] {
        assert(dst.octets =~= mac.octets);
    }
}

/// Flooding sends out of the ports in increasing port order.
pub proof fn flood_in_port_order(ports: Seq<Uuid>, from: Uuid)
    requires
        ports.len() <= usize::MAX,
    ensures
        forall|a: int, b: int|
            0 <= a < b < flood_spec(ports, from).len() ==> flood_spec(ports, from)[a] < flood_spec(ports, from)[b],
    decreases ports.len(),
{
    if ports.len() > 0 {
        let init = ports.drop_last();
        flood_in_port_order(init, from);
        flood_reaches_every_other_port(init, from);
    }
}

} // verus!
