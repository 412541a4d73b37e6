//! The network layer of a host: what its interface card decides when asked to
//! send a packet and when a frame arrives. The actor that carries these
//! decisions out (sending frames, queueing received packets) runs around them.
use std::collections::HashMap;
use vstd::prelude::*;

use crate::arp::{
    arp_cache_after, arp_frames, handle_arp, pendings_view, queued_for, tx_pendings_after,
};
use crate::format::{
    arp_request_spec, ArpPacket, EthernetFrame, EthernetFrameType, IPv4Packet, IPv4PacketType,
    Ipv4Addr, MacAddr,
};

verus! {

broadcast use vstd::std_specs::hash::group_hash_axioms;

/// The addressing state of a host's interface card: its own addresses, what it
/// has learnt of other hosts' hardware addresses, and the packets that wait for
/// an address to be learnt. Tables are keyed by `Ipv4Addr::to_bits`.
pub struct NetworkInterfaceCardActorState {
    pub ip: Ipv4Addr,
    pub mac: MacAddr,
    pub arp_cache: HashMap<u32, MacAddr>,
    pub tx_pendings: HashMap<u32, Vec<IPv4PacketType>>,
}

/// The actor of a host's interface card; its decisions stand here.
pub struct NetworkInterfaceCardActor;

/// What the card does with a frame it received.
#[derive(Debug)]
pub enum NicReaction {
    /// Hand the packet to the host's receive queue.
    Deliver(IPv4Packet),
    /// Send these frames, each to the hardware address beside it.
    Send(Vec<(MacAddr, EthernetFrameType)>),
    /// Nothing to do.
    Ignore,
}

/// Where a packet for `dst` goes: straight to the cached hardware address, or,
/// when none is known, an ARP request broadcast for `dst`.
pub open spec fn send_frame_spec(
    ip: Ipv4Addr,
    mac: MacAddr,
    cache: Map<u32, MacAddr>,
    dst: Ipv4Addr,
    payload: IPv4PacketType,
) -> EthernetFrameType {
    if cache.contains_key(dst.bits) {
        EthernetFrameType::IPv4(IPv4Packet { src: ip, dst, payload })
    } else {
        EthernetFrameType::Arp(arp_request_spec(dst, ip, mac))
    }
}

/// The queue of waiting packets after a packet for `dst` is sent: it waits at
/// the end of `dst`'s queue when `dst`'s hardware address is unknown.
pub open spec fn queue_after_send(
    cache: Map<u32, MacAddr>,
    pendings: Map<u32, Seq<IPv4PacketType>>,
    dst: Ipv4Addr,
    payload: IPv4PacketType,
) -> Map<u32, Seq<IPv4PacketType>> {
    if cache.contains_key(dst.bits) {
        pendings
    } else {
        pendings.insert(dst.bits, queued_for(pendings, dst).push(payload))
    }
}

impl NetworkInterfaceCardActor {
    /// The state of a card that has just started: nothing learnt, nothing waiting.
    pub fn initial_state(ip: Ipv4Addr, mac: MacAddr) -> (state: NetworkInterfaceCardActorState)
        ensures
            state.ip == ip,
            state.mac == mac,
            state.arp_cache@ == Map::<u32, MacAddr>::empty(),
            state.tx_pendings@ == Map::<u32, Vec<IPv4PacketType>>::empty(),
    {
        NetworkInterfaceCardActorState {
            ip,
            mac,
            arp_cache: HashMap::new(),
            tx_pendings: HashMap::new(),
        }
    }

    /// The card is asked to send `payload` to `dst`: returns the frame to send
    /// and the hardware address it goes to.
    pub fn on_send(
        state: &mut NetworkInterfaceCardActorState,
        dst: Ipv4Addr,
        payload: IPv4PacketType,
    ) -> (out: (MacAddr, EthernetFrameType))
        ensures
            final(state).ip == old(state).ip,
            final(state).mac == old(state).mac,
            final(state).arp_cache@ == old(state).arp_cache@,
            out.1 == send_frame_spec(old(state).ip, old(state).mac, old(state).arp_cache@, dst, payload),
            old(state).arp_cache@.contains_key(dst.bits) ==> out.0 == old(state).arp_cache@[dst.bits],
            !old(state).arp_cache@.contains_key(dst.bits) ==> out.0.is_broadcast_spec(),
            pendings_view(final(state).tx_pendings@) == queue_after_send(
                old(state).arp_cache@,
                pendings_view(old(state).tx_pendings@),
                dst,
                payload,
            ),
    {
        let key = dst.to_bits();
        match state.arp_cache.get(&key) {
            Some(mac) => {
                let mac = *mac;
                (mac, EthernetFrameType::IPv4(IPv4Packet::new(state.ip, dst, payload)))
            },
            None => {
                let ghost old_pendings = state.tx_pendings@;
                let mut queue = match state.tx_pendings.remove(&key) {
                    Some(q) => q,
                    None => Vec::new(),
                };
                assert(queue@ == queued_for(pendings_view(old_pendings), dst));
                queue.push(payload);
                state.tx_pendings.insert(key, queue);
                proof {
                    assert(pendings_view(state.tx_pendings@) =~= pendings_view(old_pendings).insert(
                        key,
                        queued_for(pendings_view(old_pendings), dst).push(payload),
                    ));
                }
                let req = ArpPacket::mk_request(dst, state.ip, state.mac);
                (MacAddr::broadcast(), EthernetFrameType::Arp(req))
            },
        }
    }

    /// An ARP packet reached the card: its tables take what `handle_arp`
    /// computed, and the frames it produced are to be sent.
    pub fn handle_arp(state: &mut NetworkInterfaceCardActorState, arp: ArpPacket) -> (frames: Vec<
        (MacAddr, EthernetFrameType),
    >)
        ensures
            final(state).ip == old(state).ip,
            final(state).mac == old(state).mac,
            frames@ == arp_frames(arp, old(state).ip, old(state).mac, pendings_view(old(state).tx_pendings@)),
            final(state).arp_cache@ == arp_cache_after(arp, old(state).ip, old(state).arp_cache@),
            pendings_view(final(state).tx_pendings@) == tx_pendings_after(
                arp,
                old(state).ip,
                pendings_view(old(state).tx_pendings@),
            ),
    {
        let action = handle_arp(
            &arp,
            state.ip,
            state.mac,
            state.arp_cache.clone(),
            state.tx_pendings.clone(),
        );
        state.arp_cache = action.updated_arp_cache;
        state.tx_pendings = action.updated_tx_pendings;
        action.send_frames
    }

    /// A frame reached the card: an IPv4 packet is delivered to the host, an
    /// ARP packet is handled, anything else is dropped.
    pub fn on_receive(state: &mut NetworkInterfaceCardActorState, ef: EthernetFrame) -> (r: NicReaction)
        ensures
            final(state).ip == old(state).ip,
            final(state).mac == old(state).mac,
            match ef.payload {
                EthernetFrameType::IPv4(packet) => {
                    &&& r == NicReaction::Deliver(packet)
                    &&& final(state).arp_cache@ == old(state).arp_cache@
                    &&& final(state).tx_pendings@ == old(state).tx_pendings@
                },
                EthernetFrameType::Arp(arp) => {
                    &&& r matches NicReaction::Send(frames) && frames@ == arp_frames(
                        arp,
                        old(state).ip,
                        old(state).mac,
                        pendings_view(old(state).tx_pendings@),
                    )
                    &&& final(state).arp_cache@ == arp_cache_after(arp, old(state).ip, old(state).arp_cache@)
                    &&& pendings_view(final(state).tx_pendings@) == tx_pendings_after(
                        arp,
                        old(state).ip,
                        pendings_view(old(state).tx_pendings@),
                    )
                },
                EthernetFrameType::Dummy => {
                    &&& r == NicReaction::Ignore
                    &&& final(state).arp_cache@ == old(state).arp_cache@
                    &&& final(state).tx_pendings@ == old(state).tx_pendings@
                },
            },
    {
        match ef.payload {
            EthernetFrameType::IPv4(packet) => NicReaction::Deliver(packet),
            EthernetFrameType::Arp(arp) => NicReaction::Send(Self::handle_arp(state, arp)),
            EthernetFrameType::Dummy => NicReaction::Ignore,
        }
    }
}

/// ARP resolution between two hosts: the request that host A broadcasts for
/// host B's address is answered by B with one reply addressed to A, B learns
/// where A is, and when A handles that reply it learns where B is and sends B,
/// in queue order, every packet that waited for B; nothing waits for B after.
pub proof fn arp_exchange_resolves(
    ip_a: Ipv4Addr,
    mac_a: MacAddr,
    ip_b: Ipv4Addr,
    mac_b: MacAddr,
    cache_a: Map<u32, MacAddr>,
    pend_a: Map<u32, Seq<IPv4PacketType>>,
    cache_b: Map<u32, MacAddr>,
    pend_b: Map<u32, Seq<IPv4PacketType>>,
)
    ensures
        ({
            let request = arp_request_spec(ip_b, ip_a, mac_a);
            let reply = crate::format::arp_reply_spec(ip_a, mac_a, ip_b, mac_b);
            &&& arp_frames(request, ip_b, mac_b, pend_b) == seq![(mac_a, EthernetFrameType::Arp(reply))]
            &&& arp_cache_after(request, ip_b, cache_b)[ip_a.bits] == mac_a
            &&& arp_frames(reply, ip_a, mac_a, pend_a) == crate::arp::pending_frames(
                ip_a,
                ip_b,
                mac_b,
                queued_for(pend_a, ip_b),
            )
            &&& arp_cache_after(reply, ip_a, cache_a)[ip_b.bits] == mac_b
            &&& !tx_pendings_after(reply, ip_a, pend_a).contains_key(ip_b.bits)
        }),
{
}

/// A packet sent to a host whose hardware address is unknown is not lost: when
/// that host's ARP reply arrives, the packet goes out to the announced hardware
/// address, after the packets that waited before it.
pub proof fn queued_packet_sent_on_reply(
    ip: Ipv4Addr,
    mac: MacAddr,
    cache: Map<u32, MacAddr>,
    pendings: Map<u32, Seq<IPv4PacketType>>,
    dst: Ipv4Addr,
    payload: IPv4PacketType,
    peer_mac: MacAddr,
)
    requires
        !cache.contains_key(dst.bits),
    ensures
        ({
            let queued = queue_after_send(cache, pendings, dst, payload);
            let reply = crate::format::arp_reply_spec(ip, mac, dst, peer_mac);
            let frames = arp_frames(reply, ip, mac, queued);
            &&& frames.len() == queued_for(pendings, dst).len() + 1
            &&& frames.last() == (peer_mac, EthernetFrameType::IPv4(IPv4Packet { src: ip, dst, payload }))
            &&& !tx_pendings_after(reply, ip, queued).contains_key(dst.bits)
        }),
{
}

/// Sending to a host whose hardware address is cached goes straight to it as
/// an IPv4 packet from this card, and queues nothing.
pub proof fn send_to_known_host_goes_direct(
    ip: Ipv4Addr,
    mac: MacAddr,
    cache: Map<u32, MacAddr>,
    pendings: Map<u32, Seq<IPv4PacketType>>,
    dst: Ipv4Addr,
    payload: IPv4PacketType,
)
    requires
        cache.contains_key(dst.bits),
    ensures
        send_frame_spec(ip, mac, cache, dst, payload) == EthernetFrameType::IPv4(
            IPv4Packet { src: ip, dst: dst, payload: payload },
        ),
        queue_after_send(cache, pendings, dst, payload) == pendings,
{
}

/// Sending to a host whose hardware address is unknown asks for it with an
/// ARP request from this card, and appends the packet at the end of that
/// host's queue; every other host's queue stays exactly as it was.
pub proof fn send_to_unknown_host_queues_and_asks(
    ip: Ipv4Addr,
    mac: MacAddr,
    cache: Map<u32, MacAddr>,
    pendings: Map<u32, Seq<IPv4PacketType>>,
    dst: Ipv4Addr,
    payload: IPv4PacketType,
)
    requires
        !cache.contains_key(dst.bits),
    ensures
        send_frame_spec(ip, mac, cache, dst, payload) == EthernetFrameType::Arp(
            ArpPacket {
                op: crate::format::ArpOperation::Request,
                dst_mac: MacAddr { octets: [0u8, 0u8, 0u8, 0u8, 0u8, 0u8] },
                dst_ip: dst,
                src_mac: mac,
                src_ip: ip,
            },
        ),
        ({
            let after = queue_after_send(cache, pendings, dst, payload);
            let before_len: int = if pendings.contains_key(dst.bits) {
                pendings[dst.bits].len() as int
            } else {
                0
            };
            &&& after.contains_key(dst.bits)
            &&& after[dst.bits].len() == before_len + 1
            &&& after[dst.bits][before_len] == payload
            &&& forall|i: int| 0 <= i < before_len ==> #[trigger] after[dst.bits][i] == pendings[dst.bits][i]
            &&& forall|k: u32|
                k != dst.bits ==> (#[trigger] after.contains_key(k) == pendings.contains_key(k)) && (
                pendings.contains_key(k) ==> after[k] == pendings[k])
        }),
{
}

} // verus!
