//! Address resolution: how a host answers ARP requests, learns addresses from
//! ARP packets, and releases the packets that waited for an address.
use std::collections::HashMap;
use vstd::prelude::*;

use crate::format::{
    arp_reply_spec, ArpOperation, ArpPacket, EthernetFrameType, IPv4Packet, IPv4PacketType,
    Ipv4Addr, MacAddr,
};

verus! {

broadcast use vstd::std_specs::hash::group_hash_axioms;

/// What handling one ARP packet yields: the frames to send, each with the
/// hardware address it goes to, and the host's new ARP cache and queue of
/// packets that wait for an address. Both tables are keyed by `Ipv4Addr::to_bits`.
#[derive(Debug)]
pub struct ArpAction {
    pub send_frames: Vec<(MacAddr, EthernetFrameType)>,
    pub updated_arp_cache: HashMap<u32, MacAddr>,
    pub updated_tx_pendings: HashMap<u32, Vec<IPv4PacketType>>,
}

/// The frames that carry the queued payloads `pend`, in queue order, from
/// `my_ip` to `peer_ip`, each addressed to `peer_mac`.
pub open spec fn pending_frames(
    my_ip: Ipv4Addr,
    peer_ip: Ipv4Addr,
    peer_mac: MacAddr,
    pend: Seq<IPv4PacketType>,
) -> Seq<(MacAddr, EthernetFrameType)> {
    Seq::new(
        pend.len(),
        |i: int| (peer_mac, EthernetFrameType::IPv4(IPv4Packet { src: my_ip, dst: peer_ip, payload: pend[i] })),
    )
}

/// A table of waiting packets seen as a map from address bits to queues.
pub open spec fn pendings_view(pendings: Map<u32, Vec<IPv4PacketType>>) -> Map<u32, Seq<IPv4PacketType>> {
    pendings.map_values(|q: Vec<IPv4PacketType>| q@)
}

/// The queue of payloads that wait for `ip`: empty when none wait.
pub open spec fn queued_for(pendings: Map<u32, Seq<IPv4PacketType>>, ip: Ipv4Addr) -> Seq<IPv4PacketType> {
    if pendings.contains_key(ip.bits) {
        pendings[ip.bits]
    } else {
        Seq::empty()
    }
}

/// The ARP cache after `arp` arrives at the host `my_ip`: a packet addressed to
/// the host teaches it where the sender is; any other packet is ignored.
pub open spec fn arp_cache_after(arp: ArpPacket, my_ip: Ipv4Addr, cache: Map<u32, MacAddr>) -> Map<u32, MacAddr> {
    if arp.dst_ip == my_ip {
        cache.insert(arp.src_ip.bits, arp.src_mac)
    } else {
        cache
    }
}

/// The queue of waiting packets after `arp` arrives: a reply addressed to the
/// host releases everything that waited for the sender.
pub open spec fn tx_pendings_after(
    arp: ArpPacket,
    my_ip: Ipv4Addr,
    pendings: Map<u32, Seq<IPv4PacketType>>,
) -> Map<u32, Seq<IPv4PacketType>> {
    if arp.dst_ip == my_ip && arp.op == ArpOperation::Reply {
        pendings.remove(arp.src_ip.bits)
    } else {
        pendings
    }
}

/// The frames sent when `arp` arrives: a request addressed to the host is
/// answered with one reply to the requester; a reply addressed to the host sends
/// every packet that waited for the sender to the hardware address it announced.
pub open spec fn arp_frames(
    arp: ArpPacket,
    my_ip: Ipv4Addr,
    my_mac: MacAddr,
    pendings: Map<u32, Seq<IPv4PacketType>>,
) -> Seq<(MacAddr, EthernetFrameType)> {
    if arp.dst_ip != my_ip {
        Seq::empty()
    } else if arp.op == ArpOperation::Request {
        seq![(arp.src_mac, EthernetFrameType::Arp(arp_reply_spec(arp.src_ip, arp.src_mac, my_ip, my_mac)))]
    } else {
        pending_frames(my_ip, arp.src_ip, arp.src_mac, queued_for(pendings, arp.src_ip))
    }
}

/// Handles one ARP packet at the host `my_ip`/`my_mac`, given its ARP cache and
/// its queue of packets that wait for an address.
pub fn handle_arp(
    arp: &ArpPacket,
    my_ip: Ipv4Addr,
    my_mac: MacAddr,
    arp_cache: HashMap<u32, MacAddr>,
    tx_pendings: HashMap<u32, Vec<IPv4PacketType>>,
) -> (action: ArpAction)
    ensures
        action.send_frames@ == arp_frames(*arp, my_ip, my_mac, pendings_view(tx_pendings@)),
        action.updated_arp_cache@ == arp_cache_after(*arp, my_ip, arp_cache@),
        pendings_view(action.updated_tx_pendings@) == tx_pendings_after(
            *arp,
            my_ip,
            pendings_view(tx_pendings@),
        ),
{
    let mut arp_cache = arp_cache;
    let ghost old_pendings = tx_pendings@;
    let mut tx_pendings = tx_pendings;
    let mut send_frames: Vec<(MacAddr, EthernetFrameType)> = Vec::new();
    match arp.op {
        ArpOperation::Reply => {
            if arp.dst_ip == my_ip {
                arp_cache.insert(arp.src_ip.to_bits(), arp.src_mac);
                let key = arp.src_ip.to_bits();
                if let Some(pendings) = tx_pendings.remove(&key) {
                    let ghost queue = pendings@;
                    let mut pendings = pendings;
                    let n = pendings.len();
                    let mut k: usize = 0;
                    while k < n
                        invariant
                            k <= n,
                            n == queue.len(),
                            pendings@ == queue.skip(k as int),
                            send_frames@ == pending_frames(my_ip, arp.src_ip, arp.src_mac, queue.take(k as int)),
                        decreases n - k,
                    {
                        let payload = pendings.remove(0);
                        send_frames.push(
                            (
                                arp.src_mac,
                                EthernetFrameType::IPv4(IPv4Packet::new(my_ip, arp.src_ip, payload)),
                            ),
                        );
                        k = k + 1;
                        assert(send_frames@ =~= pending_frames(my_ip, arp.src_ip, arp.src_mac, queue.take(k as int)));
                        assert(pendings@ =~= queue.skip(k as int));
                    }
                    assert(queue.take(n as int) =~= queue);
                } else {
                    assert(send_frames@ =~= pending_frames(my_ip, arp.src_ip, arp.src_mac, Seq::empty()));
                }
            }
        },
        ArpOperation::Request => {
            if arp.dst_ip == my_ip {
                arp_cache.insert(arp.src_ip.to_bits(), arp.src_mac);
                let reply = ArpPacket::mk_reply(arp.src_ip, arp.src_mac, my_ip, my_mac);
                send_frames.push((arp.src_mac, EthernetFrameType::Arp(reply)));
            }
        },
    }
    proof {
        if arp.dst_ip == my_ip && arp.op == ArpOperation::Reply {
            assert(pendings_view(tx_pendings@) =~= pendings_view(old_pendings).remove(arp.src_ip.bits));
        }
        if arp.dst_ip != my_ip {
            assert(send_frames@ =~= Seq::empty());
        }
    }
    ArpAction { send_frames, updated_arp_cache: arp_cache, updated_tx_pendings: tx_pendings }
}

/// Learning is idempotent: handling the same ARP packet a second time leaves
/// the ARP cache as the first time left it.
pub proof fn arp_learning_idempotent(arp: ArpPacket, my_ip: Ipv4Addr, cache: Map<u32, MacAddr>)
    ensures
        arp_cache_after(arp, my_ip, arp_cache_after(arp, my_ip, cache)) == arp_cache_after(arp, my_ip, cache),
{
    if arp.dst_ip == my_ip {
        assert(cache.insert(arp.src_ip.bits, arp.src_mac).insert(arp.src_ip.bits, arp.src_mac) =~= cache.insert(
            arp.src_ip.bits,
            arp.src_mac,
        ));
    }
}

/// Waiting packets are released once: after a reply from a host has been
/// handled, the same reply again sends nothing, and the queue stays as it is.
pub proof fn reply_releases_queue_once(
    arp: ArpPacket,
    my_ip: Ipv4Addr,
    my_mac: MacAddr,
    pendings: Map<u32, Seq<IPv4PacketType>>,
)
    requires
        arp.op == ArpOperation::Reply,
    ensures
        arp_frames(arp, my_ip, my_mac, tx_pendings_after(arp, my_ip, pendings)) == Seq::<
            (MacAddr, EthernetFrameType),
        >::empty(),
        tx_pendings_after(arp, my_ip, tx_pendings_after(arp, my_ip, pendings)) == tx_pendings_after(
            arp,
            my_ip,
            pendings,
        ),
{
    let after = tx_pendings_after(arp, my_ip, pendings);
    if arp.dst_ip == my_ip {
        assert(pending_frames(my_ip, arp.src_ip, arp.src_mac, queued_for(after, arp.src_ip)) =~= Seq::empty());
        assert(after.remove(arp.src_ip.bits) =~= after);
    }
}

/// An ARP packet addressed to another host changes nothing: no frame is sent,
/// the ARP cache and the queues of waiting packets stay as they were.
pub proof fn arp_for_other_host_is_ignored(
    arp: ArpPacket,
    my_ip: Ipv4Addr,
    my_mac: MacAddr,
    cache: Map<u32, MacAddr>,
    pendings: Map<u32, Seq<IPv4PacketType>>,
)
    requires
        arp.dst_ip != my_ip,
    ensures
        arp_frames(arp, my_ip, my_mac, pendings).len() == 0,
        arp_cache_after(arp, my_ip, cache) == cache,
        tx_pendings_after(arp, my_ip, pendings) == pendings,
{
}

/// An ARP packet addressed to the host teaches it the sender's hardware
/// address and changes no other entry of its ARP cache.
pub proof fn arp_addressed_to_host_learns_sender(arp: ArpPacket, my_ip: Ipv4Addr, cache: Map<u32, MacAddr>)
    requires
        arp.dst_ip == my_ip,
    ensures
        arp_cache_after(arp, my_ip, cache).contains_key(arp.src_ip.bits),
        arp_cache_after(arp, my_ip, cache)[arp.src_ip.bits] == arp.src_mac,
        forall|k: u32|
            k != arp.src_ip.bits ==> (#[trigger] arp_cache_after(arp, my_ip, cache).contains_key(k)
                == cache.contains_key(k)) && (cache.contains_key(k) ==> arp_cache_after(arp, my_ip, cache)[k]
                == cache[k]),
{
}

/// A request addressed to the host is answered with exactly one frame: an ARP
/// reply, sent to the requester's hardware address, that tells the requester
/// the host's addresses. No waiting packet is touched.
pub proof fn arp_request_is_answered(
    arp: ArpPacket,
    my_ip: Ipv4Addr,
    my_mac: MacAddr,
    pendings: Map<u32, Seq<IPv4PacketType>>,
)
    requires
        arp.dst_ip == my_ip,
        arp.op == ArpOperation::Request,
    ensures
        arp_frames(arp, my_ip, my_mac, pendings).len() == 1,
        arp_frames(arp, my_ip, my_mac, pendings)[0] == (
            arp.src_mac,
            EthernetFrameType::Arp(
                ArpPacket {
                    op: ArpOperation::Reply,
                    dst_mac: arp.src_mac,
                    dst_ip: arp.src_ip,
                    src_mac: my_mac,
                    src_ip: my_ip,
                },
            ),
        ),
        tx_pendings_after(arp, my_ip, pendings) == pendings,
{
}

/// A reply addressed to the host sends, one frame each and in queue order,
/// every packet that waited for the sender, from the host to the sender, to the
/// hardware address the reply announced; then nothing waits for the sender and
/// every other queue is as it was.
pub proof fn arp_reply_sends_queue_in_order(
    arp: ArpPacket,
    my_ip: Ipv4Addr,
    my_mac: MacAddr,
    pendings: Map<u32, Seq<IPv4PacketType>>,
)
    requires
        arp.dst_ip == my_ip,
        arp.op == ArpOperation::Reply,
    ensures
        ({
            let frames = arp_frames(arp, my_ip, my_mac, pendings);
            let after = tx_pendings_after(arp, my_ip, pendings);
            let src = arp.src_ip.bits;
            &&& !pendings.contains_key(src) ==> frames.len() == 0
            &&& pendings.contains_key(src) ==> frames.len() == pendings[src].len()
            &&& forall|i: int|
                0 <= i < frames.len() ==> #[trigger] frames[i] == (
                    arp.src_mac,
                    EthernetFrameType::IPv4(IPv4Packet { src: my_ip, dst: arp.src_ip, payload: pendings[src][i] }),
                )
            &&& !after.contains_key(src)
            &&& forall|k: u32|
                k != src ==> (#[trigger] after.contains_key(k) == pendings.contains_key(k)) && (
                pendings.contains_key(k) ==> after[k] == pendings[k])
        }),
{
}

/// No waiting packet is ever lost: after any ARP packet, each packet that
/// waited is either still in its queue, unchanged, or is sent to the address it
/// waited for. Only a reply addressed to the host changes the queues.
pub proof fn arp_never_drops_waiting_packets(
    arp: ArpPacket,
    my_ip: Ipv4Addr,
    my_mac: MacAddr,
    pendings: Map<u32, Seq<IPv4PacketType>>,
)
    ensures
        !(arp.dst_ip == my_ip && arp.op == ArpOperation::Reply) ==> tx_pendings_after(arp, my_ip, pendings)
            == pendings,
        forall|k: u32, i: int|
            #![trigger pendings[k][i]]
            pendings.contains_key(k) && 0 <= i < pendings[k].len() ==> {
                ||| tx_pendings_after(arp, my_ip, pendings).contains_key(k) && tx_pendings_after(
                    arp,
                    my_ip,
                    pendings,
                )[k] == pendings[k]
                ||| arp_frames(arp, my_ip, my_mac, pendings).contains(
                    (
                        arp.src_mac,
                        EthernetFrameType::IPv4(
                            IPv4Packet { src: my_ip, dst: Ipv4Addr { bits: k }, payload: pendings[k][i] },
                        ),
                    ),
                )
            },
{
    assert forall|k: u32, i: int|
        #![trigger pendings[k][i]]
        pendings.contains_key(k) && 0 <= i < pendings[k].len() implies {
        ||| tx_pendings_after(arp, my_ip, pendings).contains_key(k) && tx_pendings_after(arp, my_ip, pendings)[k]
            == pendings[k]
        ||| arp_frames(arp, my_ip, my_mac, pendings).contains(
            (
                arp.src_mac,
                EthernetFrameType::IPv4(
                    IPv4Packet { src: my_ip, dst: Ipv4Addr { bits: k }, payload: pendings[k][i] },
                ),
            ),
        )
    } by {
        if arp.dst_ip == my_ip && arp.op == ArpOperation::Reply && k == arp.src_ip.bits {
            let frames = arp_frames(arp, my_ip, my_mac, pendings);
            assert(arp.src_ip == Ipv4Addr { bits: k });
            assert(frames[i] == (
                arp.src_mac,
                EthernetFrameType::IPv4(
                    IPv4Packet { src: my_ip, dst: Ipv4Addr { bits: k }, payload: pendings[k][i] },
                ),
            ));
        }
    }
}

/// The table of waiting packets is seen key for key and packet for packet: a
/// queue is present in the view exactly when it is in the table, with the same
/// packets in the same order.
pub proof fn pendings_view_keeps_every_queue(pendings: Map<u32, Vec<IPv4PacketType>>, k: u32)
    ensures
        pendings_view(pendings).contains_key(k) <==> pendings.contains_key(k),
        pendings.contains_key(k) ==> pendings_view(pendings)[k] == pendings[k]@,
{
}

} // verus!
