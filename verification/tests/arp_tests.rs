use std::collections::HashMap;
use vnet::arp::handle_arp;
use vnet::format::{ArpOperation, ArpPacket, EthernetFrameType, IPv4Packet, IPv4PacketType, Ipv4Addr, MacAddr};

#[test]
fn test_handle_arp_request() {
    let my_ip = Ipv4Addr::new(192, 168, 1, 1);
    let my_mac = MacAddr::new(0, 1, 2, 3, 4, 5);
    let src_ip = Ipv4Addr::new(192, 168, 1, 100);
    let src_mac = MacAddr::new(10, 11, 12, 13, 14, 15);

    let arp = ArpPacket::mk_request(my_ip, src_ip, src_mac);

    let result = handle_arp(&arp, my_ip, my_mac, HashMap::new(), HashMap::new());

    assert_eq!(result.send_frames.len(), 1);
    assert_eq!(result.updated_arp_cache.get(&src_ip.to_bits()), Some(&src_mac));
}

#[test]
fn test_handle_arp_reply() {
    let my_ip = Ipv4Addr::new(192, 168, 1, 1);
    let my_mac = MacAddr::new(0, 1, 2, 3, 4, 5);
    let target_ip = Ipv4Addr::new(192, 168, 1, 100);
    let target_mac = MacAddr::new(10, 11, 12, 13, 14, 15);

    let arp = ArpPacket::mk_reply(my_ip, my_mac, target_ip, target_mac);

    let result = handle_arp(
        &arp,
        my_ip,
        my_mac,
        HashMap::new(),
        HashMap::from([(
            target_ip.to_bits(),
            Vec::from([IPv4PacketType::Debug("dummy".to_string())]),
        )]),
    );

    assert_eq!(result.send_frames.len(), 1);
    assert_eq!(result.updated_arp_cache.get(&target_ip.to_bits()), Some(&target_mac));
}

#[test]
fn arp_request_is_answered_with_reply_to_requester() {
    let my_ip = Ipv4Addr::new(192, 168, 1, 1);
    let my_mac = MacAddr::new(0, 1, 2, 3, 4, 5);
    let src_ip = Ipv4Addr::new(192, 168, 1, 100);
    let src_mac = MacAddr::new(10, 11, 12, 13, 14, 15);
    let arp = ArpPacket::mk_request(my_ip, src_ip, src_mac);
    let result = handle_arp(&arp, my_ip, my_mac, HashMap::new(), HashMap::new());
    let expected = ArpPacket {
        op: ArpOperation::Reply,
        dst_mac: src_mac,
        dst_ip: src_ip,
        src_mac: my_mac,
        src_ip: my_ip,
    };
    assert_eq!(result.send_frames, vec![(src_mac, EthernetFrameType::Arp(expected))]);
    assert!(result.updated_tx_pendings.is_empty());
}

#[test]
fn arp_for_another_host_changes_nothing() {
    let my_ip = Ipv4Addr::new(192, 168, 1, 1);
    let my_mac = MacAddr::new(0, 1, 2, 3, 4, 5);
    let other_ip = Ipv4Addr::new(192, 168, 1, 2);
    let src_ip = Ipv4Addr::new(192, 168, 1, 100);
    let src_mac = MacAddr::new(10, 11, 12, 13, 14, 15);
    let pend = HashMap::from([(src_ip.to_bits(), vec![IPv4PacketType::Debug("x".to_string())])]);
    let request = ArpPacket::mk_request(other_ip, src_ip, src_mac);
    let r1 = handle_arp(&request, my_ip, my_mac, HashMap::new(), pend.clone());
    assert!(r1.send_frames.is_empty());
    assert!(r1.updated_arp_cache.is_empty());
    assert_eq!(r1.updated_tx_pendings, pend);
    let reply = ArpPacket::mk_reply(other_ip, my_mac, src_ip, src_mac);
    let r2 = handle_arp(&reply, my_ip, my_mac, HashMap::new(), pend.clone());
    assert!(r2.send_frames.is_empty());
    assert!(r2.updated_arp_cache.is_empty());
    assert_eq!(r2.updated_tx_pendings, pend);
}

#[test]
fn arp_reply_releases_queue_in_order() {
    let my_ip = Ipv4Addr::new(10, 0, 0, 1);
    let my_mac = MacAddr::new(2, 0, 0, 0, 0, 1);
    let peer_ip = Ipv4Addr::new(10, 0, 0, 2);
    let peer_mac = MacAddr::new(2, 0, 0, 0, 0, 2);
    let third_ip = Ipv4Addr::new(10, 0, 0, 3);
    let first = IPv4PacketType::Debug("first".to_string());
    let second = IPv4PacketType::Debug("second".to_string());
    let third = IPv4PacketType::Debug("third".to_string());
    let pend = HashMap::from([
        (peer_ip.to_bits(), vec![first.clone(), second.clone()]),
        (third_ip.to_bits(), vec![third.clone()]),
    ]);
    let reply = ArpPacket::mk_reply(my_ip, my_mac, peer_ip, peer_mac);
    let r = handle_arp(&reply, my_ip, my_mac, HashMap::new(), pend);
    assert_eq!(
        r.send_frames,
        vec![
            (peer_mac, EthernetFrameType::IPv4(IPv4Packet::new(my_ip, peer_ip, first))),
            (peer_mac, EthernetFrameType::IPv4(IPv4Packet::new(my_ip, peer_ip, second))),
        ]
    );
    assert_eq!(r.updated_tx_pendings, HashMap::from([(third_ip.to_bits(), vec![third])]));
    assert_eq!(r.updated_arp_cache, HashMap::from([(peer_ip.to_bits(), peer_mac)]));
}

#[test]
fn arp_reply_with_nothing_queued_sends_nothing() {
    let my_ip = Ipv4Addr::new(10, 0, 0, 1);
    let my_mac = MacAddr::new(2, 0, 0, 0, 0, 1);
    let peer_ip = Ipv4Addr::new(10, 0, 0, 2);
    let peer_mac = MacAddr::new(2, 0, 0, 0, 0, 2);
    let reply = ArpPacket::mk_reply(my_ip, my_mac, peer_ip, peer_mac);
    let r = handle_arp(&reply, my_ip, my_mac, HashMap::new(), HashMap::new());
    assert!(r.send_frames.is_empty());
    assert_eq!(r.updated_arp_cache.get(&peer_ip.to_bits()), Some(&peer_mac));
}

#[test]
fn arp_learning_is_idempotent() {
    let my_ip = Ipv4Addr::new(10, 0, 0, 1);
    let my_mac = MacAddr::new(2, 0, 0, 0, 0, 1);
    let peer_ip = Ipv4Addr::new(10, 0, 0, 2);
    let peer_mac = MacAddr::new(2, 0, 0, 0, 0, 2);
    let request = ArpPacket::mk_request(my_ip, peer_ip, peer_mac);
    let once = handle_arp(&request, my_ip, my_mac, HashMap::new(), HashMap::new());
    let twice = handle_arp(&request, my_ip, my_mac, once.updated_arp_cache.clone(), HashMap::new());
    assert_eq!(twice.updated_arp_cache, once.updated_arp_cache);
}

#[test]
fn arp_reply_releases_queue_once() {
    let my_ip = Ipv4Addr::new(10, 0, 0, 1);
    let my_mac = MacAddr::new(2, 0, 0, 0, 0, 1);
    let peer_ip = Ipv4Addr::new(10, 0, 0, 2);
    let peer_mac = MacAddr::new(2, 0, 0, 0, 0, 2);
    let pend = HashMap::from([(peer_ip.to_bits(), vec![IPv4PacketType::Debug("p".to_string())])]);
    let reply = ArpPacket::mk_reply(my_ip, my_mac, peer_ip, peer_mac);
    let first = handle_arp(&reply, my_ip, my_mac, HashMap::new(), pend);
    assert_eq!(first.send_frames.len(), 1);
    let second = handle_arp(&reply, my_ip, my_mac, first.updated_arp_cache, first.updated_tx_pendings);
    assert!(second.send_frames.is_empty());
    assert!(second.updated_tx_pendings.is_empty());
}
