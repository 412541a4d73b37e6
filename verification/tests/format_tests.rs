use vnet::format::{
    ArpOperation, ArpPacket, EthernetFrame, EthernetFrameType, IPv4Packet, IPv4PacketType, Ipv4Addr, MacAddr,
};

#[test]
fn ipv4_new_packs_octets_first_highest() {
    assert_eq!(Ipv4Addr::new(192, 168, 1, 100).to_bits(), 0xC0A8_0164);
    assert_eq!(Ipv4Addr::new(0, 0, 0, 0).to_bits(), 0);
    assert_eq!(Ipv4Addr::new(255, 255, 255, 255).to_bits(), u32::MAX);
    assert_eq!(Ipv4Addr::from_bits(0x0A00_0001), Ipv4Addr::new(10, 0, 0, 1));
}

#[test]
fn mac_broadcast_is_all_ones() {
    let b = MacAddr::broadcast();
    assert_eq!(b.octets, [0xff; 6]);
    assert!(b.is_broadcast());
}

#[test]
fn mac_is_broadcast_only_for_all_ones() {
    assert!(!MacAddr::new(0xff, 0xff, 0xff, 0xff, 0xff, 0xfe).is_broadcast());
    assert!(!MacAddr::nil().is_broadcast());
    assert!(MacAddr::from_octets([0xff; 6]).is_broadcast());
    assert_eq!(MacAddr::nil().octets, [0; 6]);
}

#[test]
fn mac_equality_compares_every_octet() {
    assert_eq!(MacAddr::new(1, 2, 3, 4, 5, 6), MacAddr::from_octets([1, 2, 3, 4, 5, 6]));
    assert_ne!(MacAddr::new(1, 2, 3, 4, 5, 6), MacAddr::new(1, 2, 3, 4, 5, 7));
    assert_ne!(MacAddr::new(1, 2, 3, 4, 5, 6), MacAddr::new(0, 2, 3, 4, 5, 6));
}

#[test]
fn mk_request_asks_for_target() {
    let me = Ipv4Addr::new(192, 168, 0, 1);
    let target = Ipv4Addr::new(192, 168, 0, 2);
    let my_mac = MacAddr::new(0, 0, 0, 0, 0, 1);
    let p = ArpPacket::mk_request(target, me, my_mac);
    assert_eq!(p.op, ArpOperation::Request);
    assert_eq!(p.dst_ip, target);
    assert_eq!(p.dst_mac, MacAddr::nil());
    assert_eq!(p.src_ip, me);
    assert_eq!(p.src_mac, my_mac);
}

#[test]
fn mk_reply_answers_asker() {
    let asker = Ipv4Addr::new(192, 168, 0, 1);
    let asker_mac = MacAddr::new(0, 0, 0, 0, 0, 1);
    let me = Ipv4Addr::new(192, 168, 0, 2);
    let my_mac = MacAddr::new(0, 0, 0, 0, 0, 2);
    let p = ArpPacket::mk_reply(asker, asker_mac, me, my_mac);
    assert_eq!(p.op, ArpOperation::Reply);
    assert_eq!(p.dst_ip, asker);
    assert_eq!(p.dst_mac, asker_mac);
    assert_eq!(p.src_ip, me);
    assert_eq!(p.src_mac, my_mac);
}

#[test]
fn frame_and_packet_constructors_keep_fields() {
    let a = MacAddr::new(0, 0, 0, 0, 0, 1);
    let b = MacAddr::new(0, 0, 0, 0, 0, 2);
    let f = EthernetFrame::new(a, b, EthernetFrameType::Dummy);
    assert_eq!(f.src, a);
    assert_eq!(f.dst, b);
    assert_eq!(f.payload, EthernetFrameType::Dummy);
    let s = Ipv4Addr::new(1, 2, 3, 4);
    let d = Ipv4Addr::new(5, 6, 7, 8);
    let p = IPv4Packet::new(s, d, IPv4PacketType::Debug("x".to_string()));
    assert_eq!(p.src, s);
    assert_eq!(p.dst, d);
    assert_eq!(p.payload, IPv4PacketType::Debug("x".to_string()));
}

#[test]
fn add_sums() {
    assert_eq!(vnet::add(2, 2), 4);
    assert_eq!(vnet::add(u64::MAX - 1, 1), u64::MAX);
}
