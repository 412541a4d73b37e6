use vnet::endpoint::OnReceiveRaw;
use vnet::format::{EthernetFrame, EthernetFrameType, MacAddr};
use vnet::l2::{EthernetCardActorState, L2SwActor};

fn raw(dst_mac: MacAddr, endpoint: usize) -> OnReceiveRaw {
    OnReceiveRaw {
        dst: endpoint,
        payload: EthernetFrame::new(MacAddr::new(0, 0, 0, 0, 0, 9), dst_mac, EthernetFrameType::Dummy),
    }
}

#[test]
fn card_sends_from_its_own_address() {
    let mac = MacAddr::new(0, 0, 0, 0, 0, 1);
    let card = EthernetCardActorState::new(mac, false);
    let to = MacAddr::new(0, 0, 0, 0, 0, 2);
    assert_eq!(card.outgoing(to, EthernetFrameType::Dummy), EthernetFrame::new(mac, to, EthernetFrameType::Dummy));
}

#[test]
fn card_keeps_frames_for_it_and_broadcast() {
    let mac = MacAddr::new(0, 0, 0, 0, 0, 1);
    let card = EthernetCardActorState::new(mac, false);
    let kept = card.accept(raw(mac, 3)).expect("addressed to the card");
    assert_eq!(kept.dst, 3);
    assert_eq!(kept.payload.dst, mac);
    assert!(card.accept(raw(MacAddr::broadcast(), 3)).is_some());
    assert!(card.accept(raw(MacAddr::new(0, 0, 0, 0, 0, 2), 3)).is_none());
}

#[test]
fn promiscuous_card_keeps_everything() {
    let card = EthernetCardActorState::new(MacAddr::new(0, 0, 0, 0, 0, 1), true);
    assert!(card.accept(raw(MacAddr::new(0, 0, 0, 0, 0, 2), 5)).is_some());
}

#[test]
fn switch_floods_all_ports_but_the_incoming_one() {
    let ports = vec![10, 11, 12, 13];
    assert_eq!(L2SwActor::flood_targets(&ports, 11), vec![0, 2, 3]);
    assert_eq!(L2SwActor::flood_targets(&ports, 99), vec![0, 1, 2, 3]);
    assert_eq!(L2SwActor::flood_targets(&vec![5, 5, 6], 5), vec![2]);
    assert_eq!(L2SwActor::flood_targets(&Vec::new(), 1), Vec::<usize>::new());
}
