use vnet::core_actor::CoreActorState;
use vnet::endpoint::{EndPointAction, EndPointActor, EndPointEvent, OnReceiveRaw};
use vnet::format::{EthernetFrame, EthernetFrameType, MacAddr};

#[test]
fn endpoints_get_fresh_identifiers() {
    let mut core = CoreActorState::new();
    assert_eq!(core.create_endpoint(), 0);
    assert_eq!(core.create_endpoint(), 1);
    assert_eq!(core.create_endpoint(), 2);
    assert_eq!(core.next_uuid, 3);
}

#[test]
fn connected_endpoints_reach_each_other_only() {
    let mut core = CoreActorState::new();
    let e0 = core.create_endpoint();
    let e1 = core.create_endpoint();
    let e2 = core.create_endpoint();
    core.connect(e0, e1);
    assert_eq!(core.send_targets(e0), vec![e1]);
    assert_eq!(core.send_targets(e1), vec![e0]);
    assert_eq!(core.send_targets(e2), Vec::<usize>::new());
}

#[test]
fn targets_follow_connection_order_and_skip_unknown() {
    let mut core = CoreActorState::new();
    let e0 = core.create_endpoint();
    let e1 = core.create_endpoint();
    let e2 = core.create_endpoint();
    core.connect(e0, e2);
    core.connect(e0, 7);
    core.connect(e0, e1);
    assert_eq!(core.send_targets(e0), vec![e2, e1]);
    assert_eq!(core.send_targets(7), vec![e0]);
    assert_eq!(core.connections.get(&e0), Some(&vec![e2, 7, e1]));
}

#[test]
fn self_connection_lists_endpoint_twice() {
    let mut core = CoreActorState::new();
    let e0 = core.create_endpoint();
    core.connect(e0, e0);
    assert_eq!(core.send_targets(e0), vec![e0, e0]);
}

#[test]
fn endpoint_actor_decisions() {
    let frame = EthernetFrame::new(MacAddr::new(0, 0, 0, 0, 0, 1), MacAddr::broadcast(), EthernetFrameType::Dummy);
    match EndPointActor::handle(4, EndPointEvent::GetUuid) {
        EndPointAction::ReplyUuid(u) => assert_eq!(u, 4),
        other => panic!("unexpected {:?}", other),
    }
    match EndPointActor::handle(4, EndPointEvent::Send(frame.clone())) {
        EndPointAction::CoreSend(u, f) => {
            assert_eq!(u, 4);
            assert_eq!(f, frame);
        },
        other => panic!("unexpected {:?}", other),
    }
    match EndPointActor::handle(4, EndPointEvent::Write(frame.clone())) {
        EndPointAction::Deliver(OnReceiveRaw { dst, payload }) => {
            assert_eq!(dst, 4);
            assert_eq!(payload, frame);
        },
        other => panic!("unexpected {:?}", other),
    }
}
