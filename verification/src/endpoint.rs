//! An endpoint is one end of a wire: what it sends goes to the core, and what
//! the core writes to it is handed, tagged with the endpoint's identifier, to
//! the device it belongs to.
use vstd::prelude::*;

use crate::core_actor::Uuid;
use crate::format::EthernetFrame;

verus! {

/// A frame that reached the endpoint `dst`.
#[derive(Debug, Clone)]
pub struct OnReceiveRaw {
    pub dst: Uuid,
    pub payload: EthernetFrame,
}

/// What an endpoint is asked to do.
#[derive(Debug)]
pub enum EndPointEvent {
    /// Tell its identifier.
    GetUuid,
    /// Put a frame on the wire.
    Send(EthernetFrame),
    /// A frame came in from the wire.
    Write(EthernetFrame),
}

/// What an endpoint does in answer.
#[derive(Debug)]
pub enum EndPointAction {
    /// Answer with this identifier.
    ReplyUuid(Uuid),
    /// Ask the core to carry this frame from this endpoint.
    CoreSend(Uuid, EthernetFrame),
    /// Hand this to the device the endpoint belongs to.
    Deliver(OnReceiveRaw),
}

/// The actor of an endpoint; its decisions stand here.
pub struct EndPointActor;

impl EndPointActor {
    /// What the endpoint `uuid` does with one event.
    pub fn handle(uuid: Uuid, event: EndPointEvent) -> (action: EndPointAction)
        ensures
            match event {
                EndPointEvent::GetUuid => action == EndPointAction::ReplyUuid(uuid),
                EndPointEvent::Send(frame) => action == EndPointAction::CoreSend(uuid, frame),
                EndPointEvent::Write(frame) => action == EndPointAction::Deliver(
                    OnReceiveRaw { dst: uuid, payload: frame },
                ),
            },
    {
        match event {
            EndPointEvent::GetUuid => EndPointAction::ReplyUuid(uuid),
            EndPointEvent::Send(frame) => EndPointAction::CoreSend(uuid, frame),
            EndPointEvent::Write(frame) => EndPointAction::Deliver(OnReceiveRaw { dst: uuid, payload: frame }),
        }
    }
}

} // verus!
