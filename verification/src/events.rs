//! The event vocabulary of the overlay. `Event` is the unified,
//! application-facing tagged union; `NetworkEvent` is the inbound vocabulary
//! the event loop consumes; `Action` is what one loop iteration decides to
//! do. Each exec type has a ghost view over byte sequences, so contracts and
//! laws can be stated purely over the views.

use vstd::prelude::*;

use crate::identity::Address;
use crate::identity::Identity;
use crate::identity::MessageIdentity;

verus! {

/// One discovered or expired peer: an identity together with the address it
/// was seen at.
#[derive(Debug)]
pub struct PeerRecord {
    pub identity: Identity,
    pub address: Address,
}

/// Ghost view of one peer record.
pub struct PeerRecordView {
    pub id: Seq<u8>,
    pub addr: Seq<u8>,
}

impl View for PeerRecord {
    type V = PeerRecordView;

    open spec fn view(&self) -> PeerRecordView {
        PeerRecordView { id: self.identity@, addr: self.address@ }
    }
}

/// Everything the overlay reports upward, one pair or message per event.
#[derive(Debug)]
pub enum Event {
    /// Discovery announced one peer at one address.
    Discovered { identity: Identity, address: Address },
    /// Discovery expired one peer at one address.
    Expired { identity: Identity, address: Address },
    /// The gossip capability delivered one message.
    Message { source: Identity, identity: MessageIdentity, payload: Vec<u8> },
}

/// Ghost view of a unified event.
pub enum EventView {
    Discovered { id: Seq<u8>, addr: Seq<u8> },
    Expired { id: Seq<u8>, addr: Seq<u8> },
    Message { source: Seq<u8>, identity: Seq<u8>, payload: Seq<u8> },
}

impl View for Event {
    type V = EventView;

    open spec fn view(&self) -> EventView {
        match self {
            Event::Discovered { identity, address } => EventView::Discovered {
                id: identity@,
                addr: address@,
            },
            Event::Expired { identity, address } => EventView::Expired {
                id: identity@,
                addr: address@,
            },
            Event::Message { source, identity, payload } => EventView::Message {
                source: source@,
                identity: identity@,
                payload: payload@,
            },
        }
    }
}

/// What the node's network side hands the event loop in one iteration.
#[derive(Debug)]
pub enum NetworkEvent {
    /// Discovery announced a batch of peers.
    Discovered(Vec<PeerRecord>),
    /// Discovery expired a batch of peers.
    Expired(Vec<PeerRecord>),
    /// The gossip capability delivered one message.
    Message { source: Identity, identity: MessageIdentity, payload: Vec<u8> },
    /// A listen address was bound; informational only.
    ListenerBound(Address),
    /// Any other underlying network event; ignored.
    Other,
}

/// Ghost view of an inbound network event.
pub enum NetworkEventView {
    Discovered(Seq<PeerRecordView>),
    Expired(Seq<PeerRecordView>),
    Message { source: Seq<u8>, identity: Seq<u8>, payload: Seq<u8> },
    ListenerBound(Seq<u8>),
    Other,
}

/// The view of a batch of peer records.
pub open spec fn records_view(rs: Seq<PeerRecord>) -> Seq<PeerRecordView> {
    rs.map_values(|r: PeerRecord| r@)
}

impl View for NetworkEvent {
    type V = NetworkEventView;

    open spec fn view(&self) -> NetworkEventView {
        match self {
            NetworkEvent::Discovered(rs) => NetworkEventView::Discovered(records_view(rs@)),
            NetworkEvent::Expired(rs) => NetworkEventView::Expired(records_view(rs@)),
            NetworkEvent::Message { source, identity, payload } => NetworkEventView::Message {
                source: source@,
                identity: identity@,
                payload: payload@,
            },
            NetworkEvent::ListenerBound(a) => NetworkEventView::ListenerBound(a@),
            NetworkEvent::Other => NetworkEventView::Other,
        }
    }
}

/// One side effect the event loop has decided on. The caller that drives the
/// loop performs the actions of one iteration in order, completing all of
/// them before the next iteration.
#[derive(Debug)]
pub enum Action {
    /// Hand one unified event to the application; if the event channel is
    /// full this waits for room, it never discards the event.
    Emit(Event),
    /// Tell the gossip capability to treat this identity as an explicit peer.
    AddPeer(Identity),
    /// Tell the gossip capability to stop treating this identity as an
    /// explicit peer.
    RemovePeer(Identity),
    /// Publish these payload bytes to the subscribed topic; a failure is
    /// reported locally and never reaches the sender of the message.
    Publish(Vec<u8>),
}

/// Ghost view of an action.
pub enum ActionView {
    Emit(EventView),
    AddPeer(Seq<u8>),
    RemovePeer(Seq<u8>),
    Publish(Seq<u8>),
}

impl View for Action {
    type V = ActionView;

    open spec fn view(&self) -> ActionView {
        match self {
            Action::Emit(e) => ActionView::Emit(e@),
            Action::AddPeer(id) => ActionView::AddPeer(id@),
            Action::RemovePeer(id) => ActionView::RemovePeer(id@),
            Action::Publish(p) => ActionView::Publish(p@),
        }
    }
}

/// The view of a list of actions.
pub open spec fn actions_view(acts: Seq<Action>) -> Seq<ActionView> {
    acts.map_values(|a: Action| a@)
}

} // verus!
