//! The decision core of the event loop. One loop iteration consumes either
//! an outbound publish request or one inbound network event; the functions
//! here turn that input into the exact list of side effects the iteration
//! performs, and keep the explicit-peer bookkeeping in step with discovery.
//! The caller that owns the node drives the loop: it waits for the next
//! input, calls these functions, and performs the returned actions in order.

use vstd::prelude::*;
use vstd::string::StrSliceExecFns;

use crate::events::Action;
use crate::events::ActionView;
use crate::events::Event;
use crate::events::EventView;
use crate::events::NetworkEvent;
use crate::events::NetworkEventView;
use crate::events::PeerRecord;
use crate::events::PeerRecordView;
use crate::events::actions_view;
use crate::events::records_view;
use crate::peers::ExplicitPeerSet;

verus! {

/// The two actions for one announced peer: emit the event, then add the peer.
pub open spec fn announce_actions(p: PeerRecordView) -> Seq<ActionView> {
    seq![
        ActionView::Emit(EventView::Discovered { id: p.id, addr: p.addr }),
        ActionView::AddPeer(p.id),
    ]
}

/// The two actions for one expired peer: emit the event, then remove the peer.
pub open spec fn expire_actions(p: PeerRecordView) -> Seq<ActionView> {
    seq![
        ActionView::Emit(EventView::Expired { id: p.id, addr: p.addr }),
        ActionView::RemovePeer(p.id),
    ]
}

/// The actions for a whole discovery batch, pair by pair in batch order;
/// `announced` tells an announcement batch from an expiration batch.
pub open spec fn batch_actions(ps: Seq<PeerRecordView>, announced: bool) -> Seq<ActionView>
    decreases ps.len(),
{
    if ps.len() == 0 {
        Seq::empty()
    } else {
        batch_actions(ps.drop_last(), announced) + (if announced {
            announce_actions(ps.last())
        } else {
            expire_actions(ps.last())
        })
    }
}

/// The identities named in a discovery batch.
pub open spec fn batch_ids(ps: Seq<PeerRecordView>) -> Set<Seq<u8>>
    decreases ps.len(),
{
    if ps.len() == 0 {
        Set::empty()
    } else {
        batch_ids(ps.drop_last()).insert(ps.last().id)
    }
}

/// The actions one inbound network event gives rise to.
pub open spec fn network_event_actions(ev: NetworkEventView) -> Seq<ActionView> {
    match ev {
        NetworkEventView::Discovered(ps) => batch_actions(ps, true),
        NetworkEventView::Expired(ps) => batch_actions(ps, false),
        NetworkEventView::Message { source, identity, payload } => seq![
            ActionView::Emit(EventView::Message { source, identity, payload }),
        ],
        NetworkEventView::ListenerBound(_) => Seq::empty(),
        NetworkEventView::Other => Seq::empty(),
    }
}

/// The explicit-peer set after one inbound network event: announcements add
/// their identities, expirations remove theirs, nothing else touches it.
pub open spec fn peers_after(peers: Set<Seq<u8>>, ev: NetworkEventView) -> Set<Seq<u8>> {
    match ev {
        NetworkEventView::Discovered(ps) => peers.union(batch_ids(ps)),
        NetworkEventView::Expired(ps) => peers.difference(batch_ids(ps)),
        NetworkEventView::Message { .. } => peers,
        NetworkEventView::ListenerBound(_) => peers,
        NetworkEventView::Other => peers,
    }
}

/// The state the event loop carries between iterations: its record of which
/// identities the gossip capability currently treats as explicit peers.
pub struct EventLoop {
    pub peers: ExplicitPeerSet,
}

impl EventLoop {
    /// A fresh loop state with no explicit peers.
    pub fn new() -> (r: EventLoop)
        ensures
            r.peers@ == Set::<Seq<u8>>::empty(),
    {
        EventLoop { peers: ExplicitPeerSet::new() }
    }

    /// Handle one inbound network event: the returned actions are exactly
    /// those of `network_event_actions`, in order, and the explicit-peer
    /// record moves to `peers_after`. A discovery batch of N pairs thus
    /// yields one emitted event and one peer-set update per pair — never
    /// fewer, never a batched event — and every other event kind leaves the
    /// peer set untouched.
    pub fn handle_network_event(&mut self, ev: NetworkEvent) -> (actions: Vec<Action>)
        ensures
            actions_view(actions@) == network_event_actions(ev@),
            final(self).peers@ == peers_after(old(self).peers@, ev@),
    {
        match ev {
            NetworkEvent::Discovered(rs) => self.process_batch(rs, true),
            NetworkEvent::Expired(rs) => self.process_batch(rs, false),
            NetworkEvent::Message { source, identity, payload } => {
                let mut actions: Vec<Action> = Vec::new();
                actions.push(Action::Emit(Event::Message { source, identity, payload }));
                proof {
                    assert(actions_view(actions@) =~= network_event_actions(ev@));
                }
                actions
            },
            NetworkEvent::ListenerBound(_) => {
                let actions: Vec<Action> = Vec::new();
                proof {
                    assert(actions_view(actions@) =~= network_event_actions(ev@));
                }
                actions
            },
            NetworkEvent::Other => {
                let actions: Vec<Action> = Vec::new();
                proof {
                    assert(actions_view(actions@) =~= network_event_actions(ev@));
                }
                actions
            },
        }
    }

    /// Walk one discovery batch pair by pair: for each pair, first the emit
    /// action, then the peer-set action, both recorded before the next pair.
    fn process_batch(&mut self, records: Vec<PeerRecord>, announced: bool) -> (actions: Vec<
        Action,
    >)
        ensures
            actions_view(actions@) == batch_actions(records_view(records@), announced),
            announced ==> final(self).peers@ == old(self).peers@.union(
                batch_ids(records_view(records@)),
            ),
            !announced ==> final(self).peers@ == old(self).peers@.difference(
                batch_ids(records_view(records@)),
            ),
    {
        let ghost rv = records_view(records@);
        let mut actions: Vec<Action> = Vec::new();
        let mut i: usize = 0;
        while i < records.len()
            invariant
                i <= records@.len(),
                rv == records_view(records@),
                actions_view(actions@) =~= batch_actions(rv.take(i as int), announced),
                announced ==> self.peers@ =~= old(self).peers@.union(
                    batch_ids(rv.take(i as int)),
                ),
                !announced ==> self.peers@ =~= old(self).peers@.difference(
                    batch_ids(rv.take(i as int)),
                ),
            decreases records@.len() - i,
        {
            let identity = records[i].identity.duplicate();
            let address = records[i].address.duplicate();
            let ghost prev_actions = actions@;
            let ghost prev_peers = self.peers@;
            if announced {
                actions.push(Action::Emit(Event::Discovered { identity, address }));
                actions.push(Action::AddPeer(records[i].identity.duplicate()));
                self.peers.insert(records[i].identity.duplicate());
            } else {
                actions.push(Action::Emit(Event::Expired { identity, address }));
                actions.push(Action::RemovePeer(records[i].identity.duplicate()));
                self.peers.remove(&records[i].identity);
            }
            proof {
                let next = i as int + 1;
                assert(rv.take(next).drop_last() =~= rv.take(i as int));
                assert(rv.take(next).last() == records@[i as int]@);
                assert(actions_view(actions@) =~= actions_view(prev_actions) + (if announced {
                    announce_actions(rv[i as int])
                } else {
                    expire_actions(rv[i as int])
                }));
                if announced {
                    assert(self.peers@ =~= old(self).peers@.union(batch_ids(rv.take(next))));
                } else {
                    assert(self.peers@ =~= old(self).peers@.difference(batch_ids(rv.take(next))));
                }
            }
            i = i + 1;
        }
        proof {
            assert(rv.take(records@.len() as int) =~= rv);
        }
        actions
    }
}

/// Handle one receipt from the outbound channel: a message becomes exactly
/// one publish of its UTF-8 bytes — there is no failure path back to the
/// sender, and no retry — and a closed channel (`None`) does nothing, so the
/// loop goes on serving network events.
pub fn outbound_actions(msg: Option<String>) -> (actions: Vec<Action>)
    ensures
        msg matches Some(m) ==> actions_view(actions@) == seq![
            ActionView::Publish(vstd::utf8::encode_utf8(m@)),
        ],
        msg is None ==> actions_view(actions@) == Seq::<ActionView>::empty(),
{
    match msg {
        Some(m) => {
            let bytes = m.as_str().as_bytes_vec();
            let mut actions: Vec<Action> = Vec::new();
            actions.push(Action::Publish(bytes));
            proof {
                assert(actions_view(actions@) =~= seq![
                    ActionView::Publish(vstd::utf8::encode_utf8(m@)),
                ]);
            }
            actions
        },
        None => {
            let actions: Vec<Action> = Vec::new();
            proof {
                assert(actions_view(actions@) =~= Seq::<ActionView>::empty());
            }
            actions
        },
    }
}

} // verus!
