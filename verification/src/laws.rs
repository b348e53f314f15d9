//! Laws of the event loop, stated over the ghost action vocabulary and
//! proved from the specifications in `event_loop`: discovery batches fan out
//! one emitted event and one peer-set update per pair, and over any run the
//! peer-set operations for an identity follow its discovery announcements
//! and expirations exactly, in order.

use vstd::prelude::*;
use vstd::utf8::encode_utf8;

use crate::event_loop::announce_actions;
use crate::event_loop::batch_actions;
use crate::event_loop::expire_actions;
use crate::event_loop::network_event_actions;
use crate::events::ActionView;
use crate::events::EventView;
use crate::events::NetworkEventView;
use crate::events::PeerRecordView;

verus! {

/// The events emitted by a list of actions, in order.
pub open spec fn emitted(acts: Seq<ActionView>) -> Seq<EventView>
    decreases acts.len(),
{
    if acts.len() == 0 {
        Seq::empty()
    } else {
        emitted(acts.drop_last()) + (match acts.last() {
            ActionView::Emit(e) => seq![e],
            _ => Seq::empty(),
        })
    }
}

/// The identities a list of actions adds to the explicit-peer set, in order.
pub open spec fn peer_additions(acts: Seq<ActionView>) -> Seq<Seq<u8>>
    decreases acts.len(),
{
    if acts.len() == 0 {
        Seq::empty()
    } else {
        peer_additions(acts.drop_last()) + (match acts.last() {
            ActionView::AddPeer(id) => seq![id],
            _ => Seq::empty(),
        })
    }
}

/// The identities a list of actions removes from the explicit-peer set.
pub open spec fn peer_removals(acts: Seq<ActionView>) -> Seq<Seq<u8>>
    decreases acts.len(),
{
    if acts.len() == 0 {
        Seq::empty()
    } else {
        peer_removals(acts.drop_last()) + (match acts.last() {
            ActionView::RemovePeer(id) => seq![id],
            _ => Seq::empty(),
        })
    }
}

/// The peer-set operations a list of actions performs on one identity, in
/// order; `true` is an addition, `false` a removal.
pub open spec fn peer_ops_for(id: Seq<u8>, acts: Seq<ActionView>) -> Seq<bool>
    decreases acts.len(),
{
    if acts.len() == 0 {
        Seq::empty()
    } else {
        peer_ops_for(id, acts.drop_last()) + (match acts.last() {
            ActionView::AddPeer(i) => if i == id {
                seq![true]
            } else {
                Seq::empty()
            },
            ActionView::RemovePeer(i) => if i == id {
                seq![false]
            } else {
                Seq::empty()
            },
            _ => Seq::empty(),
        })
    }
}

/// The announcements (`true`) and expirations (`false`) of one identity in
/// one discovery batch, in batch order.
pub open spec fn batch_ops_for(id: Seq<u8>, ps: Seq<PeerRecordView>, announced: bool) -> Seq<bool>
    decreases ps.len(),
{
    if ps.len() == 0 {
        Seq::empty()
    } else {
        batch_ops_for(id, ps.drop_last(), announced) + (if ps.last().id == id {
            seq![announced]
        } else {
            Seq::empty()
        })
    }
}

/// The announcements and expirations of one identity in one network event.
pub open spec fn event_ops_for(id: Seq<u8>, ev: NetworkEventView) -> Seq<bool> {
    match ev {
        NetworkEventView::Discovered(ps) => batch_ops_for(id, ps, true),
        NetworkEventView::Expired(ps) => batch_ops_for(id, ps, false),
        NetworkEventView::Message { .. } => Seq::empty(),
        NetworkEventView::ListenerBound(_) => Seq::empty(),
        NetworkEventView::Other => Seq::empty(),
    }
}

/// One input to the event loop: a message received from the outbound
/// channel, the outbound channel found closed, or one inbound network event.
pub enum LoopInputView {
    Outbound(Seq<char>),
    OutboundClosed,
    Network(NetworkEventView),
}

/// The actions one loop input gives rise to.
pub open spec fn input_actions(i: LoopInputView) -> Seq<ActionView> {
    match i {
        LoopInputView::Outbound(m) => seq![ActionView::Publish(encode_utf8(m))],
        LoopInputView::OutboundClosed => Seq::empty(),
        LoopInputView::Network(ev) => network_event_actions(ev),
    }
}

/// The announcements and expirations of one identity in one loop input;
/// outbound traffic never carries any.
pub open spec fn input_ops_for(id: Seq<u8>, i: LoopInputView) -> Seq<bool> {
    match i {
        LoopInputView::Network(ev) => event_ops_for(id, ev),
        _ => Seq::empty(),
    }
}

/// The announcements and expirations of one identity over a whole run.
pub open spec fn discovery_ops_for(id: Seq<u8>, inputs: Seq<LoopInputView>) -> Seq<bool>
    decreases inputs.len(),
{
    if inputs.len() == 0 {
        Seq::empty()
    } else {
        discovery_ops_for(id, inputs.drop_last()) + input_ops_for(id, inputs.last())
    }
}

/// All actions of a run of the loop over the inputs it consumed, in order.
pub open spec fn run_actions(inputs: Seq<LoopInputView>) -> Seq<ActionView>
    decreases inputs.len(),
{
    if inputs.len() == 0 {
        Seq::empty()
    } else {
        run_actions(inputs.drop_last()) + input_actions(inputs.last())
    }
}

/// Strict add/remove alternation for one identity: the first operation, if
/// any, is an addition, and no two consecutive operations are alike, so a
/// removal is never observed without an addition since the last removal.
pub open spec fn alternates_from_addition(ops: Seq<bool>) -> bool {
    &&& (ops.len() > 0 ==> ops[0] == true)
    &&& (forall|i: int| 0 <= i < ops.len() - 1 ==> #[trigger] ops[i] != ops[i + 1])
}

/// One more action extends the emitted events by that action's event, if any.
proof fn lemma_emitted_push(acts: Seq<ActionView>, a: ActionView)
    ensures
        emitted(acts.push(a)) == emitted(acts) + (match a {
            ActionView::Emit(e) => seq![e],
            _ => Seq::<EventView>::empty(),
        }),
{
    assert(acts.push(a).drop_last() =~= acts);
    assert(acts.push(a).last() == a);
}

/// One more action extends the additions by its identity, if it adds one.
proof fn lemma_additions_push(acts: Seq<ActionView>, a: ActionView)
    ensures
        peer_additions(acts.push(a)) == peer_additions(acts) + (match a {
            ActionView::AddPeer(id) => seq![id],
            _ => Seq::<Seq<u8>>::empty(),
        }),
{
    assert(acts.push(a).drop_last() =~= acts);
    assert(acts.push(a).last() == a);
}

/// One more action extends the removals by its identity, if it removes one.
proof fn lemma_removals_push(acts: Seq<ActionView>, a: ActionView)
    ensures
        peer_removals(acts.push(a)) == peer_removals(acts) + (match a {
            ActionView::RemovePeer(id) => seq![id],
            _ => Seq::<Seq<u8>>::empty(),
        }),
{
    assert(acts.push(a).drop_last() =~= acts);
    assert(acts.push(a).last() == a);
}

/// One more action extends the operations on `id` by at most one entry.
proof fn lemma_peer_ops_push(id: Seq<u8>, acts: Seq<ActionView>, a: ActionView)
    ensures
        peer_ops_for(id, acts.push(a)) == peer_ops_for(id, acts) + (match a {
            ActionView::AddPeer(i) => if i == id {
                seq![true]
            } else {
                Seq::<bool>::empty()
            },
            ActionView::RemovePeer(i) => if i == id {
                seq![false]
            } else {
                Seq::<bool>::empty()
            },
            _ => Seq::<bool>::empty(),
        }),
{
    assert(acts.push(a).drop_last() =~= acts);
    assert(acts.push(a).last() == a);
}

/// Law: a discovery announcement batch of N pairs fans out into exactly N
/// emitted events — the i-th carrying exactly the i-th (identity, address)
/// pair — and exactly N peer additions, the i-th naming the i-th identity,
/// with no removals.
pub proof fn lemma_announce_fan_out(ps: Seq<PeerRecordView>)
    ensures
        emitted(batch_actions(ps, true)) == ps.map_values(
            |p: PeerRecordView| (EventView::Discovered { id: p.id, addr: p.addr }),
        ),
        peer_additions(batch_actions(ps, true)) == ps.map_values(|p: PeerRecordView| p.id),
        peer_removals(batch_actions(ps, true)) == Seq::<Seq<u8>>::empty(),
    decreases ps.len(),
{
    let evs = ps.map_values(|p: PeerRecordView| (EventView::Discovered { id: p.id, addr: p.addr }));
    let adds = ps.map_values(|p: PeerRecordView| p.id);
    if ps.len() == 0 {
        assert(evs =~= Seq::<EventView>::empty());
        assert(adds =~= Seq::<Seq<u8>>::empty());
    } else {
        lemma_announce_fan_out(ps.drop_last());
        let e1 = ActionView::Emit(
            EventView::Discovered { id: ps.last().id, addr: ps.last().addr },
        );
        let e2 = ActionView::AddPeer(ps.last().id);
        let front = batch_actions(ps.drop_last(), true);
        let whole = batch_actions(ps, true);
        assert(whole == front + announce_actions(ps.last()));
        assert(whole =~= front.push(e1).push(e2));
        lemma_emitted_push(front, e1);
        lemma_emitted_push(front.push(e1), e2);
        lemma_additions_push(front, e1);
        lemma_additions_push(front.push(e1), e2);
        lemma_removals_push(front, e1);
        lemma_removals_push(front.push(e1), e2);
        assert(ps.drop_last().map_values(
            |p: PeerRecordView| (EventView::Discovered { id: p.id, addr: p.addr }),
        ) =~= evs.drop_last());
        assert(ps.drop_last().map_values(|p: PeerRecordView| p.id) =~= adds.drop_last());
        assert(emitted(whole) =~= evs);
        assert(peer_additions(whole) =~= adds);
        assert(peer_removals(whole) =~= Seq::<Seq<u8>>::empty());
    }
}

/// Law: a discovery expiration batch of N pairs fans out into exactly N
/// emitted events, one per pair, and exactly N peer removals, one per
/// identity, with no additions.
pub proof fn lemma_expire_fan_out(ps: Seq<PeerRecordView>)
    ensures
        emitted(batch_actions(ps, false)) == ps.map_values(
            |p: PeerRecordView| (EventView::Expired { id: p.id, addr: p.addr }),
        ),
        peer_removals(batch_actions(ps, false)) == ps.map_values(|p: PeerRecordView| p.id),
        peer_additions(batch_actions(ps, false)) == Seq::<Seq<u8>>::empty(),
    decreases ps.len(),
{
    let evs = ps.map_values(|p: PeerRecordView| (EventView::Expired { id: p.id, addr: p.addr }));
    let removes = ps.map_values(|p: PeerRecordView| p.id);
    if ps.len() == 0 {
        assert(evs =~= Seq::<EventView>::empty());
        assert(removes =~= Seq::<Seq<u8>>::empty());
    } else {
        lemma_expire_fan_out(ps.drop_last());
        let e1 = ActionView::Emit(
            EventView::Expired { id: ps.last().id, addr: ps.last().addr },
        );
        let e2 = ActionView::RemovePeer(ps.last().id);
        let front = batch_actions(ps.drop_last(), false);
        let whole = batch_actions(ps, false);
        assert(whole == front + expire_actions(ps.last()));
        assert(whole =~= front.push(e1).push(e2));
        lemma_emitted_push(front, e1);
        lemma_emitted_push(front.push(e1), e2);
        lemma_additions_push(front, e1);
        lemma_additions_push(front.push(e1), e2);
        lemma_removals_push(front, e1);
        lemma_removals_push(front.push(e1), e2);
        assert(ps.drop_last().map_values(
            |p: PeerRecordView| (EventView::Expired { id: p.id, addr: p.addr }),
        ) =~= evs.drop_last());
        assert(ps.drop_last().map_values(|p: PeerRecordView| p.id) =~= removes.drop_last());
        assert(emitted(whole) =~= evs);
        assert(peer_removals(whole) =~= removes);
        assert(peer_additions(whole) =~= Seq::<Seq<u8>>::empty());
    }
}

/// The per-identity operations of concatenated actions are the operations of
/// each part, concatenated.
proof fn lemma_peer_ops_concat(id: Seq<u8>, a: Seq<ActionView>, b: Seq<ActionView>)
    ensures
        peer_ops_for(id, a + b) == peer_ops_for(id, a) + peer_ops_for(id, b),
    decreases b.len(),
{
    if b.len() == 0 {
        assert(a + b =~= a);
        assert(peer_ops_for(id, a) + peer_ops_for(id, b) =~= peer_ops_for(id, a));
    } else {
        lemma_peer_ops_concat(id, a, b.drop_last());
        assert(a + b =~= (a + b.drop_last()).push(b.last()));
        assert(b =~= b.drop_last().push(b.last()));
        lemma_peer_ops_push(id, a + b.drop_last(), b.last());
        lemma_peer_ops_push(id, b.drop_last(), b.last());
        assert(peer_ops_for(id, a + b) =~= peer_ops_for(id, a) + peer_ops_for(id, b));
    }
}

/// In one discovery batch, the peer-set operations for an identity are
/// exactly its occurrences in the batch.
proof fn lemma_batch_ops(id: Seq<u8>, ps: Seq<PeerRecordView>, announced: bool)
    ensures
        peer_ops_for(id, batch_actions(ps, announced)) == batch_ops_for(id, ps, announced),
    decreases ps.len(),
{
    if ps.len() == 0 {
    } else {
        lemma_batch_ops(id, ps.drop_last(), announced);
        let e1 = if announced {
            ActionView::Emit(EventView::Discovered { id: ps.last().id, addr: ps.last().addr })
        } else {
            ActionView::Emit(EventView::Expired { id: ps.last().id, addr: ps.last().addr })
        };
        let e2 = if announced {
            ActionView::AddPeer(ps.last().id)
        } else {
            ActionView::RemovePeer(ps.last().id)
        };
        let front = batch_actions(ps.drop_last(), announced);
        assert(batch_actions(ps, announced) =~= front.push(e1).push(e2));
        lemma_peer_ops_push(id, front, e1);
        lemma_peer_ops_push(id, front.push(e1), e2);
        assert(peer_ops_for(id, batch_actions(ps, announced)) =~= batch_ops_for(
            id,
            ps,
            announced,
        ));
    }
}

/// In the actions of one network event, the peer-set operations for an
/// identity are exactly its announcements and expirations in that event.
proof fn lemma_event_ops(id: Seq<u8>, ev: NetworkEventView)
    ensures
        peer_ops_for(id, network_event_actions(ev)) == event_ops_for(id, ev),
{
    match ev {
        NetworkEventView::Discovered(ps) => lemma_batch_ops(id, ps, true),
        NetworkEventView::Expired(ps) => lemma_batch_ops(id, ps, false),
        NetworkEventView::Message { source, identity, payload } => {
            let acts = network_event_actions(ev);
            let e = ActionView::Emit(EventView::Message { source, identity, payload });
            assert(acts =~= Seq::<ActionView>::empty().push(e));
            lemma_peer_ops_push(id, Seq::<ActionView>::empty(), e);
            assert(peer_ops_for(id, acts) =~= Seq::<bool>::empty());
        },
        NetworkEventView::ListenerBound(_) => {},
        NetworkEventView::Other => {},
    }
}

/// In the actions of one loop input, the peer-set operations for an
/// identity are exactly its announcements and expirations in that input;
/// in particular an outbound publish performs none.
proof fn lemma_input_ops(id: Seq<u8>, i: LoopInputView)
    ensures
        peer_ops_for(id, input_actions(i)) == input_ops_for(id, i),
{
    match i {
        LoopInputView::Outbound(m) => {
            let acts = input_actions(i);
            let a = ActionView::Publish(encode_utf8(m));
            assert(acts =~= Seq::<ActionView>::empty().push(a));
            lemma_peer_ops_push(id, Seq::<ActionView>::empty(), a);
            assert(peer_ops_for(id, acts) =~= Seq::<bool>::empty());
        },
        LoopInputView::OutboundClosed => {},
        LoopInputView::Network(ev) => lemma_event_ops(id, ev),
    }
}

/// Law: over any run of the loop — outbound publishes and inbound network
/// events interleaved in any order — the peer-set operations performed on
/// one identity are exactly that identity's discovery announcements and
/// expirations, in order: an addition for each announcement, a removal for
/// each expiration, and nothing else.
pub proof fn lemma_peer_ops_follow_discovery(id: Seq<u8>, inputs: Seq<LoopInputView>)
    ensures
        peer_ops_for(id, run_actions(inputs)) == discovery_ops_for(id, inputs),
    decreases inputs.len(),
{
    if inputs.len() == 0 {
    } else {
        lemma_peer_ops_follow_discovery(id, inputs.drop_last());
        lemma_peer_ops_concat(id, run_actions(inputs.drop_last()), input_actions(inputs.last()));
        lemma_input_ops(id, inputs.last());
    }
}

/// Law: publishing is fire-and-forget. The actions of one outbound message
/// are a single publish: they emit no event toward the application and
/// perform no peer-set operation, so nothing about the publish — in
/// particular no failure — ever reaches the sender, whose `send_message`
/// call already returned at enqueue time.
pub proof fn lemma_publish_fire_and_forget(m: Seq<char>)
    ensures
        input_actions(LoopInputView::Outbound(m)) == seq![
            ActionView::Publish(encode_utf8(m)),
        ],
        emitted(input_actions(LoopInputView::Outbound(m))) == Seq::<EventView>::empty(),
        peer_additions(input_actions(LoopInputView::Outbound(m))) == Seq::<Seq<u8>>::empty(),
        peer_removals(input_actions(LoopInputView::Outbound(m))) == Seq::<Seq<u8>>::empty(),
{
    let a = ActionView::Publish(encode_utf8(m));
    let acts = input_actions(LoopInputView::Outbound(m));
    assert(acts =~= Seq::<ActionView>::empty().push(a));
    lemma_emitted_push(Seq::<ActionView>::empty(), a);
    lemma_additions_push(Seq::<ActionView>::empty(), a);
    lemma_removals_push(Seq::<ActionView>::empty(), a);
    assert(emitted(acts) =~= Seq::<EventView>::empty());
    assert(peer_additions(acts) =~= Seq::<Seq<u8>>::empty());
    assert(peer_removals(acts) =~= Seq::<Seq<u8>>::empty());
}

/// Law: if discovery announces and expires an identity in strict alternation
/// starting with an announcement — as a discovery protocol that only expires
/// what it announced does — then the additions and removals of that identity
/// alternate the same way: it is never removed before being added, and never
/// added or removed twice in a row.
pub proof fn lemma_peer_lifecycle(id: Seq<u8>, inputs: Seq<LoopInputView>)
    requires
        alternates_from_addition(discovery_ops_for(id, inputs)),
    ensures
        alternates_from_addition(peer_ops_for(id, run_actions(inputs))),
{
    lemma_peer_ops_follow_discovery(id, inputs);
}

} // verus!
