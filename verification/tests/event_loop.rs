use patron::event_loop::EventLoop;
use patron::event_loop::outbound_actions;
use patron::events::Action;
use patron::events::Event;
use patron::events::NetworkEvent;
use patron::events::PeerRecord;
use patron::identity::Address;
use patron::identity::Identity;
use patron::identity::MessageIdentity;

fn record(id: u8, addr: u8) -> PeerRecord {
    PeerRecord { identity: Identity::new(vec![id]), address: Address::new(vec![addr]) }
}

#[test]
fn announcement_batch_fans_out_one_event_and_one_addition_per_pair() {
    let mut lp = EventLoop::new();
    let actions = lp.handle_network_event(NetworkEvent::Discovered(vec![
        record(1, 10),
        record(2, 20),
        record(3, 30),
    ]));
    assert_eq!(actions.len(), 6);
    for i in 0..3usize {
        let id = (i + 1) as u8;
        let ad = (10 * (i + 1)) as u8;
        match &actions[2 * i] {
            Action::Emit(Event::Discovered { identity, address }) => {
                assert_eq!(identity.bytes, vec![id]);
                assert_eq!(address.bytes, vec![ad]);
            }
            _ => panic!("expected an emitted discovery event"),
        }
        match &actions[2 * i + 1] {
            Action::AddPeer(identity) => assert_eq!(identity.bytes, vec![id]),
            _ => panic!("expected a peer addition"),
        }
    }
    assert!(lp.peers.contains(&Identity::new(vec![1])));
    assert!(lp.peers.contains(&Identity::new(vec![2])));
    assert!(lp.peers.contains(&Identity::new(vec![3])));
}

#[test]
fn expiration_emits_exactly_once_and_removes_the_peer() {
    let mut lp = EventLoop::new();
    lp.handle_network_event(NetworkEvent::Discovered(vec![record(5, 50)]));
    assert!(lp.peers.contains(&Identity::new(vec![5])));
    let actions = lp.handle_network_event(NetworkEvent::Expired(vec![record(5, 50)]));
    assert_eq!(actions.len(), 2);
    match &actions[0] {
        Action::Emit(Event::Expired { identity, address }) => {
            assert_eq!(identity.bytes, vec![5]);
            assert_eq!(address.bytes, vec![50]);
        }
        _ => panic!("expected an emitted expiration event"),
    }
    match &actions[1] {
        Action::RemovePeer(identity) => assert_eq!(identity.bytes, vec![5]),
        _ => panic!("expected a peer removal"),
    }
    assert!(!lp.peers.contains(&Identity::new(vec![5])));
}

#[test]
fn gossip_delivery_is_forwarded_unchanged() {
    let mut lp = EventLoop::new();
    let actions = lp.handle_network_event(NetworkEvent::Message {
        source: Identity::new(vec![9]),
        identity: MessageIdentity::new(vec![48, 49]),
        payload: b"abcdefg".to_vec(),
    });
    assert_eq!(actions.len(), 1);
    match &actions[0] {
        Action::Emit(Event::Message { source, identity, payload }) => {
            assert_eq!(source.bytes, vec![9]);
            assert_eq!(identity.bytes, vec![48, 49]);
            assert_eq!(payload, b"abcdefg");
        }
        _ => panic!("expected an emitted gossip message"),
    }
    assert!(!lp.peers.contains(&Identity::new(vec![9])));
}

#[test]
fn listener_and_unknown_events_are_ignored() {
    let mut lp = EventLoop::new();
    let a = lp.handle_network_event(NetworkEvent::ListenerBound(Address::new(vec![7])));
    assert_eq!(a.len(), 0);
    let b = lp.handle_network_event(NetworkEvent::Other);
    assert_eq!(b.len(), 0);
}

#[test]
fn outbound_message_becomes_exactly_one_publish_of_its_bytes() {
    let actions = outbound_actions(Some(String::from("abcdefg")));
    assert_eq!(actions.len(), 1);
    match &actions[0] {
        Action::Publish(bytes) => assert_eq!(bytes, b"abcdefg"),
        _ => panic!("expected a publish action"),
    }
}

#[test]
fn closed_outbound_channel_does_nothing() {
    let actions = outbound_actions(None);
    assert_eq!(actions.len(), 0);
}

#[test]
fn rediscovered_peer_alternates_additions_and_removals() {
    let mut lp = EventLoop::new();
    lp.handle_network_event(NetworkEvent::Discovered(vec![record(4, 40)]));
    lp.handle_network_event(NetworkEvent::Expired(vec![record(4, 40)]));
    assert!(!lp.peers.contains(&Identity::new(vec![4])));
    lp.handle_network_event(NetworkEvent::Discovered(vec![record(4, 41)]));
    assert!(lp.peers.contains(&Identity::new(vec![4])));
}

#[test]
fn two_nodes_exchange_a_message_once_discovered() {
    // Two loop states, one per node; discovery tells each about the other.
    let mut node_a = EventLoop::new();
    let mut node_b = EventLoop::new();
    let id_a = Identity::new(vec![0xaa; 4]);
    let id_b = Identity::new(vec![0xbb; 4]);
    node_a.handle_network_event(NetworkEvent::Discovered(vec![PeerRecord {
        identity: id_b.duplicate(),
        address: Address::new(vec![1]),
    }]));
    node_b.handle_network_event(NetworkEvent::Discovered(vec![PeerRecord {
        identity: id_a.duplicate(),
        address: Address::new(vec![2]),
    }]));
    assert!(node_a.peers.contains(&id_b));
    assert!(node_b.peers.contains(&id_a));

    // Node A sends a 7-character message: one publish of its bytes.
    let actions = outbound_actions(Some(String::from("abcdefg")));
    let payload = match &actions[0] {
        Action::Publish(bytes) => bytes.clone(),
        _ => panic!("expected a publish action"),
    };

    // The gossip capability delivers it to node B under its content-derived
    // identity; node B's loop forwards it unchanged.
    let delivered = node_b.handle_network_event(NetworkEvent::Message {
        source: id_a.duplicate(),
        identity: MessageIdentity::from_payload(&payload),
        payload: payload.clone(),
    });
    assert_eq!(delivered.len(), 1);
    match &delivered[0] {
        Action::Emit(Event::Message { source, identity, payload }) => {
            assert!(source.same_as(&id_a));
            assert_eq!(payload, b"abcdefg");
            assert!(identity.same_as(&MessageIdentity::from_payload(b"abcdefg")));
        }
        _ => panic!("expected an emitted gossip message"),
    }
}
