use patron::events::Event;
use patron::facade::Patron;
use patron::facade::CHANNEL_CAPACITY;
use patron::facade::SendMessageError;

#[test]
fn send_message_succeeds_before_any_peer_is_discovered() {
    let (tx, _outbound) = tokio::sync::mpsc::channel::<String>(CHANNEL_CAPACITY);
    let (_etx, erx) = tokio::sync::mpsc::channel::<Event>(CHANNEL_CAPACITY);
    let p = Patron::new(erx, tx);
    assert!(p.send_message(String::from("abcdefg")).is_ok());
}

#[test]
fn a_full_outbound_channel_fails_synchronously_and_drops_nothing() {
    let (tx, mut outbound) = tokio::sync::mpsc::channel::<String>(CHANNEL_CAPACITY);
    let (_etx, erx) = tokio::sync::mpsc::channel::<Event>(CHANNEL_CAPACITY);
    let p = Patron::new(erx, tx);
    for i in 0..CHANNEL_CAPACITY {
        assert!(p.send_message(format!("m{}", i)).is_ok());
    }
    assert_eq!(p.send_message(String::from("m32")), Err(SendMessageError::ChannelFull));
    let first = outbound.try_recv().expect("one queued message");
    assert_eq!(first, "m0");
    assert!(p.send_message(String::from("m32")).is_ok());
    for i in 1..33 {
        let got = outbound.try_recv().expect("queued message");
        if i < CHANNEL_CAPACITY {
            assert_eq!(got, format!("m{}", i));
        } else {
            assert_eq!(got, "m32");
        }
    }
}

#[test]
fn a_closed_outbound_channel_fails_with_channel_closed() {
    let (tx, outbound) = tokio::sync::mpsc::channel::<String>(CHANNEL_CAPACITY);
    let (_etx, erx) = tokio::sync::mpsc::channel::<Event>(CHANNEL_CAPACITY);
    let p = Patron::new(erx, tx);
    drop(outbound);
    assert_eq!(p.send_message(String::from("abcdefg")), Err(SendMessageError::ChannelClosed));
}
