//! The application-facing facade over one running overlay node: the sending
//! end of the bounded outbound channel and the receiving end of the bounded
//! unified-event channel. `send_message` makes a non-blocking enqueue
//! attempt and surfaces a full or closed channel synchronously; everything
//! else about the node is reached by draining the event receiver.

use vstd::prelude::*;

use crate::events::Event;

verus! {

/// The capacity of the outbound channel and of the event channel. Both are
/// bounded so that a slow consumer stalls further production instead of
/// growing memory without limit.
pub const CHANNEL_CAPACITY: usize = 32;

/// tokio's bounded-channel sender, declared so it can stand in fields and
/// signatures; nothing is assumed about it beyond the wrapped calls below.
#[verifier::external_type_specification]
#[verifier::external_body]
#[verifier::reject_recursive_types(T)]
pub struct ExSender<T>(tokio::sync::mpsc::Sender<T>);

/// tokio's bounded-channel receiver, declared so it can stand in fields.
#[verifier::external_type_specification]
#[verifier::external_body]
#[verifier::reject_recursive_types(T)]
pub struct ExReceiver<T>(tokio::sync::mpsc::Receiver<T>);

/// The outcome of one non-blocking enqueue attempt; the failing outcomes
/// return the message to the caller.
#[derive(Debug)]
pub enum SendAttempt {
    /// The channel accepted the message.
    Accepted,
    /// The channel was at capacity.
    Full(String),
    /// The receiving end was gone.
    Closed(String),
}

/// Why `send_message` failed: the outbound channel was full, or its
/// consuming side — the event loop — was gone.
#[derive(Debug, PartialEq, Eq, Structural)]
pub enum SendMessageError {
    ChannelFull,
    ChannelClosed,
}

/// Relies on tokio::sync::mpsc::Sender::try_send: it enqueues without ever
/// blocking, and on failure hands the message back — Full when the channel
/// is at capacity, Closed when the receiver has been dropped.
#[verifier::external_body]
fn try_send_text(tx: &tokio::sync::mpsc::Sender<String>, message: String) -> (r: SendAttempt)
    ensures
        (r matches SendAttempt::Full(m) ==> m == message),
        (r matches SendAttempt::Closed(m) ==> m == message),
{
    match tx.try_send(message) {
        Ok(()) => SendAttempt::Accepted,
        Err(tokio::sync::mpsc::error::TrySendError::Full(m)) => SendAttempt::Full(m),
        Err(tokio::sync::mpsc::error::TrySendError::Closed(m)) => SendAttempt::Closed(m),
    }
}

/// What each enqueue outcome means to the caller: acceptance is success, a
/// full channel and a closed channel each surface as their own error, and
/// nothing else is reported — in particular no outcome of the later publish,
/// which never reaches the sender.
pub fn attempt_result(a: SendAttempt) -> (r: Result<(), SendMessageError>)
    ensures
        (a is Accepted <==> r is Ok),
        (a matches SendAttempt::Full(_) <==> r == Result::<(), SendMessageError>::Err(
            SendMessageError::ChannelFull,
        )),
        (a matches SendAttempt::Closed(_) <==> r == Result::<(), SendMessageError>::Err(
            SendMessageError::ChannelClosed,
        )),
{
    match a {
        SendAttempt::Accepted => Ok(()),
        SendAttempt::Full(_) => Err(SendMessageError::ChannelFull),
        SendAttempt::Closed(_) => Err(SendMessageError::ChannelClosed),
    }
}

/// One running overlay node, as the application sees it.
pub struct Patron {
    /// Unified events out of the node's event loop, in FIFO order.
    pub rx: tokio::sync::mpsc::Receiver<Event>,
    tx: tokio::sync::mpsc::Sender<String>,
}

impl Patron {
    /// A facade over the two channel ends `serve` returns for one node.
    pub fn new(
        rx: tokio::sync::mpsc::Receiver<Event>,
        tx: tokio::sync::mpsc::Sender<String>,
    ) -> Patron {
        Patron { rx, tx }
    }

    /// Attempt, without blocking, to enqueue `message` for publication.
    /// Success means the message reached the outbound channel — publication
    /// itself happens later in the event loop, and its failure never comes
    /// back to this caller. The only errors are a full channel and a closed
    /// channel, reported synchronously.
    pub fn send_message(&self, message: String) -> (r: Result<(), SendMessageError>)
        ensures
            r is Ok || r == Result::<(), SendMessageError>::Err(SendMessageError::ChannelFull)
                || r == Result::<(), SendMessageError>::Err(SendMessageError::ChannelClosed),
    {
        attempt_result(try_send_text(&self.tx, message))
    }
}

} // verus!
