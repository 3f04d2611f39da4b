use vstd::prelude::*;

use crate::message::Message;

verus! {

#[verifier::external_type_specification]
#[verifier::external_body]
#[verifier::reject_recursive_types(T)]
pub struct ExSender<T>(futures::channel::mpsc::Sender<T>);

/// Relies on futures' `Clone` for `mpsc::Sender`: the clone sends into the
/// same channel.
pub assume_specification<T>[ <futures::channel::mpsc::Sender<T> as Clone>::clone ](
    tx: &futures::channel::mpsc::Sender<T>,
) -> futures::channel::mpsc::Sender<T>;

/// How many commands the command channel holds before it refuses more.
pub const COMMAND_CAPACITY: usize = 100;

/// A caller's capability to hand commands to the connection: the sending half
/// of its bounded command channel. Clones share the channel.
#[derive(Debug, Clone)]
pub struct Connection(pub futures::channel::mpsc::Sender<Message>);

/// What the connection reports to its caller.
#[derive(Debug, Clone)]
pub enum Event {
    /// A socket is open; commands go through the enclosed handle.
    Connected(Connection),
    /// The socket failed; the same address is being tried again.
    Disconnected,
    /// No socket is open; the enclosed handle takes the next address.
    Reconnect(Connection),
    /// A text frame arrived.
    MessageReceived(Message),
}

impl Connection {
    /// Queues `message` without waiting. A full channel, or one whose session
    /// has ended (a handle from before the latest `Connected` or `Reconnect`
    /// event), refuses it: the message comes back in `Err`.
    pub fn send(&mut self, message: Message) -> (r: Result<(), Message>)
        ensures
            r matches Err(m) ==> m == message,
    {
        try_enqueue(&mut self.0, message)
    }
}

/// Relies on futures' `mpsc::Sender::try_send`: it never blocks, and when it
/// refuses (channel full or receiver gone) its `TrySendError::into_inner`
/// gives back the very message that was handed in.
#[verifier::external_body]
fn try_enqueue(tx: &mut futures::channel::mpsc::Sender<Message>, message: Message) -> (r: Result<
    (),
    Message,
>)
    ensures
        r matches Err(m) ==> m == message,
{
    tx.try_send(message).map_err(|e| e.into_inner())
}

} // verus!
