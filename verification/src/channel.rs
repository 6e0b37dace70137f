use tokio::sync::mpsc::{Receiver, Sender};
use vstd::prelude::*;

use crate::message::Message;

verus! {

#[verifier::external_type_specification]
#[verifier::external_body]
#[verifier::reject_recursive_types(T)]
pub struct ExSender<T>(tokio::sync::mpsc::Sender<T>);

#[verifier::external_type_specification]
#[verifier::external_body]
#[verifier::reject_recursive_types(T)]
pub struct ExReceiver<T>(tokio::sync::mpsc::Receiver<T>);

/// `Clone` of tokio's `Sender`: a new handle on the same channel. Nothing is
/// stated of the result.
pub assume_specification<T>[ <tokio::sync::mpsc::Sender<T> as Clone>::clone ](
    tx: &tokio::sync::mpsc::Sender<T>,
) -> (r: tokio::sync::mpsc::Sender<T>);

/// One end of a channel, with ghost values that name the channel it belongs
/// to and that channel's capacity in messages. Only the channel constructor
/// of this module gives an end a channel; an end made from a handle that
/// comes from elsewhere has no known channel.
pub struct ChannelEnd<T> {
    handle: T,
    chan: Ghost<Option<int>>,
    capacity: Ghost<nat>,
}

impl<T> ChannelEnd<T> {
    /// The sending or receiving handle.
    pub closed spec fn handle(self) -> T {
        self.handle
    }

    /// The channel that the end belongs to, where it is known.
    pub closed spec fn chan(self) -> Option<int> {
        self.chan@
    }

    /// How many messages the end's channel holds, where its channel is known.
    pub closed spec fn capacity(self) -> nat {
        self.capacity@
    }

    /// An end whose channel is not known.
    pub fn untagged(handle: T) -> (end: Self)
        ensures
            end.handle() == handle,
            end.chan() is None,
    {
        ChannelEnd { handle, chan: Ghost(None), capacity: Ghost(0) }
    }

    /// The handle, without the ghost values.
    pub fn into_handle(self) -> (handle: T)
        ensures
            handle == self.handle(),
    {
        self.handle
    }
}

/// Wraps `tokio::sync::mpsc::channel`, called twice: it makes two new
/// bounded channels of `buffer` messages each, and returns the sending and
/// the receiving end of the first, then those of the second. It panics when
/// `buffer` is zero or above the semaphore's limit (`usize::MAX >> 3`). The
/// contract states that the two ends of each channel belong to that channel,
/// that the two channels are different ones, and that each holds `buffer`
/// messages.
#[verifier::external_body]
pub(crate) fn message_channels(buffer: usize) -> (ends: (
    ChannelEnd<Sender<Message>>,
    ChannelEnd<Receiver<Message>>,
    ChannelEnd<Sender<Message>>,
    ChannelEnd<Receiver<Message>>,
))
    requires
        0 < buffer <= usize::MAX / 8,
    ensures
        ends.0.chan() is Some,
        ends.1.chan() == ends.0.chan(),
        ends.2.chan() is Some,
        ends.3.chan() == ends.2.chan(),
        ends.0.chan() != ends.2.chan(),
        ends.0.capacity() == buffer,
        ends.1.capacity() == buffer,
        ends.2.capacity() == buffer,
        ends.3.capacity() == buffer,
{
    let (tx1, rx1) = tokio::sync::mpsc::channel(buffer);
    let (tx2, rx2) = tokio::sync::mpsc::channel(buffer);
    (
        ChannelEnd { handle: tx1, chan: Ghost(Some(0int)), capacity: Ghost(buffer as nat) },
        ChannelEnd { handle: rx1, chan: Ghost(Some(0int)), capacity: Ghost(buffer as nat) },
        ChannelEnd { handle: tx2, chan: Ghost(Some(1int)), capacity: Ghost(buffer as nat) },
        ChannelEnd { handle: rx2, chan: Ghost(Some(1int)), capacity: Ghost(buffer as nat) },
    )
}

/// Wraps `tokio::sync::mpsc::Sender::try_send`, which queues the message
/// when the channel has room and is open, and otherwise hands it back in an
/// error; that outcome depends on the channel's state and is dropped here,
/// so nothing is stated.
#[verifier::external_body]
pub(crate) fn send_if_room(tx: &Sender<Message>, msg: Message) {
    let _ = tx.try_send(msg);
}

} // verus!
