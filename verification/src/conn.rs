use tokio::sync::mpsc::{Receiver, Sender};
use vstd::prelude::*;

use crate::channel::{message_channels, send_if_room, ChannelEnd};
use crate::message::Message;

verus! {

/// The capacity of each direction of a local connection, in messages.
pub const CHANNEL_CAPACITY: usize = 100;

/// One side of a connection: where it sends and where it receives.
pub struct ChannelConn {
    tx: ChannelEnd<Sender<Message>>,
    rx: ChannelEnd<Receiver<Message>>,
}

impl ChannelConn {
    /// The sending end.
    pub closed spec fn sender(self) -> Sender<Message> {
        self.tx.handle()
    }

    /// The receiving end.
    pub closed spec fn receiver(self) -> Receiver<Message> {
        self.rx.handle()
    }

    /// The channel that the sending end puts messages into, where known.
    pub closed spec fn sender_chan(self) -> Option<int> {
        self.tx.chan()
    }

    /// The channel that the receiving end takes messages from, where known.
    pub closed spec fn receiver_chan(self) -> Option<int> {
        self.rx.chan()
    }

    /// How many messages the channel of the sending end holds.
    pub closed spec fn sender_capacity(self) -> nat {
        self.tx.capacity()
    }

    /// How many messages the channel of the receiving end holds.
    pub closed spec fn receiver_capacity(self) -> nat {
        self.rx.capacity()
    }

    /// A connection over two ends that come from elsewhere; which channels
    /// they belong to is not known.
    pub fn new(tx: Sender<Message>, rx: Receiver<Message>) -> (conn: Self)
        ensures
            conn.sender() == tx,
            conn.receiver() == rx,
    {
        ChannelConn { tx: ChannelEnd::untagged(tx), rx: ChannelEnd::untagged(rx) }
    }

    /// A connection over two ends whose channels are known.
    fn from_ends(tx: ChannelEnd<Sender<Message>>, rx: ChannelEnd<Receiver<Message>>) -> (conn: Self)
        ensures
            conn.sender() == tx.handle(),
            conn.receiver() == rx.handle(),
            conn.sender_chan() == tx.chan(),
            conn.receiver_chan() == rx.chan(),
            conn.sender_capacity() == tx.capacity(),
            conn.receiver_capacity() == rx.capacity(),
    {
        ChannelConn { tx, rx }
    }

    /// Parts the connection into its sending and its receiving end.
    pub fn split(self) -> (ends: (ChannelConnSender, ChannelConnReceiver))
        ensures
            ends.0.0 == self.sender(),
            ends.1.0 == self.receiver(),
    {
        (ChannelConnSender(self.tx.into_handle()), ChannelConnReceiver(self.rx.into_handle()))
    }
}

/// The sending end of a connection.
#[derive(Clone)]
pub struct ChannelConnSender(pub Sender<Message>);

impl ChannelConnSender {
    /// Sends the message if the channel has room now; otherwise the message
    /// is dropped.
    pub fn try_send(&self, msg: Message) {
        send_if_room(&self.0, msg)
    }
}

/// The receiving end of a connection.
pub struct ChannelConnReceiver(pub Receiver<Message>);

/// The two sides of a connection between the backend and the user interface
/// in one process. Each side can be taken once.
pub struct LocalConnector {
    server_conn: Option<ChannelConn>,
    client_conn: Option<ChannelConn>,
}

/// `after` is `before` with the server side taken, and `got` is what the
/// taking returned: the side if it was still there, else nothing.
pub open spec fn takes_server(before: LocalConnector, got: Option<ChannelConn>, after: LocalConnector) -> bool {
    &&& got == before.server()
    &&& after.server() is None
    &&& after.client() == before.client()
}

/// The same for the client side.
pub open spec fn takes_client(before: LocalConnector, got: Option<ChannelConn>, after: LocalConnector) -> bool {
    &&& got == before.client()
    &&& after.client() is None
    &&& after.server() == before.server()
}

impl LocalConnector {
    /// The server side, while it has not been taken.
    pub closed spec fn server(self) -> Option<ChannelConn> {
        self.server_conn
    }

    /// The client side, while it has not been taken.
    pub closed spec fn client(self) -> Option<ChannelConn> {
        self.client_conn
    }

    /// Two channels of `CHANNEL_CAPACITY` messages each, crossed: the
    /// server receives on the channel that the client sends on, the client
    /// receives on the channel that the server sends on, and neither side
    /// receives on the channel it sends on. Both sides are there to be taken.
    pub fn new() -> (c: Self)
        ensures
            c.server() is Some,
            c.client() is Some,
            c.server()->0.sender_chan() is Some,
            c.client()->0.sender_chan() is Some,
            c.server()->0.receiver_chan() == c.client()->0.sender_chan(),
            c.client()->0.receiver_chan() == c.server()->0.sender_chan(),
            c.server()->0.sender_chan() != c.server()->0.receiver_chan(),
            c.client()->0.sender_chan() != c.client()->0.receiver_chan(),
            c.server()->0.sender_capacity() == CHANNEL_CAPACITY,
            c.server()->0.receiver_capacity() == CHANNEL_CAPACITY,
            c.client()->0.sender_capacity() == CHANNEL_CAPACITY,
            c.client()->0.receiver_capacity() == CHANNEL_CAPACITY,
    {
        let (server_tx, server_rx, client_tx, client_rx) = message_channels(CHANNEL_CAPACITY);
        LocalConnector {
            server_conn: Some(ChannelConn::from_ends(client_tx, server_rx)),
            client_conn: Some(ChannelConn::from_ends(server_tx, client_rx)),
        }
    }

    /// Takes the server side: it the first time, nothing afterwards.
    pub fn server_conn(&mut self) -> (c: Option<ChannelConn>)
        ensures
            takes_server(*old(self), c, *final(self)),
    {
        self.server_conn.take()
    }

    /// Takes the client side: it the first time, nothing afterwards.
    pub fn client_attach_to_local_server(&mut self) -> (c: Option<ChannelConn>)
        ensures
            takes_client(*old(self), c, *final(self)),
    {
        self.client_conn.take()
    }
}

/// Each side of a connector is handed out at most once: taken twice, the
/// second taking returns nothing.
pub proof fn law_server_side_taken_once(
    a: LocalConnector,
    g1: Option<ChannelConn>,
    b: LocalConnector,
    g2: Option<ChannelConn>,
    c: LocalConnector,
)
    requires
        takes_server(a, g1, b),
        takes_server(b, g2, c),
    ensures
        g2 is None,
{
}

/// The client side is handed out at most once as well.
pub proof fn law_client_side_taken_once(
    a: LocalConnector,
    g1: Option<ChannelConn>,
    b: LocalConnector,
    g2: Option<ChannelConn>,
    c: LocalConnector,
)
    requires
        takes_client(a, g1, b),
        takes_client(b, g2, c),
    ensures
        g2 is None,
{
}

/// Taking one side leaves the other as it was.
pub proof fn law_sides_independent(
    a: LocalConnector,
    g1: Option<ChannelConn>,
    b: LocalConnector,
    g2: Option<ChannelConn>,
    c: LocalConnector,
)
    requires
        takes_server(a, g1, b),
        takes_client(b, g2, c),
    ensures
        g2 == a.client(),
        c.server() is None,
{
}

/// The same connector under the name that the backend uses.
pub type Connector = LocalConnector;

/// The same connection under the name that the backend uses.
pub type Conn = ChannelConn;

/// The same sending end under the name that the backend uses.
pub type ConnSender = ChannelConnSender;

/// The same receiving end under the name that the backend uses.
pub type ConnReceiver = ChannelConnReceiver;

} // verus!
