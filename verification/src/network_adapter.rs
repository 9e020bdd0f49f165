//! The connection table of the network adapter, how it sends on each kind of
//! connection, and what it does with the outcome of each read.
use vstd::prelude::*;
use std::collections::HashMap;
use crate::network::adapter::IoErrorKind;

verus! {

broadcast use vstd::std_specs::hash::group_hash_axioms;

/// The connections of an adapter, by id. Ids are given in increasing order,
/// starting at 0, and never reused.
pub struct ConnectionTable<C> {
    connections: HashMap<usize, C>,
    last_id: usize,
}

impl<C> View for ConnectionTable<C> {
    type V = Map<usize, C>;

    /// The connections by id.
    closed spec fn view(&self) -> Map<usize, C> {
        self.connections@
    }
}

impl<C> ConnectionTable<C> {
    /// Every id in the table was given before the next one.
    #[verifier::type_invariant]
    closed spec fn ids_below_next(self) -> bool {
        forall|id: usize| #[trigger] self.connections@.contains_key(id) ==> id < self.last_id
    }

    /// The id the next connection gets.
    pub closed spec fn next_id(self) -> usize {
        self.last_id
    }

    /// An empty table.
    pub fn new() -> (table: Self)
        ensures
            table@ == Map::<usize, C>::empty(),
            table.next_id() == 0,
    {
        ConnectionTable { connections: HashMap::new(), last_id: 0 }
    }

    /// The id the next connection added gets.
    pub fn next_free_id(&self) -> (id: usize)
        ensures
            id == self.next_id(),
    {
        self.last_id
    }

    /// Tells if another connection can get an id.
    pub fn has_free_id(&self) -> (free: bool)
        ensures
            free == (self.next_id() < usize::MAX),
    {
        self.last_id < usize::MAX
    }

    /// Adds a connection and returns its id: the next id, which no connection
    /// of the table had.
    pub fn add(&mut self, connection: C) -> (id: usize)
        requires
            old(self).next_id() < usize::MAX,
        ensures
            id == old(self).next_id(),
            !old(self)@.contains_key(id),
            final(self)@ == old(self)@.insert(id, connection),
            final(self).next_id() == id + 1,
    {
        proof {
            use_type_invariant(&*self);
        }
        let id = self.last_id;
        let mut connections = HashMap::new();
        std::mem::swap(&mut connections, &mut self.connections);
        connections.insert(id, connection);
        *self = ConnectionTable { connections, last_id: id + 1 };
        id
    }

    /// Removes the connection of `id` and returns it, or `None` if there is none.
    pub fn remove(&mut self, id: usize) -> (removed: Option<C>)
        ensures
            removed == (if old(self)@.contains_key(id) {
                Some(old(self)@[id])
            } else {
                None
            }),
            final(self)@ == old(self)@.remove(id),
            final(self).next_id() == old(self).next_id(),
    {
        proof {
            use_type_invariant(&*self);
        }
        let last_id = self.last_id;
        let mut connections = HashMap::new();
        std::mem::swap(&mut connections, &mut self.connections);
        let removed = connections.remove(&id);
        *self = ConnectionTable { connections, last_id };
        removed
    }

    /// The connection of `id`, if there is one.
    pub fn get(&self, id: usize) -> (connection: Option<&C>)
        ensures
            connection == (if self@.contains_key(id) {
                Some(&self@[id])
            } else {
                None
            }),
    {
        self.connections.get(&id)
    }
}

/// What happened on a connection.
#[derive(Debug)]
pub enum Event<'a> {
    /// A stream was accepted by a listener.
    Connection,
    /// Data was received.
    Data(&'a [u8]),
    /// The stream was closed by the other side.
    Disconnection,
}

/// The kind of a connection.
#[derive(Clone, Copy, PartialEq, Eq, Debug, Structural)]
pub enum ConnectionKind {
    TcpListener,
    TcpStream,
    UdpListener,
    UdpSocket,
}

/// How the controller sends data on a connection.
#[derive(Clone, Copy, PartialEq, Eq, Debug, Structural)]
pub enum SendWay {
    /// Written to the stream.
    Write,
    /// Sent on the connected socket.
    Send,
    /// Sent from the listening socket to the endpoint's address.
    SendTo,
    /// A listener sends nothing: the send fails with a permission error.
    NotAllowed,
    /// No connection has the endpoint's id: the send fails with a not-found error.
    NotFound,
}

/// How data is sent on the connection of an endpoint, given the kind of that
/// connection, or `None` where the table holds no connection of its id.
pub fn send_way(kind: Option<ConnectionKind>) -> (way: SendWay)
    ensures
        way == (match kind {
            Some(ConnectionKind::TcpStream) => SendWay::Write,
            Some(ConnectionKind::UdpSocket) => SendWay::Send,
            Some(ConnectionKind::UdpListener) => SendWay::SendTo,
            Some(ConnectionKind::TcpListener) => SendWay::NotAllowed,
            None => SendWay::NotFound,
        }),
{
    match kind {
        Some(ConnectionKind::TcpStream) => SendWay::Write,
        Some(ConnectionKind::UdpSocket) => SendWay::Send,
        Some(ConnectionKind::UdpListener) => SendWay::SendTo,
        Some(ConnectionKind::TcpListener) => SendWay::NotAllowed,
        None => SendWay::NotFound,
    }
}

/// What the receiver does with the outcome of one accept or read on a connection.
#[derive(Clone, Copy, PartialEq, Eq, Debug, Structural)]
pub enum ConnectionStep {
    /// A stream was accepted: it is added and a connection event is reported.
    Accepted,
    /// This many bytes were read: a data event with exactly these first bytes
    /// of the input buffer is reported, and the connection is read again.
    Data(usize),
    /// The stream was closed: a disconnection event is reported and the
    /// connection is removed.
    Disconnected,
    /// Nothing more to read for now.
    Stop,
    /// Read again.
    Retry,
    /// An error the receiver does not handle.
    Fail,
}

/// What the receiver does with the outcome of one accept (on a listener) or
/// read (on another connection): `Ok` holds the number of bytes read (any
/// value for an accept).
pub fn connection_step(kind: ConnectionKind, outcome: Result<usize, IoErrorKind>) -> (step: ConnectionStep)
    ensures
        step == (match (kind, outcome) {
            (ConnectionKind::TcpListener, Ok(_)) => ConnectionStep::Accepted,
            (ConnectionKind::TcpStream, Ok(0)) => ConnectionStep::Disconnected,
            (_, Ok(size)) => ConnectionStep::Data(size),
            (_, Err(IoErrorKind::WouldBlock)) => ConnectionStep::Stop,
            (ConnectionKind::TcpListener, Err(IoErrorKind::Interrupted)) => ConnectionStep::Retry,
            (ConnectionKind::TcpStream, Err(IoErrorKind::Interrupted)) => ConnectionStep::Retry,
            (ConnectionKind::UdpSocket, Err(IoErrorKind::ConnectionRefused)) => ConnectionStep::Retry,
            (_, Err(_)) => ConnectionStep::Fail,
        }),
{
    match (kind, outcome) {
        (ConnectionKind::TcpListener, Ok(_)) => ConnectionStep::Accepted,
        (ConnectionKind::TcpStream, Ok(0)) => ConnectionStep::Disconnected,
        (_, Ok(size)) => ConnectionStep::Data(size),
        (_, Err(IoErrorKind::WouldBlock)) => ConnectionStep::Stop,
        (ConnectionKind::TcpListener, Err(IoErrorKind::Interrupted)) => ConnectionStep::Retry,
        (ConnectionKind::TcpStream, Err(IoErrorKind::Interrupted)) => ConnectionStep::Retry,
        (ConnectionKind::UdpSocket, Err(IoErrorKind::ConnectionRefused)) => ConnectionStep::Retry,
        (_, Err(_)) => ConnectionStep::Fail,
    }
}

} // verus!
