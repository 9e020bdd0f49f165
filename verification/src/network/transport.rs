//! The transports that the network offers.
use vstd::prelude::*;
use vstd::string::StringExecFns;
use crate::adapters::{udp, ws};
use crate::network::resource_id::{ResourceId, adapter_id_of};

verus! {

/// Enum to identified the underlying transport used.
/// It can be passed to the `connect()` and `listen()` methods of the network
/// to specify the transport used.
#[derive(Clone, Copy, PartialEq, Eq, Hash, Debug, Structural)]
pub enum Transport {
    /// TCP protocol.
    /// As stream protocol, receiving a message from TCP do not imply to read
    /// the entire message.
    /// If you want a packet based way to send over TCP, use `FramedTcp` instead.
    Tcp,
    /// Tcp framed protocol.
    /// Like TCP, but encoded with a slim frame layer to manage the data as a packet,
    /// instead of as a stream.
    /// It prefixes the message using variable integer encoding with the size of the message.
    /// Most of the time you would want to use this instead of the raw `Tcp`.
    FramedTcp,
    /// UDP protocol.
    /// Take into account that UDP is not connection oriented and a packet can be lost
    /// or received disordered.
    /// If it is specified in the listener and the address is a Ipv4 in the range of multicast ips
    /// (from `224.0.0.0` to `239.255.255.255`), the listener will be configured in multicast mode.
    Udp,
    /// WebSocket protocol.
    Ws,
}

/// The adapter id of a transport: its position in the enum, starting by 0.
pub open spec fn transport_id(transport: Transport) -> u8 {
    match transport {
        Transport::Tcp => 0,
        Transport::FramedTcp => 1,
        Transport::Udp => 2,
        Transport::Ws => 3,
    }
}

/// The transport of an adapter id.
pub open spec fn transport_of_id(id: u8) -> Transport
    recommends
        id < 4,
{
    if id == 0 {
        Transport::Tcp
    } else if id == 1 {
        Transport::FramedTcp
    } else if id == 2 {
        Transport::Udp
    } else {
        Transport::Ws
    }
}

impl Transport {
    /// The name of the transport.
    pub fn to_string(self) -> (text: String)
        ensures
            text@ == (match self {
                Transport::Tcp => "Tcp"@,
                Transport::FramedTcp => "FramedTcp"@,
                Transport::Udp => "Udp"@,
                Transport::Ws => "Ws"@,
            }),
    {
        match self {
            Transport::Tcp => String::from_str("Tcp"),
            Transport::FramedTcp => String::from_str("FramedTcp"),
            Transport::Udp => String::from_str("Udp"),
            Transport::Ws => String::from_str("Ws"),
        }
    }

    /// Maximum teorical packet payload length available for each transport.
    ///
    /// Note: For UDP this value *depends* of the OS.
    /// The value returned by this function is the **teorical maximum** and could not be valid for
    /// all OS.
    pub fn max_message_size(self) -> (size: usize)
        ensures
            size == (match self {
                Transport::Tcp => usize::MAX,
                Transport::FramedTcp => usize::MAX,
                Transport::Udp => udp::MAX_LOCAL_PAYLOAD_LEN,
                Transport::Ws => ws::MAX_PAYLOAD_LEN,
            }),
    {
        match self {
            Transport::Tcp => usize::MAX,
            Transport::FramedTcp => usize::MAX,
            Transport::Udp => udp::MAX_LOCAL_PAYLOAD_LEN,
            Transport::Ws => ws::MAX_PAYLOAD_LEN,
        }
    }

    /// Tell if the transport protocol is a connection oriented protocol.
    /// If it is, `Connection` and `Disconnection` events will be generated.
    pub fn is_connection_oriented(self) -> (oriented: bool)
        ensures
            oriented == (self != Transport::Udp),
    {
        match self {
            Transport::Tcp => true,
            Transport::FramedTcp => true,
            Transport::Udp => false,
            Transport::Ws => true,
        }
    }

    /// Tell if the transport protocol is a packet-based protocol.
    /// It implies that any send call corresponds to a data message event.
    /// It satisfies that the number of bytes sent are the same as received.
    /// The opossite of a packet-based is a stream-based transport (e.g Tcp).
    pub fn is_packet_based(self) -> (packet_based: bool)
        ensures
            packet_based == (self != Transport::Tcp),
    {
        match self {
            Transport::Tcp => false,
            Transport::FramedTcp => true,
            Transport::Udp => true,
            Transport::Ws => true,
        }
    }

    /// Returns the adapter id used for this transport.
    /// It is equivalent to the position of the enum starting by 0
    pub fn id(self) -> (id: u8)
        ensures
            id == transport_id(self),
    {
        match self {
            Transport::Tcp => 0,
            Transport::FramedTcp => 1,
            Transport::Udp => 2,
            Transport::Ws => 3,
        }
    }

    /// The transport whose adapter id is `id`; there are four of them.
    pub fn from_id(id: u8) -> (transport: Transport)
        requires
            id < 4,
        ensures
            transport == transport_of_id(id),
    {
        if id == 0 {
            Transport::Tcp
        } else if id == 1 {
            Transport::FramedTcp
        } else if id == 2 {
            Transport::Udp
        } else {
            Transport::Ws
        }
    }

    /// The transport of the adapter that made a resource id.
    pub fn from_resource_id(id: ResourceId) -> (transport: Transport)
        requires
            adapter_id_of(id@) < 4,
        ensures
            transport == transport_of_id(adapter_id_of(id@)),
    {
        Transport::from_id(id.adapter_id())
    }
}

/// A transport read back from its adapter id is the same transport, and ids
/// are below four.
pub proof fn lemma_id_roundtrip(transport: Transport)
    ensures
        transport_of_id(transport_id(transport)) == transport,
        transport_id(transport) < 4,
{
}

/// Every id below four is the id of the transport read from it.
pub proof fn lemma_transport_of_id_roundtrip(id: u8)
    requires
        id < 4,
    ensures
        transport_id(transport_of_id(id)) == id,
{
}

} // verus!
