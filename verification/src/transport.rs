//! The transports with the message limits of the raw-socket adapters.
use vstd::prelude::*;
use vstd::string::StringExecFns;
use crate::adapters::{tcp, framed_tcp, udp, web_socket};

verus! {

/// Enum to identified the underlying transport used.
#[derive(Clone, Copy, PartialEq, Eq, Hash, Debug, Structural)]
pub enum Transport {
    /// TCP protocol.
    /// As stream protocol, receiving a message from TCP do not imply to read
    /// the entire message.
    Tcp,
    /// Like TCP, but encoded with a slim frame layer to manage the data as a packet,
    /// instead of as a stream.
    FramedTcp,
    /// UDP protocol.
    /// Take into account that UDP is not connection oriented and a packet can be lost
    /// or received disordered.
    Udp,
    /// WebSocket protocol.
    Ws,
}

impl Transport {
    /// The name of the transport.
    pub fn to_string(self) -> (text: String)
        ensures
            text@ == (match self {
                Transport::Tcp => "Tcp"@,
                Transport::FramedTcp => "FramedTcp"@,
                Transport::Udp => "Udp"@,
                Transport::Ws => "Ws"@,
            }),
    {
        match self {
            Transport::Tcp => String::from_str("Tcp"),
            Transport::FramedTcp => String::from_str("FramedTcp"),
            Transport::Udp => String::from_str("Udp"),
            Transport::Ws => String::from_str("Ws"),
        }
    }

    /// Max packet payload size available for each transport.
    /// If the protocol is not packet based (e.g. TCP, that is a stream),
    /// the returned value correspond with the maximum bytes that can produce a read event.
    pub fn max_message_size(self) -> (size: usize)
        ensures
            size == (match self {
                Transport::Tcp => tcp::INPUT_BUFFER_SIZE,
                Transport::FramedTcp => framed_tcp::MAX_TCP_PAYLOAD_LEN,
                Transport::Udp => udp::MAX_INTERNET_PAYLOAD_LEN,
                Transport::Ws => web_socket::MAX_WS_PAYLOAD_LEN,
            }),
    {
        match self {
            Transport::Tcp => tcp::INPUT_BUFFER_SIZE,
            Transport::FramedTcp => framed_tcp::MAX_TCP_PAYLOAD_LEN,
            Transport::Udp => udp::MAX_INTERNET_PAYLOAD_LEN,
            Transport::Ws => web_socket::MAX_WS_PAYLOAD_LEN,
        }
    }

    /// Tell if the transport protocol is a connection oriented protocol.
    /// If it is, `Connection` and `Disconnection` events will be generated.
    pub fn is_connection_oriented(self) -> (oriented: bool)
        ensures
            oriented == (self != Transport::Udp),
    {
        match self {
            Transport::Tcp => true,
            Transport::FramedTcp => true,
            Transport::Udp => false,
            Transport::Ws => true,
        }
    }

    /// Tell if the transport protocol is a packet based protocol.
    /// It implies that any send call corresponds to a data message event.
    /// The opossite of a packet based is a stream based transport (e.g Tcp).
    pub fn is_packet_based(self) -> (packet_based: bool)
        ensures
            packet_based == (self != Transport::Tcp),
    {
        match self {
            Transport::Tcp => false,
            Transport::FramedTcp => true,
            Transport::Udp => true,
            Transport::Ws => true,
        }
    }

    /// Returns the adapter id used for this transport.
    /// It is equivalent to the position of the enum starting by 0
    pub fn id(self) -> (id: u8)
        ensures
            id == (match self {
                Transport::Tcp => 0u8,
                Transport::FramedTcp => 1u8,
                Transport::Udp => 2u8,
                Transport::Ws => 3u8,
            }),
    {
        match self {
            Transport::Tcp => 0,
            Transport::FramedTcp => 1,
            Transport::Udp => 2,
            Transport::Ws => 3,
        }
    }
}

} // verus!
