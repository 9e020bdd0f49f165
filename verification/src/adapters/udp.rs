//! UDP adapter: socket options of a listener, and what it does with the
//! outcome of each socket call.
use vstd::prelude::*;
use crate::network::adapter::{AcceptStep, IoErrorKind, ReadStatus, ReadStep, SendStatus};

verus! {

/// Maximun payload that UDP can send over the internet to be mostly compatible
/// (1500 bytes of MTU, less 20 of the IP header and 8 of the UDP header).
pub const MAX_INTERNET_PAYLOAD_LEN: usize = 1472;

/// Similar to [`MAX_INTERNET_PAYLOAD_LEN`] but for localhost instead of internet
/// (65535 bytes, less 20 of the IP header and 8 of the UDP header).
/// Localhost can handle a bigger MTU.
pub const MAX_LOCAL_PAYLOAD_LEN: usize = 65507;

#[derive(Clone, PartialEq, Eq, Hash, Debug)]
pub struct UdpListenConfig {
    /// Enables the socket capabilities to send broadcast messages when the listening socket is
    /// also used for sending.
    pub send_broadcasts: bool,
    /// Set value for the `SO_REUSEADDR` option on this socket. This indicates that futher calls to
    /// `bind` may allow reuse of local addresses.
    pub reuse_address: bool,
    /// Set value for the `SO_REUSEPORT` option on this socket. This indicates that further calls
    /// to `bind` may allow reuse of local addresses. For IPv4 sockets this means that a socket may
    /// bind even when there’s a socket already listening on this port. This option is always-on
    /// on Windows and cannot be configured.
    pub reuse_port: bool,
}

impl Default for UdpListenConfig {
    fn default() -> (config: Self)
        ensures
            !config.send_broadcasts,
            !config.reuse_address,
            !config.reuse_port,
    {
        UdpListenConfig { send_broadcasts: false, reuse_address: false, reuse_port: false }
    }
}

/// The options a listening socket is set up with.
#[derive(Clone, Copy, PartialEq, Eq, Debug, Structural)]
pub struct ListenSocketOptions {
    /// Turn `SO_REUSEADDR` on.
    pub reuse_address: bool,
    /// Turn `SO_REUSEPORT` on (where the platform has it).
    pub reuse_port: bool,
    /// The value of `SO_BROADCAST`.
    pub broadcast: bool,
    /// Join the multicast group of the address and bind to the unspecified
    /// address with its port, instead of binding to the address.
    pub join_multicast: bool,
}

/// The options of a listening socket for `config`, on an address that is an
/// IPv4 multicast address or not: a multicast listener always reuses its
/// address and port, and joins the group.
pub fn listen_socket_options(config: &UdpListenConfig, multicast: bool) -> (options: ListenSocketOptions)
    ensures
        options.reuse_address == (config.reuse_address || multicast),
        options.reuse_port == (config.reuse_port || multicast),
        options.broadcast == config.send_broadcasts,
        options.join_multicast == multicast,
{
    ListenSocketOptions {
        reuse_address: config.reuse_address || multicast,
        reuse_port: config.reuse_port || multicast,
        broadcast: config.send_broadcasts,
        join_multicast: multicast,
    }
}

/// What sending a packet does with the outcome of one send: `None` when the
/// send must be tried again (it would block); a refused connection means the
/// resource is not found, and the kind `Other` means the packet is too big.
pub fn send_packet_step(outcome: Result<usize, IoErrorKind>) -> (status: Option<SendStatus>)
    ensures
        status == (match outcome {
            Ok(_) => Some(SendStatus::Sent),
            Err(IoErrorKind::ConnectionRefused) => Some(SendStatus::ResourceNotFound),
            Err(IoErrorKind::WouldBlock) => None,
            Err(IoErrorKind::Other) => Some(SendStatus::MaxPacketSizeExceeded),
            Err(_) => Some(SendStatus::ResourceNotFound),
        }),
{
    match outcome {
        Ok(_) => Some(SendStatus::Sent),
        Err(IoErrorKind::ConnectionRefused) => Some(SendStatus::ResourceNotFound),
        Err(IoErrorKind::WouldBlock) => None,
        Err(IoErrorKind::Other) => Some(SendStatus::MaxPacketSizeExceeded),
        Err(_) => Some(SendStatus::ResourceNotFound),
    }
}

/// What a datagram read loop does with the outcome of one receive: hand the
/// datagram over and receive again; any error waits for the next event.
pub fn datagram_read_step(outcome: Result<usize, IoErrorKind>) -> (step: ReadStep)
    ensures
        step == (match outcome {
            Ok(size) => ReadStep::Data(size),
            Err(_) => ReadStep::Finish(ReadStatus::WaitNextEvent),
        }),
{
    match outcome {
        Ok(size) => ReadStep::Data(size),
        Err(_) => ReadStep::Finish(ReadStatus::WaitNextEvent),
    }
}

/// What a listening datagram socket does with the outcome of one
/// `recv_from`: hand the datagram over, stop when it would block, and stop
/// (logging the error) on any other error.
pub fn datagram_accept_step(outcome: Result<(), IoErrorKind>) -> (step: AcceptStep)
    ensures
        step == (match outcome {
            Ok(()) => AcceptStep::Accept,
            Err(IoErrorKind::WouldBlock) => AcceptStep::Stop(false),
            Err(_) => AcceptStep::Stop(true),
        }),
{
    match outcome {
        Ok(()) => AcceptStep::Accept,
        Err(IoErrorKind::WouldBlock) => AcceptStep::Stop(false),
        Err(_) => AcceptStep::Stop(true),
    }
}

} // verus!
