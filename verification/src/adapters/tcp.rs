//! TCP adapter: what it does with the outcome of each socket call.
use vstd::prelude::*;
use crate::network::adapter::{AcceptStep, IoErrorKind, PendingStatus, ReadStatus, ReadStep, SendStatus, SendStep};

verus! {

/// Size of the internal reading buffer.
/// It implies that at most the generated message event
/// will contains a chunk of data of this value.
pub const INPUT_BUFFER_SIZE: usize = 65535;

#[verifier::external_type_specification]
#[verifier::external_body]
pub struct ExTcpKeepalive(socket2::TcpKeepalive);

#[derive(Clone, Debug)]
pub struct TcpConnectConfig {
    /// Enables TCP keepalive settings on the socket.
    pub keepalive: Option<socket2::TcpKeepalive>,
}

impl Default for TcpConnectConfig {
    fn default() -> (config: Self)
        ensures
            config.keepalive is None,
    {
        TcpConnectConfig { keepalive: None }
    }
}

#[derive(Clone, Debug)]
pub struct TcpListenConfig {
    /// Enables TCP keepalive settings on client connection sockets.
    pub keepalive: Option<socket2::TcpKeepalive>,
}

impl Default for TcpListenConfig {
    fn default() -> (config: Self)
        ensures
            config.keepalive is None,
    {
        TcpListenConfig { keepalive: None }
    }
}

/// Check if a TcpStream can be considered connected, from what the stream
/// reported: whether `take_error` returned a pending error, and what
/// `peer_addr` returned.
pub fn check_stream_ready(error_reported: bool, peer_addr: Result<(), IoErrorKind>) -> (status: PendingStatus)
    ensures
        status == (if error_reported {
            PendingStatus::Disconnected
        } else {
            match peer_addr {
                Ok(()) => PendingStatus::Ready,
                Err(IoErrorKind::NotConnected) => PendingStatus::Incomplete,
                Err(IoErrorKind::InvalidInput) => PendingStatus::Incomplete,
                Err(_) => PendingStatus::Disconnected,
            }
        }),
{
    if error_reported {
        return PendingStatus::Disconnected;
    }
    match peer_addr {
        Ok(()) => PendingStatus::Ready,
        Err(IoErrorKind::NotConnected) => PendingStatus::Incomplete,
        Err(IoErrorKind::InvalidInput) => PendingStatus::Incomplete,
        Err(_) => PendingStatus::Disconnected,
    }
}

/// What a stream read loop does with the outcome of one read into its buffer:
/// zero bytes or a reset connection end the stream, an interruption is retried,
/// and a read that would block waits for the next event.
pub fn stream_read_step(outcome: Result<usize, IoErrorKind>) -> (step: ReadStep)
    ensures
        step == (match outcome {
            Ok(0) => ReadStep::Finish(ReadStatus::Disconnected),
            Ok(size) => ReadStep::Data(size),
            Err(IoErrorKind::Interrupted) => ReadStep::Retry,
            Err(IoErrorKind::WouldBlock) => ReadStep::Finish(ReadStatus::WaitNextEvent),
            Err(_) => ReadStep::Finish(ReadStatus::Disconnected),
        }),
{
    match outcome {
        Ok(0) => ReadStep::Finish(ReadStatus::Disconnected),
        Ok(size) => ReadStep::Data(size),
        Err(IoErrorKind::Interrupted) => ReadStep::Retry,
        Err(IoErrorKind::WouldBlock) => ReadStep::Finish(ReadStatus::WaitNextEvent),
        Err(_) => ReadStep::Finish(ReadStatus::Disconnected),
    }
}

/// What a stream write loop does with the outcome of one write of the bytes
/// not sent yet: count the bytes written and stop once all are sent; retry a
/// write that would block; any other error ends the send.
pub fn stream_send_step(total_sent: usize, total: usize, outcome: Result<usize, IoErrorKind>) -> (step: SendStep)
    requires
        total_sent <= total,
        outcome matches Ok(written) ==> written <= total - total_sent,
    ensures
        step == (match outcome {
            Ok(written) => if total_sent + written == total {
                SendStep::Finish(SendStatus::Sent)
            } else {
                SendStep::Continue((total_sent + written) as usize)
            },
            Err(IoErrorKind::WouldBlock) => SendStep::Continue(total_sent),
            Err(_) => SendStep::Finish(SendStatus::ResourceNotFound),
        }),
        step matches SendStep::Continue(sent) ==> total_sent <= sent <= total,
{
    match outcome {
        Ok(written) => {
            let sent = total_sent + written;
            if sent == total {
                SendStep::Finish(SendStatus::Sent)
            } else {
                SendStep::Continue(sent)
            }
        },
        Err(IoErrorKind::WouldBlock) => SendStep::Continue(total_sent),
        Err(_) => SendStep::Finish(SendStatus::ResourceNotFound),
    }
}

/// What a listener accept loop does with the outcome of one accept: hand an
/// accepted stream over, retry an interruption, stop when it would block, and
/// stop (logging the error) on any other error.
pub fn accept_step(outcome: Result<(), IoErrorKind>) -> (step: AcceptStep)
    ensures
        step == (match outcome {
            Ok(()) => AcceptStep::Accept,
            Err(IoErrorKind::WouldBlock) => AcceptStep::Stop(false),
            Err(IoErrorKind::Interrupted) => AcceptStep::Retry,
            Err(_) => AcceptStep::Stop(true),
        }),
{
    match outcome {
        Ok(()) => AcceptStep::Accept,
        Err(IoErrorKind::WouldBlock) => AcceptStep::Stop(false),
        Err(IoErrorKind::Interrupted) => AcceptStep::Retry,
        Err(_) => AcceptStep::Stop(true),
    }
}

} // verus!
