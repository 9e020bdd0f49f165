//! The statuses an adapter reports, and the outcomes of the system calls that
//! an adapter makes, as plain values that the decisions of the adapters read.
use vstd::prelude::*;
use vstd::string::StringExecFns;

verus! {

/// The following represents the posible status that a send call can return.
/// The library do not encourage to perform the check of this status for each `send()` call,
/// only in that cases where you need extra information about how the sending method was.
#[derive(Clone, Copy, PartialEq, Eq, Debug, Structural)]
pub enum SendStatus {
    /// This status is received when the entire data has been sent.
    /// It does not guarantees that the packet have been successfully received by the endpoint.
    /// It means that the correspond adapter has sent the message to the OS without errors.
    Sent,
    /// This status is received in packet-based protocols where there is a limit in the bytes
    /// that a packet can have.
    MaxPacketSizeExceeded,
    /// It means that the message could not be sent by the specified `ResourceId`.
    /// This implies that a disconnection has happened or that the resource never existed.
    ResourceNotFound,
    /// The resource can not perform the required send operation.
    /// Usually this is due because it is performing the handshake.
    ResourceNotAvailable,
}

/// Returned as a result of receiving from a remote resource.
#[derive(Clone, Copy, PartialEq, Eq, Debug, Structural)]
pub enum ReadStatus {
    /// The resource has been disconnected or there was an error.
    /// The resource will be removed after this call and
    /// no more receive calls will be produced by this resource.
    Disconnected,
    /// The resource (treated as a non-bloking) would wait for process the next event.
    /// Usually, this status is returned if the resource receives
    /// a [`std::io::ErrorKind::WouldBlock`].
    WaitNextEvent,
}

impl ReadStatus {
    /// The text of the status: `ReadStatus::` and the variant's name.
    pub fn to_string(self) -> (text: String)
        ensures
            text@ == (match self {
                ReadStatus::Disconnected => "ReadStatus::Disconnected"@,
                ReadStatus::WaitNextEvent => "ReadStatus::WaitNextEvent"@,
            }),
    {
        match self {
            ReadStatus::Disconnected => String::from_str("ReadStatus::Disconnected"),
            ReadStatus::WaitNextEvent => String::from_str("ReadStatus::WaitNextEvent"),
        }
    }
}

/// Whether a resource that is not considered ready yet has become ready.
#[derive(Clone, Copy, PartialEq, Eq, Debug, Structural)]
pub enum PendingStatus {
    /// The resource is no longer considered as a pending resource.
    /// It it came from a listener, an `Accepted` event will be generated.
    /// It it came from a explicit connection, a `Connected` event
    /// with its flag to `true` will be generated.
    Ready,
    /// The resource needs more data to be considered as established.
    Incomplete,
    /// The resource has not be able to perform the connection.
    /// It it came from a listener, no event will be generated.
    /// It it came from a explicit connection, a `Connected` event
    /// with its flag to `false` will be generated.
    Disconnected,
}

/// The kind of an error that a system call on a socket reported, as far as
/// the adapters tell kinds apart.
#[derive(Clone, Copy, PartialEq, Eq, Debug, Structural)]
pub enum IoErrorKind {
    Interrupted,
    WouldBlock,
    ConnectionRefused,
    ConnectionReset,
    NotConnected,
    InvalidInput,
    /// The catch-all kind `Other` of the standard library.
    Other,
    /// Any other kind.
    Unlisted,
}

/// What a read loop does with the outcome of one read.
#[derive(Clone, Copy, PartialEq, Eq, Debug, Structural)]
pub enum ReadStep {
    /// Hand the first bytes read, this many, to the user and read again.
    Data(usize),
    /// Read again.
    Retry,
    /// Stop reading with this status.
    Finish(ReadStatus),
}

/// What a write loop does with the outcome of one write.
#[derive(Clone, Copy, PartialEq, Eq, Debug, Structural)]
pub enum SendStep {
    /// Write again from this number of bytes already sent.
    Continue(usize),
    /// Stop with this status.
    Finish(SendStatus),
}

/// What an accept loop does with the outcome of one accept.
#[derive(Clone, Copy, PartialEq, Eq, Debug, Structural)]
pub enum AcceptStep {
    /// Hand the accepted connection (or datagram) over and accept again.
    Accept,
    /// Accept again.
    Retry,
    /// Stop accepting; `true` when the error must be logged.
    Stop(bool),
}

} // verus!
