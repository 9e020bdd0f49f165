//! What a send or a read on a resource can report.
use vstd::prelude::*;

verus! {

/// The following represents the posible status that a `send()`/`send_all()` call can return.
/// The library do not encourage to perform the check of this status for each `send()` call,
/// Only in that cases where you need extra information about how the sending method was.
#[derive(Clone, Copy, PartialEq, Eq, Debug, Structural)]
pub enum SendStatus {
    /// This status is received when the entire data has been sent.
    /// It does not guarantees that the packet have been successfully received by the endpoint.
    /// It means that the correspond adapter has sent the message to the OS without errors.
    Sent,
    /// This status is received in datagram-based protocols where there is a limit in the bytes
    /// that a packet can have.
    /// The first value is the length of the data that was attempt to send
    /// and the second one is the maximun offers by the datagram based protocol used.
    MaxPacketSizeExceeded(usize, usize),
    /// It means that the connection is not able for sending the message.
    RemovedEndpoint,
}

/// Returned as the result of reading from a resource.
#[derive(Clone, Copy, PartialEq, Eq, Debug, Structural)]
pub enum ReadStatus {
    /// This status must be returned if data was read until the end.
    /// It means that the remote could contain more data to read.
    MoreData,
    /// This status must be returned if the resource has been disconnected or there was an error.
    /// The resource will be removed after this call.
    Disconnected,
    /// The OS operation over the resource was interrupted; the read is processed again.
    Interrupted,
    /// The resource (treated as a non-bloking) would wait for the next event.
    WaitNextEvent,
}

} // verus!
