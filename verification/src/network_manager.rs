//! The transport protocols that the network manager names.
use vstd::prelude::*;
use vstd::string::StringExecFns;

verus! {

/// A transport protocol of the network manager.
#[derive(Debug, Clone, Copy, PartialEq, Eq, Structural)]
pub enum TransportProtocol {
    Tcp,
    Udp,
}

impl TransportProtocol {
    /// The name of the protocol, in lower case.
    pub fn to_string(self) -> (name: String)
        ensures
            name@ == (match self {
                TransportProtocol::Tcp => "tcp"@,
                TransportProtocol::Udp => "udp"@,
            }),
    {
        match self {
            TransportProtocol::Tcp => String::from_str("tcp"),
            TransportProtocol::Udp => String::from_str("udp"),
        }
    }
}

} // verus!
