//! Adapter resources named by a raw `u64` identifier whose top bit marks a
//! listener.
use vstd::prelude::*;

verus! {

/// The kind of a resource.
#[derive(Clone, Copy, PartialEq, Eq, Debug, Structural)]
pub enum ResourceType {
    Listener,
    Remote,
}

/// Raw identifier of a resource.
pub type ResourceId = u64;

/// The bit of a raw identifier that marks a listener.
pub const LISTENER_BIT: u64 = 0x8000_0000_0000_0000;

/// Returns the kind of the resource that `id` identifies: a listener when its
/// top bit is set.
pub fn resource_type(id: ResourceId) -> (resource_type: ResourceType)
    ensures
        resource_type == (if id >= LISTENER_BIT {
            ResourceType::Listener
        } else {
            ResourceType::Remote
        }),
{
    let bit = id & LISTENER_BIT;
    assert(bit != 0 <==> id >= 0x8000_0000_0000_0000) by (bit_vector)
        requires
            bit == id & 0x8000_0000_0000_0000u64,
    ;
    if bit != 0 {
        ResourceType::Listener
    } else {
        ResourceType::Remote
    }
}

/// Stamps the kind of a resource on its identifier: for a listener, the
/// identifier is masked with the listener bit; a remote identifier is kept.
pub fn stamp_resource_type(id: &mut ResourceId, resource_type: ResourceType)
    ensures
        *final(id) == (match resource_type {
            ResourceType::Listener => *old(id) & LISTENER_BIT,
            ResourceType::Remote => *old(id),
        }),
{
    match resource_type {
        ResourceType::Listener => *id = *id & LISTENER_BIT,
        ResourceType::Remote => {},
    }
}

/// Internal adapter event
#[derive(Debug)]
pub enum AdapterEvent<'a> {
    Connection,
    Data(&'a [u8]),
    Disconnection,
}

} // verus!
