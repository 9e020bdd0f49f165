//! The decisions of a driver: where a send goes, what a poll event on a
//! resource leads to, and how a pending remote is resolved.
use vstd::prelude::*;
use crate::network::resource_id::{ResourceId, ResourceType};
use crate::network::adapter::{PendingStatus, ReadStatus, SendStatus};
use crate::network::poll::Readiness;

verus! {

/// Where a send on a resource goes.
#[derive(Clone, Copy, PartialEq, Eq, Debug, Structural)]
pub enum SendRoute {
    /// Send through the registered remote resource.
    Remote,
    /// Send through the registered local resource, to the endpoint's address.
    Local,
    /// Do not send; report this status.
    Status(SendStatus),
}

/// Where a send on a resource of `resource_type` goes: a remote must be
/// registered and ready, a local must be registered.
pub fn send_route(resource_type: ResourceType, registered: bool, ready: bool) -> (route: SendRoute)
    ensures
        route == (match resource_type {
            ResourceType::Remote => if !registered {
                SendRoute::Status(SendStatus::ResourceNotFound)
            } else if ready {
                SendRoute::Remote
            } else {
                SendRoute::Status(SendStatus::ResourceNotAvailable)
            },
            ResourceType::Local => if registered {
                SendRoute::Local
            } else {
                SendRoute::Status(SendStatus::ResourceNotFound)
            },
        }),
{
    match resource_type {
        ResourceType::Remote => {
            if !registered {
                SendRoute::Status(SendStatus::ResourceNotFound)
            } else if ready {
                SendRoute::Remote
            } else {
                SendRoute::Status(SendStatus::ResourceNotAvailable)
            }
        },
        ResourceType::Local => {
            if registered {
                SendRoute::Local
            } else {
                SendRoute::Status(SendStatus::ResourceNotFound)
            }
        },
    }
}

/// Whether a resource is ready: `None` when it is not registered; a local
/// resource is always ready.
pub fn ready_answer(resource_type: ResourceType, registered: bool, ready: bool) -> (answer: Option<bool>)
    ensures
        answer == (if !registered {
            None
        } else {
            match resource_type {
                ResourceType::Remote => Some(ready),
                ResourceType::Local => Some(true),
            }
        }),
{
    if !registered {
        None
    } else {
        match resource_type {
            ResourceType::Remote => Some(ready),
            ResourceType::Local => Some(true),
        }
    }
}

/// What a driver does with a poll event on a resource.
#[derive(Clone, Copy, PartialEq, Eq, Debug, Structural)]
pub enum ResourceAction {
    /// The resource is not registered (any more), or there is nothing to do.
    Skip,
    /// The remote is not ready yet: resolve its pending state, then ask again.
    ResolvePending,
    /// The ready remote can be written.
    WriteRemote,
    /// The ready remote has data to read.
    ReadRemote,
    /// The local resource has connections or data to accept.
    AcceptLocal,
}

/// What a driver does with a poll event of `readiness` on a resource of
/// `resource_type`.
pub fn resource_action(
    resource_type: ResourceType,
    registered: bool,
    ready: bool,
    readiness: Readiness,
) -> (action: ResourceAction)
    ensures
        action == (if !registered {
            ResourceAction::Skip
        } else {
            match resource_type {
                ResourceType::Remote => if !ready {
                    ResourceAction::ResolvePending
                } else {
                    match readiness {
                        Readiness::Write => ResourceAction::WriteRemote,
                        Readiness::Read => ResourceAction::ReadRemote,
                    }
                },
                ResourceType::Local => match readiness {
                    Readiness::Write => ResourceAction::Skip,
                    Readiness::Read => ResourceAction::AcceptLocal,
                },
            }
        }),
{
    if !registered {
        return ResourceAction::Skip;
    }
    match resource_type {
        ResourceType::Remote => {
            if !ready {
                ResourceAction::ResolvePending
            } else {
                match readiness {
                    Readiness::Write => ResourceAction::WriteRemote,
                    Readiness::Read => ResourceAction::ReadRemote,
                }
            }
        },
        ResourceType::Local => match readiness {
            Readiness::Write => ResourceAction::Skip,
            Readiness::Read => ResourceAction::AcceptLocal,
        },
    }
}

/// How a pending remote is resolved.
#[derive(Clone, Copy, PartialEq, Eq, Debug, Structural)]
pub enum PendingAction {
    /// Mark the remote as ready and report it: as accepted by this listener,
    /// or (for an explicit connection, `None`) as connected.
    MarkReady(Option<ResourceId>),
    /// Keep waiting.
    Wait,
    /// Deregister the remote; `true` when a failed connection is reported
    /// (an explicit connection, not one accepted by a listener).
    Remove(bool),
}

/// How a pending remote, accepted by `listener` or explicitly connected when
/// `None`, is resolved after its adapter reported `status`.
pub fn resolve_pending(status: PendingStatus, listener: Option<ResourceId>) -> (action: PendingAction)
    ensures
        action == (match status {
            PendingStatus::Ready => PendingAction::MarkReady(listener),
            PendingStatus::Incomplete => PendingAction::Wait,
            PendingStatus::Disconnected => PendingAction::Remove(listener is None),
        }),
{
    match status {
        PendingStatus::Ready => PendingAction::MarkReady(listener),
        PendingStatus::Incomplete => PendingAction::Wait,
        PendingStatus::Disconnected => PendingAction::Remove(listener.is_none()),
    }
}

/// Whether a disconnection is reported after a read: the read status tells a
/// disconnection and the driver itself removed the resource (the user may
/// have removed it meanwhile, and then nothing is reported).
pub fn reports_disconnection(status: ReadStatus, deregistered: bool) -> (report: bool)
    ensures
        report == (status == ReadStatus::Disconnected && deregistered),
{
    match status {
        ReadStatus::Disconnected => deregistered,
        ReadStatus::WaitNextEvent => false,
    }
}

} // verus!
