//! The resources a driver has registered, by identifier, each with whether it
//! is ready; and what a driver does to them when a remote's pending state is
//! resolved or a read ends.
use vstd::prelude::*;
use std::collections::HashMap;
use crate::network::resource_id::ResourceId;
use crate::network::adapter::{PendingStatus, ReadStatus};
use crate::network::driver::{resolve_pending, PendingAction};

verus! {

broadcast use vstd::std_specs::hash::group_hash_axioms;

/// The registered resources of one kind (remote or local) of a driver, by
/// raw identifier, each with whether it is ready.
pub struct ResourceRegister<R> {
    resources: HashMap<u64, (R, bool)>,
}

impl<R> View for ResourceRegister<R> {
    type V = Map<u64, (R, bool)>;

    /// The resources and their ready flags, by raw identifier.
    closed spec fn view(&self) -> Map<u64, (R, bool)> {
        self.resources@
    }
}

impl<R> ResourceRegister<R> {
    /// An empty register.
    pub fn new() -> (register: Self)
        ensures
            register@ == Map::<u64, (R, bool)>::empty(),
    {
        ResourceRegister { resources: HashMap::new() }
    }

    /// Registers `resource` under `id`, not ready yet (a remote whose
    /// connection or handshake may still be under way).
    pub fn add(&mut self, resource: R, id: ResourceId)
        ensures
            final(self)@ == old(self)@.insert(id@, (resource, false)),
    {
        self.resources.insert(id.raw_id(), (resource, false));
    }

    /// Registers `resource` under `id`, ready at once (a listener, or a
    /// remote that needs no handshake).
    pub fn add_ready(&mut self, resource: R, id: ResourceId)
        ensures
            final(self)@ == old(self)@.insert(id@, (resource, true)),
    {
        self.resources.insert(id.raw_id(), (resource, true));
    }

    /// Removes the resource of `id`; tells whether there was one.
    pub fn remove(&mut self, id: ResourceId) -> (removed: bool)
        ensures
            removed == old(self)@.contains_key(id@),
            final(self)@ == old(self)@.remove(id@),
    {
        self.resources.remove(&id.raw_id()).is_some()
    }

    /// The resource of `id`, if it is registered.
    pub fn get(&self, id: ResourceId) -> (resource: Option<&R>)
        ensures
            resource == (if self@.contains_key(id@) {
                Some(&self@[id@].0)
            } else {
                None
            }),
    {
        match self.resources.get(&id.raw_id()) {
            Some(entry) => Some(&entry.0),
            None => None,
        }
    }

    /// Whether the resource of `id` is ready; `None` when it is not
    /// registered (it was never added, or was removed).
    pub fn is_ready(&self, id: ResourceId) -> (ready: Option<bool>)
        ensures
            ready == (if self@.contains_key(id@) {
                Some(self@[id@].1)
            } else {
                None
            }),
    {
        match self.resources.get(&id.raw_id()) {
            Some(entry) => Some(entry.1),
            None => None,
        }
    }

    /// Marks the resource of `id` as ready, if it is registered.
    pub fn mark_as_ready(&mut self, id: ResourceId)
        ensures
            final(self)@ == (if old(self)@.contains_key(id@) {
                old(self)@.insert(id@, (old(self)@[id@].0, true))
            } else {
                old(self)@
            }),
    {
        let key = id.raw_id();
        match self.resources.remove(&key) {
            Some((resource, _)) => {
                self.resources.insert(key, (resource, true));
                assert(self@ =~= old(self)@.insert(id@, (old(self)@[id@].0, true)));
            },
            None => {
                assert(self@ =~= old(self)@);
            },
        }
    }
}

/// What a driver does once a read on the remote `id` ended with `status`: a
/// disconnection removes the remote; tells whether the driver removed it
/// itself (then a disconnection is reported; the user may have removed it
/// meanwhile, and then nothing is reported).
pub fn process_read<R>(register: &mut ResourceRegister<R>, id: ResourceId, status: ReadStatus) -> (removed: bool)
    ensures
        removed == (status == ReadStatus::Disconnected && old(register)@.contains_key(id@)),
        final(register)@ == (if status == ReadStatus::Disconnected {
            old(register)@.remove(id@)
        } else {
            old(register)@
        }),
{
    match status {
        ReadStatus::Disconnected => register.remove(id),
        ReadStatus::WaitNextEvent => false,
    }
}

/// What a driver does once the adapter reported `status` for the pending
/// remote `id`, accepted by `listener` or explicitly connected when `None`:
/// the action of [`resolve_pending`] (the event to report), with the remote
/// marked as ready once it is `Ready` and removed once it is `Disconnected`.
pub fn resolve_registered<R>(
    register: &mut ResourceRegister<R>,
    id: ResourceId,
    status: PendingStatus,
    listener: Option<ResourceId>,
) -> (action: PendingAction)
    ensures
        action == (match status {
            PendingStatus::Ready => PendingAction::MarkReady(listener),
            PendingStatus::Incomplete => PendingAction::Wait,
            PendingStatus::Disconnected => PendingAction::Remove(listener is None),
        }),
        final(register)@ == (match status {
            PendingStatus::Ready => if old(register)@.contains_key(id@) {
                old(register)@.insert(id@, (old(register)@[id@].0, true))
            } else {
                old(register)@
            },
            PendingStatus::Incomplete => old(register)@,
            PendingStatus::Disconnected => old(register)@.remove(id@),
        }),
        status == PendingStatus::Ready && old(register)@.contains_key(id@) ==> final(register)@[id@].1,
        status == PendingStatus::Disconnected ==> !final(register)@.contains_key(id@),
{
    let action = resolve_pending(status, listener);
    match status {
        PendingStatus::Ready => register.mark_as_ready(id),
        PendingStatus::Incomplete => {},
        PendingStatus::Disconnected => {
            register.remove(id);
        },
    }
    action
}

} // verus!
