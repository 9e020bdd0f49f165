use message_io::network::adapter::{PendingStatus, ReadStatus};
use message_io::network::driver::PendingAction;
use message_io::network::registry::{process_read, resolve_registered, ResourceRegister};
use message_io::network::resource_id::{ResourceId, ResourceType};

#[test]
fn register_add_remove_and_ready_query() {
    let mut register = ResourceRegister::new();
    let id = ResourceId::new(1, ResourceType::Remote, 7);
    let other = ResourceId::new(1, ResourceType::Remote, 8);
    assert_eq!(None, register.is_ready(id));
    register.add("remote", id);
    assert_eq!(Some(false), register.is_ready(id));
    assert_eq!(Some(&"remote"), register.get(id));
    register.mark_as_ready(id);
    assert_eq!(Some(true), register.is_ready(id));
    register.mark_as_ready(other);
    assert_eq!(None, register.is_ready(other));
    assert!(register.remove(id));
    assert!(!register.remove(id));
    assert_eq!(None, register.is_ready(id));
    register.add_ready("local", other);
    assert_eq!(Some(true), register.is_ready(other));
}

#[test]
fn resolving_a_pending_remote() {
    let mut register = ResourceRegister::new();
    let listener = ResourceId::new(2, ResourceType::Local, 0);
    let accepted = ResourceId::new(2, ResourceType::Remote, 1);
    let connected = ResourceId::new(2, ResourceType::Remote, 2);
    register.add("accepted", accepted);
    register.add("connected", connected);
    assert_eq!(
        PendingAction::Wait,
        resolve_registered(&mut register, accepted, PendingStatus::Incomplete, Some(listener))
    );
    assert_eq!(Some(false), register.is_ready(accepted));
    assert_eq!(
        PendingAction::MarkReady(Some(listener)),
        resolve_registered(&mut register, accepted, PendingStatus::Ready, Some(listener))
    );
    assert_eq!(Some(true), register.is_ready(accepted));
    assert_eq!(
        PendingAction::Remove(true),
        resolve_registered(&mut register, connected, PendingStatus::Disconnected, None)
    );
    assert_eq!(None, register.is_ready(connected));
    assert!(!register.remove(connected));
}

#[test]
fn reads_that_end_in_a_disconnection() {
    let mut register = ResourceRegister::new();
    let id = ResourceId::new(0, ResourceType::Remote, 3);
    register.add("remote", id);
    assert!(!process_read(&mut register, id, ReadStatus::WaitNextEvent));
    assert_eq!(Some(false), register.is_ready(id));
    assert!(process_read(&mut register, id, ReadStatus::Disconnected));
    assert_eq!(None, register.is_ready(id));
    // Removed meanwhile by the user: no disconnection is reported.
    assert!(!process_read(&mut register, id, ReadStatus::Disconnected));
}
