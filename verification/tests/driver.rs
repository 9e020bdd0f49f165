use message_io::network::adapter::{PendingStatus, ReadStatus, SendStatus};
use message_io::network::driver::{
    ready_answer, reports_disconnection, resolve_pending, resource_action, send_route, PendingAction,
    ResourceAction, SendRoute,
};
use message_io::network::poll::{
    resource_of_token, token_of_resource, translate_events, PollEvent, Readiness, TokenEvent,
    WAKER_TOKEN,
};
use message_io::network::resource_id::{ResourceId, ResourceType};

#[test]
fn send_route_of_each_resource() {
    assert_eq!(SendRoute::Remote, send_route(ResourceType::Remote, true, true));
    assert_eq!(
        SendRoute::Status(SendStatus::ResourceNotAvailable),
        send_route(ResourceType::Remote, true, false)
    );
    assert_eq!(
        SendRoute::Status(SendStatus::ResourceNotFound),
        send_route(ResourceType::Remote, false, true)
    );
    assert_eq!(SendRoute::Local, send_route(ResourceType::Local, true, false));
    assert_eq!(
        SendRoute::Status(SendStatus::ResourceNotFound),
        send_route(ResourceType::Local, false, false)
    );
}

#[test]
fn ready_answer_of_each_resource() {
    assert_eq!(None, ready_answer(ResourceType::Remote, false, true));
    assert_eq!(Some(false), ready_answer(ResourceType::Remote, true, false));
    assert_eq!(Some(true), ready_answer(ResourceType::Remote, true, true));
    assert_eq!(Some(true), ready_answer(ResourceType::Local, true, false));
    assert_eq!(None, ready_answer(ResourceType::Local, false, false));
}

#[test]
fn resource_action_of_each_event() {
    assert_eq!(
        ResourceAction::Skip,
        resource_action(ResourceType::Remote, false, true, Readiness::Read)
    );
    assert_eq!(
        ResourceAction::ResolvePending,
        resource_action(ResourceType::Remote, true, false, Readiness::Write)
    );
    assert_eq!(
        ResourceAction::WriteRemote,
        resource_action(ResourceType::Remote, true, true, Readiness::Write)
    );
    assert_eq!(
        ResourceAction::ReadRemote,
        resource_action(ResourceType::Remote, true, true, Readiness::Read)
    );
    assert_eq!(
        ResourceAction::AcceptLocal,
        resource_action(ResourceType::Local, true, false, Readiness::Read)
    );
    assert_eq!(
        ResourceAction::Skip,
        resource_action(ResourceType::Local, true, true, Readiness::Write)
    );
}

#[test]
fn pending_resolution() {
    let listener = ResourceId::new(2, ResourceType::Local, 9);
    assert_eq!(
        PendingAction::MarkReady(Some(listener)),
        resolve_pending(PendingStatus::Ready, Some(listener))
    );
    assert_eq!(PendingAction::MarkReady(None), resolve_pending(PendingStatus::Ready, None));
    assert_eq!(PendingAction::Wait, resolve_pending(PendingStatus::Incomplete, None));
    assert_eq!(PendingAction::Remove(true), resolve_pending(PendingStatus::Disconnected, None));
    assert_eq!(
        PendingAction::Remove(false),
        resolve_pending(PendingStatus::Disconnected, Some(listener))
    );
}

#[test]
fn disconnection_reports() {
    assert!(reports_disconnection(ReadStatus::Disconnected, true));
    assert!(!reports_disconnection(ReadStatus::Disconnected, false));
    assert!(!reports_disconnection(ReadStatus::WaitNextEvent, true));
}

#[test]
fn token_roundtrip() {
    let id = ResourceId::new(5, ResourceType::Remote, 1234);
    let token = token_of_resource(id);
    assert_eq!((id.raw() << 1) | 1, token);
    assert_ne!(WAKER_TOKEN, token);
    assert_eq!(id, resource_of_token(token));
}

#[test]
fn poll_reports_become_events() {
    let a = ResourceId::new(1, ResourceType::Remote, 3);
    let b = ResourceId::new(2, ResourceType::Local, 4);
    let reports = [
        TokenEvent { token: token_of_resource(a), readable: true, writable: true },
        TokenEvent { token: WAKER_TOKEN, readable: true, writable: false },
        TokenEvent { token: token_of_resource(b), readable: false, writable: true },
        TokenEvent { token: token_of_resource(b), readable: false, writable: false },
    ];
    let events = translate_events(&reports);
    assert_eq!(
        vec![
            PollEvent::Network(a, Readiness::Read),
            PollEvent::Network(a, Readiness::Write),
            PollEvent::Waker,
            PollEvent::Network(b, Readiness::Write),
        ],
        events
    );
    assert!(translate_events(&[]).is_empty());
}

#[test]
fn read_status_text() {
    assert_eq!("ReadStatus::Disconnected", ReadStatus::Disconnected.to_string());
    assert_eq!("ReadStatus::WaitNextEvent", ReadStatus::WaitNextEvent.to_string());
}
