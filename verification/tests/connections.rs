use message_io::adapter::{resource_type, stamp_resource_type, ResourceType as RawType, LISTENER_BIT};
use message_io::network::adapter::IoErrorKind;
use message_io::network_adapter::{
    connection_step, send_way, ConnectionKind, ConnectionStep, ConnectionTable, SendWay,
};
use message_io::network_manager::TransportProtocol;
use message_io::poll::{resource_of_token, token_of_resource, WAKER_TOKEN};
use message_io::resource_id::{ResourceId as BitId, ResourceIdGenerator as BitGenerator,
    ResourceType as BitType};

#[test]
fn connection_ids_are_given_in_order() {
    let mut table: ConnectionTable<&str> = ConnectionTable::new();
    assert!(table.has_free_id());
    assert_eq!(0, table.next_free_id());
    assert_eq!(0, table.add("listener"));
    assert_eq!(1, table.add("stream"));
    assert_eq!(Some(&"stream"), table.get(1));
    assert_eq!(Some("listener"), table.remove(0));
    assert_eq!(None, table.remove(0));
    assert_eq!(None, table.get(0));
    assert_eq!(2, table.next_free_id());
    assert_eq!(2, table.add("socket"));
    assert_eq!(Some(&"socket"), table.get(2));
    assert_eq!(Some(&"stream"), table.get(1));
}

#[test]
fn send_way_of_each_connection() {
    assert_eq!(SendWay::Write, send_way(Some(ConnectionKind::TcpStream)));
    assert_eq!(SendWay::Send, send_way(Some(ConnectionKind::UdpSocket)));
    assert_eq!(SendWay::SendTo, send_way(Some(ConnectionKind::UdpListener)));
    assert_eq!(SendWay::NotAllowed, send_way(Some(ConnectionKind::TcpListener)));
    assert_eq!(SendWay::NotFound, send_way(None));
}

#[test]
fn connection_steps() {
    assert_eq!(ConnectionStep::Accepted, connection_step(ConnectionKind::TcpListener, Ok(0)));
    assert_eq!(ConnectionStep::Disconnected, connection_step(ConnectionKind::TcpStream, Ok(0)));
    assert_eq!(ConnectionStep::Data(8), connection_step(ConnectionKind::TcpStream, Ok(8)));
    assert_eq!(ConnectionStep::Data(0), connection_step(ConnectionKind::UdpListener, Ok(0)));
    assert_eq!(ConnectionStep::Data(512), connection_step(ConnectionKind::UdpSocket, Ok(512)));
    assert_eq!(
        ConnectionStep::Stop,
        connection_step(ConnectionKind::UdpSocket, Err(IoErrorKind::WouldBlock))
    );
    assert_eq!(
        ConnectionStep::Retry,
        connection_step(ConnectionKind::TcpStream, Err(IoErrorKind::Interrupted))
    );
    assert_eq!(
        ConnectionStep::Retry,
        connection_step(ConnectionKind::UdpSocket, Err(IoErrorKind::ConnectionRefused))
    );
    assert_eq!(
        ConnectionStep::Fail,
        connection_step(ConnectionKind::UdpListener, Err(IoErrorKind::Interrupted))
    );
    assert_eq!(
        ConnectionStep::Fail,
        connection_step(ConnectionKind::TcpListener, Err(IoErrorKind::ConnectionRefused))
    );
}

#[test]
fn raw_identifier_types() {
    assert_eq!(RawType::Remote, resource_type(5));
    assert_eq!(RawType::Listener, resource_type(LISTENER_BIT | 5));
    let mut id = LISTENER_BIT | 5;
    stamp_resource_type(&mut id, RawType::Listener);
    assert_eq!(LISTENER_BIT, id);
    let mut id = 42;
    stamp_resource_type(&mut id, RawType::Remote);
    assert_eq!(42, id);
    let mut id = 42;
    stamp_resource_type(&mut id, RawType::Listener);
    assert_eq!(0, id);
}

#[test]
fn listener_bit_tokens() {
    assert!(resource_of_token(WAKER_TOKEN).is_none());
    let generator = BitGenerator::new(3);
    let remote = generator.generate(BitType::Remote);
    let token = token_of_resource(remote);
    assert_ne!(WAKER_TOKEN, token);
    assert_eq!(Some(remote), resource_of_token(token));
    assert_eq!(BitType::Remote, BitId::from(token >> 1).resource_type());
}

#[test]
fn protocol_names() {
    assert_eq!("tcp", TransportProtocol::Tcp.to_string());
    assert_eq!("udp", TransportProtocol::Udp.to_string());
}
