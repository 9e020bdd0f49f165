use message_io::transport::Transport as RootTransport;
use message_io::network::Transport;

const ALL: [Transport; 4] = [Transport::Tcp, Transport::FramedTcp, Transport::Udp, Transport::Ws];

#[test]
fn id_equivalence() {
    ALL.iter().for_each(|&transport| {
        assert!(transport == Transport::from_id(transport.id()));
    });
}

#[test]
fn transport_properties() {
    assert_eq!(usize::MAX, Transport::Tcp.max_message_size());
    assert_eq!(65507, Transport::Udp.max_message_size());
    assert_eq!(32 << 20, Transport::Ws.max_message_size());
    assert!(!Transport::Udp.is_connection_oriented());
    assert!(Transport::Ws.is_connection_oriented());
    assert!(!Transport::Tcp.is_packet_based());
    assert!(Transport::FramedTcp.is_packet_based());
    assert_eq!([0, 1, 2, 3], ALL.map(|t| t.id()));
}

#[test]
fn root_transport_properties() {
    assert_eq!(65535, RootTransport::Tcp.max_message_size());
    assert_eq!(1472, RootTransport::Udp.max_message_size());
    assert_eq!(64 << 20, RootTransport::Ws.max_message_size());
    assert_eq!(2, RootTransport::Udp.id());
}

#[test]
fn transport_names() {
    let names: Vec<String> = ALL.iter().map(|t| t.to_string()).collect();
    assert_eq!(vec!["Tcp", "FramedTcp", "Udp", "Ws"], names);
    assert_eq!("FramedTcp", RootTransport::FramedTcp.to_string());
    assert_eq!("Ws", RootTransport::Ws.to_string());
}
