use message_io::adapters::framed_tcp::frame_pending_bytes;
use message_io::adapters::tcp::{
    accept_step, check_stream_ready, stream_read_step, stream_send_step, TcpConnectConfig,
    TcpListenConfig,
};
use message_io::adapters::udp::{
    datagram_accept_step, datagram_read_step, listen_socket_options, send_packet_step,
    ListenSocketOptions, UdpListenConfig,
};
use message_io::adapters::unix_socket::{
    check_stream_ready as unix_check_stream_ready, UnixSocketConnectConfig, UnixSocketListenConfig,
};
use message_io::adapters::ws::{
    connect_wait_status, default_port, handshake_step, pending_start, ws_target, PendingStart,
    RemoteStage, io_error_to_read_status, read_message_step, send_step,
    HandshakeNext, HandshakeOutcome, HandshakePhase, MessageKind, WriteOutcome,
};
use message_io::network::adapter::{
    AcceptStep, IoErrorKind, PendingStatus, ReadStatus, ReadStep, SendStatus, SendStep,
};
use std::path::PathBuf;

#[test]
fn tcp_stream_readiness() {
    assert_eq!(PendingStatus::Disconnected, check_stream_ready(true, Ok(())));
    assert_eq!(PendingStatus::Ready, check_stream_ready(false, Ok(())));
    assert_eq!(
        PendingStatus::Incomplete,
        check_stream_ready(false, Err(IoErrorKind::NotConnected))
    );
    assert_eq!(
        PendingStatus::Incomplete,
        check_stream_ready(false, Err(IoErrorKind::InvalidInput))
    );
    assert_eq!(
        PendingStatus::Disconnected,
        check_stream_ready(false, Err(IoErrorKind::ConnectionRefused))
    );
}

#[test]
fn tcp_read_steps() {
    assert_eq!(ReadStep::Finish(ReadStatus::Disconnected), stream_read_step(Ok(0)));
    assert_eq!(ReadStep::Data(17), stream_read_step(Ok(17)));
    assert_eq!(ReadStep::Retry, stream_read_step(Err(IoErrorKind::Interrupted)));
    assert_eq!(
        ReadStep::Finish(ReadStatus::WaitNextEvent),
        stream_read_step(Err(IoErrorKind::WouldBlock))
    );
    assert_eq!(
        ReadStep::Finish(ReadStatus::Disconnected),
        stream_read_step(Err(IoErrorKind::ConnectionReset))
    );
}

#[test]
fn tcp_send_steps() {
    assert_eq!(SendStep::Continue(4), stream_send_step(0, 10, Ok(4)));
    assert_eq!(SendStep::Finish(SendStatus::Sent), stream_send_step(4, 10, Ok(6)));
    assert_eq!(SendStep::Continue(4), stream_send_step(4, 10, Err(IoErrorKind::WouldBlock)));
    assert_eq!(
        SendStep::Finish(SendStatus::ResourceNotFound),
        stream_send_step(4, 10, Err(IoErrorKind::ConnectionReset))
    );
    assert_eq!(SendStep::Finish(SendStatus::Sent), stream_send_step(0, 0, Ok(0)));
}

#[test]
fn tcp_accept_steps() {
    assert_eq!(AcceptStep::Accept, accept_step(Ok(())));
    assert_eq!(AcceptStep::Stop(false), accept_step(Err(IoErrorKind::WouldBlock)));
    assert_eq!(AcceptStep::Retry, accept_step(Err(IoErrorKind::Interrupted)));
    assert_eq!(AcceptStep::Stop(true), accept_step(Err(IoErrorKind::Other)));
}

#[test]
fn tcp_default_configs() {
    assert!(TcpConnectConfig::default().keepalive.is_none());
    assert!(TcpListenConfig::default().keepalive.is_none());
}

#[test]
fn udp_listen_options() {
    let config = UdpListenConfig::default();
    assert!(!config.send_broadcasts && !config.reuse_address && !config.reuse_port);
    assert_eq!(
        ListenSocketOptions {
            reuse_address: false,
            reuse_port: false,
            broadcast: false,
            join_multicast: false
        },
        listen_socket_options(&config, false)
    );
    assert_eq!(
        ListenSocketOptions {
            reuse_address: true,
            reuse_port: true,
            broadcast: false,
            join_multicast: true
        },
        listen_socket_options(&config, true)
    );
    let config = UdpListenConfig { send_broadcasts: true, reuse_address: true, reuse_port: false };
    assert_eq!(
        ListenSocketOptions {
            reuse_address: true,
            reuse_port: false,
            broadcast: true,
            join_multicast: false
        },
        listen_socket_options(&config, false)
    );
}

#[test]
fn udp_send_steps() {
    assert_eq!(Some(SendStatus::Sent), send_packet_step(Ok(5)));
    assert_eq!(
        Some(SendStatus::ResourceNotFound),
        send_packet_step(Err(IoErrorKind::ConnectionRefused))
    );
    assert_eq!(None, send_packet_step(Err(IoErrorKind::WouldBlock)));
    assert_eq!(Some(SendStatus::MaxPacketSizeExceeded), send_packet_step(Err(IoErrorKind::Other)));
    assert_eq!(Some(SendStatus::ResourceNotFound), send_packet_step(Err(IoErrorKind::Unlisted)));
}

#[test]
fn udp_receive_steps() {
    assert_eq!(ReadStep::Data(0), datagram_read_step(Ok(0)));
    assert_eq!(ReadStep::Data(9), datagram_read_step(Ok(9)));
    assert_eq!(
        ReadStep::Finish(ReadStatus::WaitNextEvent),
        datagram_read_step(Err(IoErrorKind::ConnectionRefused))
    );
    assert_eq!(AcceptStep::Accept, datagram_accept_step(Ok(())));
    assert_eq!(AcceptStep::Stop(false), datagram_accept_step(Err(IoErrorKind::WouldBlock)));
    assert_eq!(AcceptStep::Stop(true), datagram_accept_step(Err(IoErrorKind::Interrupted)));
}

#[test]
fn framed_pending_bytes() {
    let header = [3u8, 0, 0, 0];
    let data = [7u8, 8, 9];
    assert_eq!(&[3u8, 0, 0, 0], frame_pending_bytes(&header, &data, 0));
    assert_eq!(&[0u8], frame_pending_bytes(&header, &data, 3));
    assert_eq!(&[7u8, 8, 9], frame_pending_bytes(&header, &data, 4));
    assert_eq!(&[9u8], frame_pending_bytes(&header, &data, 6));
    assert!(frame_pending_bytes(&header, &data, 7).is_empty());
}

#[test]
fn unix_socket_configs() {
    let path = PathBuf::from("/tmp/other.sock");
    assert_eq!(
        UnixSocketListenConfig::new(path.clone()),
        UnixSocketListenConfig::new(path.clone())
    );
    assert_ne!(UnixSocketListenConfig::new(path.clone()), UnixSocketListenConfig::default());
    assert_eq!(
        UnixSocketListenConfig::new(PathBuf::from("/tmp/mio.sock")),
        UnixSocketListenConfig::default()
    );
    assert_eq!(
        UnixSocketConnectConfig::new(PathBuf::from("/tmp/mio.sock")),
        UnixSocketConnectConfig::default()
    );
    assert_eq!(PendingStatus::Ready, unix_check_stream_ready(false));
    assert_eq!(PendingStatus::Disconnected, unix_check_stream_ready(true));
}

#[test]
fn ws_handshake_steps() {
    assert_eq!(None, connect_wait_status(PendingStatus::Ready));
    assert_eq!(Some(PendingStatus::Incomplete), connect_wait_status(PendingStatus::Incomplete));
    assert_eq!(
        Some(PendingStatus::Disconnected),
        connect_wait_status(PendingStatus::Disconnected)
    );
    assert_eq!(
        (PendingStatus::Ready, HandshakeNext::WebSocket),
        handshake_step(HandshakePhase::Server, HandshakeOutcome::Done)
    );
    assert_eq!(
        (PendingStatus::Incomplete, HandshakeNext::Pending(HandshakePhase::Client)),
        handshake_step(HandshakePhase::Connect, HandshakeOutcome::Interrupted)
    );
    assert_eq!(
        (PendingStatus::Incomplete, HandshakeNext::Pending(HandshakePhase::Server)),
        handshake_step(HandshakePhase::Accept, HandshakeOutcome::Interrupted)
    );
    assert_eq!(
        (PendingStatus::Disconnected, HandshakeNext::Failed),
        handshake_step(HandshakePhase::Client, HandshakeOutcome::IoFailure)
    );
    assert_eq!(
        (PendingStatus::Disconnected, HandshakeNext::Failed),
        handshake_step(HandshakePhase::Accept, HandshakeOutcome::OtherFailure)
    );
}

#[test]
fn ws_read_and_send_steps() {
    assert_eq!(ReadStatus::WaitNextEvent, io_error_to_read_status(IoErrorKind::WouldBlock));
    assert_eq!(ReadStatus::Disconnected, io_error_to_read_status(IoErrorKind::ConnectionReset));
    assert_eq!(ReadStep::Data(12), read_message_step(Ok((MessageKind::Binary, 12))));
    assert_eq!(
        ReadStep::Finish(ReadStatus::Disconnected),
        read_message_step(Ok((MessageKind::Close, 0)))
    );
    assert_eq!(ReadStep::Retry, read_message_step(Ok((MessageKind::Other, 3))));
    assert_eq!(
        ReadStep::Finish(ReadStatus::WaitNextEvent),
        read_message_step(Err(Some(IoErrorKind::WouldBlock)))
    );
    assert_eq!(ReadStep::Finish(ReadStatus::Disconnected), read_message_step(Err(None)));
    assert_eq!(Some(SendStatus::Sent), send_step(WriteOutcome::Written));
    assert_eq!(None, send_step(WriteOutcome::WouldBlock));
    assert_eq!(Some(SendStatus::MaxPacketSizeExceeded), send_step(WriteOutcome::Capacity));
    assert_eq!(Some(SendStatus::ResourceNotFound), send_step(WriteOutcome::OtherError));
}

#[test]
fn ws_default_ports() {
    assert_eq!(Some(80), default_port("ws"));
    assert_eq!(Some(443), default_port("wss"));
    assert_eq!(None, default_port("http"));
    assert_eq!(None, default_port("w"));
    assert_eq!(None, default_port(""));
    assert_eq!(None, default_port("wsss"));
}

#[test]
fn unix_socket_config_paths() {
    let path = PathBuf::from("/tmp/other.sock");
    assert_eq!(&path, UnixSocketListenConfig::new(path.clone()).path());
    assert_eq!(&path, UnixSocketConnectConfig::new(path.clone()).path());
    assert_eq!(&PathBuf::from("/tmp/mio.sock"), UnixSocketConnectConfig::default().path());
}

#[test]
fn ws_targets_of_urls() {
    assert_eq!(Some(("domain".to_string(), 1234)), ws_target("ws://domain:1234/socket"));
    assert_eq!(Some(("127.0.0.1".to_string(), 80)), ws_target("ws://127.0.0.1/message-io-default"));
    assert_eq!(Some(("127.0.0.1".to_string(), 80)), ws_target("ws://127.0.0.1:80/"));
    assert_eq!(Some(("::1".to_string(), 443)), ws_target("wss://[::1]/chat"));
    assert_eq!(Some(("example.com".to_string(), 8443)), ws_target("wss://example.com:8443"));
    assert_eq!(Some(("example.com".to_string(), 80)), ws_target("http://example.com/x"));
    assert_eq!(None, ws_target("custom://example.com/"));
    assert_eq!(Some(("example.com".to_string(), 7)), ws_target("custom://example.com:7/"));
    assert_eq!(None, ws_target("not a url"));
    assert_eq!(None, ws_target("unix:/tmp/socket"));
}

#[test]
fn ws_pending_starts() {
    assert_eq!(PendingStart::Answer(PendingStatus::Ready), pending_start(RemoteStage::WebSocket));
    assert_eq!(
        PendingStart::Attempt(HandshakePhase::Client),
        pending_start(RemoteStage::Handshake(HandshakePhase::Client))
    );
    assert_eq!(
        PendingStart::Attempt(HandshakePhase::Connect),
        pending_start(RemoteStage::Handshake(HandshakePhase::Connect))
    );
}

#[test]
fn multicast_reuse_addr() {
    // Two listeners of a multicast address share it: both reuse address and
    // port and join the group, whatever their configuration says.
    let config = UdpListenConfig::default();
    let options = listen_socket_options(&config, true);
    assert!(options.reuse_address && options.reuse_port && options.join_multicast);
    assert!(!options.broadcast);
    let other = listen_socket_options(&config, true);
    assert_eq!(options, other);
}
