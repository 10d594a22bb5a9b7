use mav_lite::config::RoutingConfig;
use mav_lite::connection::ConnectionType;
use mav_lite::connection::ConnectionId;
use mav_lite::mavlink::MavFrame;
use mav_lite::metrics::Metrics;
use mav_lite::router::Router;
use tokio::sync::mpsc::error::TryRecvError;
use tokio::sync::mpsc::{unbounded_channel, UnboundedReceiver};

fn heartbeat_v2(sys: u8, seq: u8) -> Vec<u8> {
    let mut f = vec![0xFD, 0x09, 0x00, 0x00, seq, sys, 0x01, 0x00, 0x00, 0x00];
    f.extend_from_slice(&[0u8; 9]);
    f.push(0xCC);
    f.push(0xDD);
    f
}

fn heartbeat_v1(sys: u8, seq: u8) -> Vec<u8> {
    let mut f = vec![0xFE, 0x09, seq, sys, 0x01, 0x00];
    f.extend_from_slice(&[0u8; 9]);
    f.push(0xAA);
    f.push(0xBB);
    f
}

fn frame_of(bytes: &[u8]) -> MavFrame {
    let (frame, consumed) = MavFrame::parse(bytes).expect("test frame must parse");
    assert_eq!(consumed, bytes.len());
    frame
}

fn default_policy() -> RoutingConfig {
    RoutingConfig {
        allow_uart_to_uart: false,
        allow_tcp_to_tcp: true,
        allow_uart_to_tcp: true,
        allow_tcp_to_uart: true,
    }
}

fn drain(rx: &mut UnboundedReceiver<bytes::Bytes>) -> Vec<Vec<u8>> {
    let mut got = Vec::new();
    loop {
        match rx.try_recv() {
            Ok(b) => got.push(b.to_vec()),
            Err(TryRecvError::Empty) | Err(TryRecvError::Disconnected) => break,
        }
    }
    got
}

#[test]
fn test_tcp_to_uart_forwarding() {
    // A ground station sends one 21-byte v2 HEARTBEAT; the serial endpoint
    // receives those 21 bytes unchanged and the counters say so.
    let mut router = Router::new(default_policy(), Metrics::new());
    let (uart_tx, mut uart_rx) = unbounded_channel();
    let (tcp_tx, mut tcp_rx) = unbounded_channel();
    let uart0 = ConnectionId::new_uart(0);
    let tcp0 = ConnectionId::new_tcp(0);
    router.handle_new_connection(uart0, uart_tx);
    router.handle_new_connection(tcp0, tcp_tx);

    let bytes = heartbeat_v2(0xFF, 0);
    assert_eq!(bytes.len(), 21);
    router.route_frame(tcp0, frame_of(&bytes));

    let got = drain(&mut uart_rx);
    assert_eq!(got.len(), 1);
    assert_eq!(got[0], bytes);
    assert!(drain(&mut tcp_rx).is_empty());

    let stats = router.get_stats();
    assert_eq!(stats.messages_received, 1);
    assert_eq!(stats.messages_routed, 1);
    assert_eq!(stats.messages_dropped, 0);
    assert_eq!(stats.bytes_routed, 21);
}

#[test]
fn test_self_loop_never_delivered() {
    // A frame from a source is never delivered back to that source.
    let mut router = Router::new(default_policy(), Metrics::new());
    let (tcp_tx, mut tcp_rx) = unbounded_channel();
    let tcp0 = ConnectionId::new_tcp(0);
    router.handle_new_connection(tcp0, tcp_tx);

    router.route_frame(tcp0, frame_of(&heartbeat_v2(1, 0)));

    assert!(drain(&mut tcp_rx).is_empty());
    let stats = router.get_stats();
    assert_eq!(stats.messages_received, 1);
    assert_eq!(stats.messages_routed, 0);
    assert_eq!(stats.messages_dropped, 0);
}

#[test]
fn test_uart_policy_off_and_on() {
    // With vehicle-to-vehicle routing off, a frame from one serial endpoint
    // never reaches another; with it on, it does.
    for (allow, expect) in [(false, 0usize), (true, 1usize)] {
        let mut policy = default_policy();
        policy.allow_uart_to_uart = allow;
        let mut router = Router::new(policy, Metrics::new());
        let (tx0, mut rx0) = unbounded_channel();
        let (tx1, mut rx1) = unbounded_channel();
        let uart0 = ConnectionId::new_uart(0);
        let uart1 = ConnectionId::new_uart(1);
        router.handle_new_connection(uart0, tx0);
        router.handle_new_connection(uart1, tx1);

        router.route_frame(uart0, frame_of(&heartbeat_v1(1, 0)));

        assert_eq!(drain(&mut rx1).len(), expect);
        assert!(drain(&mut rx0).is_empty());
    }
}

#[test]
fn test_sysid_binding_and_disconnect() {
    // The first frame from a serial endpoint binds its system id; the
    // binding goes away when that endpoint disconnects.
    let mut router = Router::new(default_policy(), Metrics::new());
    let (uart_tx, _uart_rx) = unbounded_channel();
    let uart0 = ConnectionId::new_uart(0);
    router.handle_new_connection(uart0, uart_tx);
    assert_eq!(router.get_connection_by_sysid(1), None);

    router.route_frame(uart0, frame_of(&heartbeat_v1(1, 0)));
    assert_eq!(router.get_connection_by_sysid(1), Some(uart0));

    router.handle_disconnect(uart0);
    assert_eq!(router.get_connection_by_sysid(1), None);
    assert_eq!(router.connection_count(), 0);
}

#[test]
fn test_sysid_last_writer_wins() {
    // Two serial endpoints reporting the same system id: the newer binding
    // overwrites the older, and disconnecting the older endpoint leaves the
    // newer binding in place.
    let mut router = Router::new(default_policy(), Metrics::new());
    let (tx0, _rx0) = unbounded_channel();
    let (tx1, _rx1) = unbounded_channel();
    let uart0 = ConnectionId::new_uart(0);
    let uart1 = ConnectionId::new_uart(1);
    router.handle_new_connection(uart0, tx0);
    router.handle_new_connection(uart1, tx1);

    router.route_frame(uart0, frame_of(&heartbeat_v1(7, 0)));
    assert_eq!(router.get_connection_by_sysid(7), Some(uart0));

    router.route_frame(uart1, frame_of(&heartbeat_v1(7, 1)));
    assert_eq!(router.get_connection_by_sysid(7), Some(uart1));

    router.handle_disconnect(uart0);
    assert_eq!(router.get_connection_by_sysid(7), Some(uart1));
}

#[test]
fn test_backpressure_drop_accounting() {
    // One destination's egress is gone: every send toward it counts one
    // drop, and every other destination still receives every frame.
    let mut router = Router::new(default_policy(), Metrics::new());
    let (dead_tx, dead_rx) = unbounded_channel();
    drop(dead_rx);
    let (live_tx, mut live_rx) = unbounded_channel();
    let uart_dead = ConnectionId::new_uart(0);
    let tcp_live = ConnectionId::new_tcp(0);
    let tcp_src = ConnectionId::new_tcp(1);
    let (src_tx, _src_rx) = unbounded_channel();
    router.handle_new_connection(uart_dead, dead_tx);
    router.handle_new_connection(tcp_live, live_tx);
    router.handle_new_connection(tcp_src, src_tx);

    let bytes = heartbeat_v2(5, 0);
    for _ in 0..100 {
        router.route_frame(tcp_src, frame_of(&bytes));
    }

    let stats = router.get_stats();
    assert_eq!(stats.messages_received, 100);
    assert_eq!(stats.messages_dropped, 100);
    assert_eq!(stats.messages_routed, 100);
    assert_eq!(stats.bytes_routed, 100 * bytes.len() as u64);
    assert_eq!(drain(&mut live_rx).len(), 100);
}

#[test]
fn test_ordering_preserved() {
    // Frames from one source reach a destination in production order.
    let mut router = Router::new(default_policy(), Metrics::new());
    let (uart_tx, mut uart_rx) = unbounded_channel();
    let (tcp_tx, _tcp_rx) = unbounded_channel();
    let uart0 = ConnectionId::new_uart(0);
    let tcp0 = ConnectionId::new_tcp(0);
    router.handle_new_connection(uart0, uart_tx);
    router.handle_new_connection(tcp0, tcp_tx);

    let mut sent = Vec::new();
    for seq in 0..50u8 {
        let bytes = heartbeat_v2(9, seq);
        router.route_frame(tcp0, frame_of(&bytes));
        sent.push(bytes);
    }
    let got = drain(&mut uart_rx);
    assert_eq!(got, sent);
}

#[test]
fn test_connection_counts() {
    let mut router = Router::new(default_policy(), Metrics::new());
    assert_eq!(router.connection_count(), 0);
    let (t0, _r0) = unbounded_channel();
    let (t1, _r1) = unbounded_channel();
    let (t2, _r2) = unbounded_channel();
    router.handle_new_connection(ConnectionId::new_tcp(0), t0);
    router.handle_new_connection(ConnectionId::new_uart(0), t1);
    router.handle_new_connection(ConnectionId::new_uart(1), t2);
    assert_eq!(router.connection_count(), 3);
    assert_eq!(router.tcp_connection_count(), 1);
    assert_eq!(router.uart_connection_count(), 2);

    router.handle_disconnect(ConnectionId::new_uart(0));
    assert_eq!(router.connection_count(), 2);
    assert_eq!(router.uart_connection_count(), 1);
}

#[test]
fn test_duplicate_registration_overwrites() {
    // A duplicate identity is an invariant violation that is answered by
    // overwriting the record, not by growing the registry.
    let mut router = Router::new(default_policy(), Metrics::new());
    let (t0, _r0) = unbounded_channel();
    let (t1, mut r1) = unbounded_channel();
    let tcp0 = ConnectionId::new_tcp(0);
    let tcp9 = ConnectionId::new_tcp(9);
    let (src_tx, _src_rx) = unbounded_channel();
    router.handle_new_connection(tcp0, t0);
    router.handle_new_connection(tcp0, t1);
    router.handle_new_connection(tcp9, src_tx);
    assert_eq!(router.connection_count(), 2);

    router.route_frame(tcp9, frame_of(&heartbeat_v2(1, 0)));
    assert_eq!(drain(&mut r1).len(), 1);
}

#[test]
fn test_disconnect_unknown_is_noop() {
    let mut router = Router::new(default_policy(), Metrics::new());
    let (t0, _r0) = unbounded_channel();
    router.handle_new_connection(ConnectionId::new_tcp(0), t0);
    router.handle_disconnect(ConnectionId::new_uart(5));
    assert_eq!(router.connection_count(), 1);
}

#[test]
fn test_should_route_matrix() {
    let router = Router::new(default_policy(), Metrics::new());
    assert!(!router.should_route(ConnectionType::Uart, ConnectionType::Uart));
    assert!(router.should_route(ConnectionType::Uart, ConnectionType::Tcp));
    assert!(router.should_route(ConnectionType::Tcp, ConnectionType::Uart));
    assert!(router.should_route(ConnectionType::Tcp, ConnectionType::Tcp));
}
