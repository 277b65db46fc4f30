use ferrobus::tcp::{
    ConnectionStatus, ModbusTcpFlowControl, ModbusTcpRetry, ModbusTcpSocket,
    ModbusTcpTimeouts,
};
use ferrobus::time::Duration;
use ferrobus::word_order::Float32;
use ferrobus::ModbusError;

#[test]
fn new_stores_defaults_without_spawning() {
    let socket = ModbusTcpSocket::new("localhost", 502, 7);

    assert_eq!(socket.host, "localhost");
    assert_eq!(socket.port, 502);
    assert_eq!(socket.unit_id, 7);
    assert_eq!(socket.transaction_id, 1);
    assert_eq!(socket.timeouts, ModbusTcpTimeouts::default());
    assert_eq!(socket.flow_control, ModbusTcpFlowControl::default());
    assert_eq!(socket.retry, Some(ModbusTcpRetry::default()));
}

#[test]
fn modifiers_store_custom_settings() {
    let timeouts = ModbusTcpTimeouts {
        connect_timeout: Duration::from_millis(11),
        write_timeout: Duration::from_millis(12),
        response_timeout: Duration::from_millis(13),
    };
    let flow_control = ModbusTcpFlowControl {
        max_in_flight: 2,
        max_queue_depth: 3,
        queue_timeout: Duration::from_millis(14),
        quarantine_ttl: Duration::from_millis(15),
    };
    let retry = ModbusTcpRetry {
        initial_delay: Duration::from_millis(1),
        max_delay: Some(Duration::from_millis(2)),
        multiplier: Float32::from_bits(1.5f32.to_bits()),
        max_elapsed: Duration::from_millis(16),
        max_times: Some(2),
        jitter: false,
        retry_gateway_busy: false,
    };

    let socket = ModbusTcpSocket::new("127.0.0.1", 502, 1)
        .with_timeouts(timeouts)
        .with_flow_control(flow_control)
        .with_retry(Some(retry))
        .with_initial_transaction_id(42);

    assert_eq!(socket.timeouts, timeouts);
    assert_eq!(socket.flow_control, flow_control);
    assert_eq!(socket.retry, Some(retry));
    assert_eq!(socket.transaction_id, 42);

    let socket = socket.with_retry(None);
    assert_eq!(socket.retry, None);
}

#[test]
fn connect_validates_flow_control() {
    let flow_control = ModbusTcpFlowControl {
        max_in_flight: 0,
        ..ModbusTcpFlowControl::default()
    };

    let result = ModbusTcpSocket::new("127.0.0.1", 502, 1)
        .with_flow_control(flow_control)
        .connect();

    assert!(matches!(result, Err(ModbusError::ValidationError(_))));
}

#[test]
fn connect_gives_an_actor_and_a_handle() {
    let (actor, connection) = ModbusTcpSocket::new("plc.local", 1502, 9)
        .with_initial_transaction_id(77)
        .with_retry(None)
        .connect()
        .unwrap();

    assert_eq!(actor.host, "plc.local");
    assert_eq!(actor.port, 1502);
    assert_eq!(actor.next_tid, 77);
    assert_eq!(actor.status, ConnectionStatus::disconnected());
    assert!(actor.pending.is_empty());
    assert!(actor.quarantined.is_empty());
    assert_eq!(connection.unit_id, 9);
    assert_eq!(connection.queue_timeout, Duration::from_secs(5));
    assert_eq!(connection.retry, None);
}

#[test]
fn cloned_settings_are_the_same() {
    let socket = ModbusTcpSocket::new("plc.local", 1502, 9).with_initial_transaction_id(5);
    let copy = socket.clone();

    assert_eq!(copy.host, socket.host);
    assert_eq!(copy.transaction_id, 5);
    assert_eq!(copy.retry, socket.retry);
}
