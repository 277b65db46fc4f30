use ferrobus::error::{IoError, IoErrorKind};
use ferrobus::tcp::actor::{Action, Actor, ControlCommand, Dialing};
use ferrobus::tcp::frame::MBAP_HEADER_LEN;
use ferrobus::tcp::retry::BackoffPlan;
use ferrobus::tcp::tcp_connection::{actor_terminated_error, connect_stream, ConnectAttempt};
use ferrobus::tcp::{ConnectionStatus, ModbusTcpConnection, ModbusTcpRetry, ModbusTcpSocket};
use ferrobus::time::{Duration, Instant};
use ferrobus::{ModbusError, ModbusRequest};

fn handle() -> ModbusTcpConnection {
    ModbusTcpConnection::from_actor_parts(1, Duration::from_millis(50), None)
}

fn request() -> ModbusRequest {
    ModbusRequest::ReadHoldingRegisters {
        starting_address: 0,
        quantity: 1,
    }
}

fn connect(actor: &mut Actor, reachable: bool) -> Result<(), ModbusError> {
    let mut actions = actor.control(ControlCommand::Connect { ack: 1 });
    if let Some(Action::Dial(dialing)) = actions.pop() {
        assert!(matches!(dialing, Dialing::ForCommand { ack: 1 }));
        let attempt = if reachable {
            ConnectAttempt::Opened
        } else {
            ConnectAttempt::Failed(IoError::new(IoErrorKind::ConnectionRefused, "refused"))
        };
        let mut actions = actor.dialed(dialing, connect_stream(attempt), Instant::from_nanos(0));
        match actions.pop() {
            Some(Action::AcknowledgeConnect { ack: 1, result }) => {
                ModbusTcpConnection::connect(Some(result))
            }
            other => panic!("expected an acknowledgement, got {other:?}"),
        }
    } else {
        Ok(())
    }
}

fn published(actions: &[Action]) -> Vec<ConnectionStatus> {
    actions
        .iter()
        .filter_map(|action| match action {
            Action::Publish(status) => Some(*status),
            _ => None,
        })
        .collect()
}

#[test]
fn with_unit_id_keeps_retry_policy_and_overrides_unit() {
    let child = handle().with_unit_id(7);

    assert_eq!(child.retry, None);
    assert_eq!(child.unit_id, 7);
    assert_eq!(child.queue_timeout, Duration::from_millis(50));
}

#[test]
fn send_once_reports_dropped_response_waiter() {
    let result = handle().send_once(1, &request(), None);

    assert!(matches!(
        result,
        Err(ModbusError::ReadError(error)) if error.kind() == IoErrorKind::ConnectionAborted
    ));
}

#[test]
fn send_once_reports_terminated_actor() {
    assert_eq!(
        handle().send_once(1, &request(), None),
        Err(actor_terminated_error())
    );
    match actor_terminated_error() {
        ModbusError::ReadError(error) => assert_eq!(error.to_string(), "reader task terminated"),
        other => panic!("expected ReadError, got {other:?}"),
    }
}

#[test]
fn send_once_rejects_short_frame_before_header_indexing() {
    let result = handle().send_once(1, &request(), Some(Ok(vec![0; MBAP_HEADER_LEN - 1])));

    assert_eq!(
        result,
        Err(ModbusError::MalformedResponse(
            "Modbus TCP frame shorter than MBAP header: 6 < 7".to_string()
        ))
    );
}

#[test]
fn send_once_passes_on_the_error_of_the_actor() {
    let result = handle().send_once(1, &request(), Some(Err(ModbusError::QueueTimeout)));

    assert_eq!(result, Err(ModbusError::QueueTimeout));
}

#[test]
fn send_once_reports_a_pdu_that_is_no_response() {
    let frame = vec![0, 0, 0, 0, 0, 2, 1, 0x63];

    assert_eq!(
        handle().send_once(1, &request(), Some(Ok(frame))),
        Err(ModbusError::DeserializationError(
            "Unsupported function code: 99".to_string()
        ))
    );
}

#[test]
fn queue_deadline_is_anchored_at_submission() {
    let command = handle().request_command(9, &request(), 33, Instant::from_nanos(1_000));

    assert_eq!(command.unit_id, 9);
    assert_eq!(command.waiter, 33);
    assert_eq!(command.pdu, request());
    assert_eq!(command.queue_deadline, Instant::from_nanos(50_001_000));
}

#[test]
fn connect_attempts_are_classified() {
    assert_eq!(connect_stream(ConnectAttempt::Opened), Ok(()));
    assert_eq!(
        connect_stream(ConnectAttempt::TimedOut),
        Err(ModbusError::ConnectTimeout)
    );
    match connect_stream(ConnectAttempt::Failed(IoError::new(
        IoErrorKind::ConnectionRefused,
        "refused",
    ))) {
        Err(ModbusError::ConnectError(error)) => {
            assert_eq!(error.kind(), IoErrorKind::ConnectionRefused);
        }
        other => panic!("expected ConnectError, got {other:?}"),
    }
}

#[test]
fn connect_failure_is_reported() {
    let (mut actor, _) = ModbusTcpSocket::new("127.0.0.1", 502, 1).connect().unwrap();

    assert!(matches!(
        connect(&mut actor, false),
        Err(ModbusError::ConnectError(_))
    ));
}

#[test]
fn handle_connect_reports_dropped_ack() {
    assert!(matches!(
        ModbusTcpConnection::connect(None),
        Err(ModbusError::ReadError(error)) if error.kind() == IoErrorKind::ConnectionAborted
    ));
}

#[test]
fn handle_connect_opens_socket_and_is_idempotent() {
    let (mut actor, _) = ModbusTcpSocket::new("127.0.0.1", 502, 1).connect().unwrap();
    assert_eq!(
        actor.status,
        ConnectionStatus {
            connected: false,
            generation: 0,
        }
    );

    connect(&mut actor, true).unwrap();
    assert_eq!(
        actor.status,
        ConnectionStatus {
            connected: true,
            generation: 1,
        }
    );

    connect(&mut actor, true).unwrap();
    assert_eq!(
        actor.status,
        ConnectionStatus {
            connected: true,
            generation: 1,
        }
    );
}

#[test]
fn handle_connect_reports_unreachable_peer_without_bumping_generation() {
    let (mut actor, _) = ModbusTcpSocket::new("127.0.0.1", 502, 1).connect().unwrap();

    let result = connect(&mut actor, false);

    assert!(matches!(
        result,
        Err(ModbusError::ConnectError(_) | ModbusError::ConnectTimeout)
    ));
    assert_eq!(
        actor.status,
        ConnectionStatus {
            connected: false,
            generation: 0,
        }
    );

    connect(&mut actor, true).unwrap();

    assert_eq!(
        actor.status,
        ConnectionStatus {
            connected: true,
            generation: 1,
        }
    );
}

#[test]
fn watch_status_observes_drop_and_reconnect_as_distinct_changes() {
    let (mut actor, _) = ModbusTcpSocket::new("127.0.0.1", 502, 1).connect().unwrap();
    connect(&mut actor, true).unwrap();

    let actions = actor.control(ControlCommand::Disconnect { ack: 2 });
    assert_eq!(
        published(&actions),
        vec![ConnectionStatus {
            connected: false,
            generation: 1,
        }]
    );

    let actions = actor.dialed(
        Dialing::ForCommand { ack: 3 },
        Ok(()),
        Instant::from_nanos(0),
    );
    assert_eq!(
        published(&actions),
        vec![ConnectionStatus {
            connected: true,
            generation: 2,
        }]
    );
}

#[test]
fn watch_status_exposes_reconnect_to_a_late_sampler() {
    let (mut actor, _) = ModbusTcpSocket::new("127.0.0.1", 502, 1).connect().unwrap();
    connect(&mut actor, true).unwrap();
    let before = actor.status;

    for ack in [10, 11] {
        let _ = actor.control(ControlCommand::Disconnect { ack });
        connect(&mut actor, true).unwrap();
    }

    assert_eq!(
        before,
        ConnectionStatus {
            connected: true,
            generation: 1,
        }
    );
    assert_eq!(
        actor.status,
        ConnectionStatus {
            connected: true,
            generation: 3,
        }
    );
}

#[test]
fn watch_status_ignores_redundant_disconnect() {
    let (mut actor, _) = ModbusTcpSocket::new("127.0.0.1", 502, 1).connect().unwrap();
    connect(&mut actor, true).unwrap();

    let first = actor.control(ControlCommand::Disconnect { ack: 2 });
    let after_first = actor.status;
    let second = actor.control(ControlCommand::Disconnect { ack: 3 });

    assert_eq!(published(&first).len(), 1);
    assert!(published(&second).is_empty());
    assert_eq!(actor.status, after_first);
}

#[test]
fn disconnect_is_idempotent_and_clears_connected() {
    let (mut actor, _) = ModbusTcpSocket::new("127.0.0.1", 502, 1).connect().unwrap();
    connect(&mut actor, true).unwrap();

    let _ = actor.control(ControlCommand::Disconnect { ack: 2 });
    let _ = actor.control(ControlCommand::Disconnect { ack: 3 });

    assert!(!actor.status.connected);
}

#[test]
fn send_plan_follows_the_retry_policy() {
    assert_eq!(handle().send_plan(), Ok(None));

    let retry = ModbusTcpRetry::default();
    let retrying =
        ModbusTcpConnection::from_actor_parts(1, Duration::from_millis(50), Some(retry));
    assert_eq!(
        retrying.send_plan(),
        Ok(Some(BackoffPlan {
            min_delay: Duration::from_millis(500),
            factor: retry.multiplier,
            max_delay: None,
            total_delay: Some(Duration::from_secs(2)),
            max_times: None,
            jitter: true,
        }))
    );

    let broken = ModbusTcpConnection::from_actor_parts(
        1,
        Duration::from_millis(50),
        Some(ModbusTcpRetry {
            max_times: Some(0),
            ..retry
        }),
    );
    assert_eq!(
        broken.send_plan(),
        Err(ModbusError::ValidationError(
            "retry max_times must be >= 1".to_string()
        ))
    );
}

#[test]
fn handles_without_a_policy_never_try_again() {
    assert!(!handle().tries_again(&ModbusError::ReadTimeout));
    assert!(ModbusTcpConnection::from_actor_parts(
        1,
        Duration::from_millis(50),
        Some(ModbusTcpRetry::default())
    )
    .tries_again(&ModbusError::ReadTimeout));
}
