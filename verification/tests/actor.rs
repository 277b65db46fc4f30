use std::sync::Arc;

use ferrobus::error::{IoError, IoErrorKind};
use ferrobus::tcp::actor::{
    control_channel_capacity, default_teardown_error, read_error_from_stream,
    write_error_from_sink, Action, Actor, ControlCommand, Dialing, Event, PendingEntry,
    RequestCommand, Step, WriteOutcome,
};
use ferrobus::tcp::adu::build_modbus_tcp_adu_from_pdu_bytes;
use ferrobus::tcp::codec::MbapCodecError;
use ferrobus::tcp::{ConnectionStatus, ModbusTcpFlowControl, ModbusTcpTimeouts};
use ferrobus::time::Instant;
use ferrobus::{ModbusError, ModbusRequest};

const SECOND: u128 = 1_000_000_000;

fn at(nanos: u128) -> Instant {
    Instant::from_nanos(nanos)
}

fn actor_with_seed(seed: u16) -> Actor {
    Actor::new(
        "127.0.0.1".to_string(),
        502,
        ModbusTcpTimeouts::default(),
        ModbusTcpFlowControl::default(),
        seed,
    )
}

fn connected_actor() -> Actor {
    let mut actor = actor_with_seed(0);
    let actions = actor.dialed(Dialing::ForCommand { ack: 1 }, Ok(()), at(0));
    assert_eq!(actions.len(), 2);
    actor
}

fn pending_entry(waiter: u64) -> PendingEntry {
    PendingEntry {
        waiter,
        response_deadline: at(100 * SECOND),
    }
}

fn read_holding_registers(quantity: u16) -> ModbusRequest {
    ModbusRequest::ReadHoldingRegisters {
        starting_address: 0,
        quantity,
    }
}

fn request_command(quantity: u16, waiter: u64, queue_deadline: Instant) -> RequestCommand {
    RequestCommand {
        unit_id: 1,
        pdu: read_holding_registers(quantity),
        waiter,
        queue_deadline,
    }
}

fn answers(actions: &[Action]) -> Vec<(u64, Result<Vec<u8>, ModbusError>)> {
    actions
        .iter()
        .filter_map(|action| match action {
            Action::Answer { waiter, outcome } => Some((*waiter, outcome.clone())),
            _ => None,
        })
        .collect()
}

#[test]
fn allocate_tid_wraps_from_max_to_zero() {
    let mut actor = actor_with_seed(u16::MAX);

    assert_eq!(actor.allocate_tid(at(0)).unwrap(), u16::MAX);
    assert_eq!(actor.allocate_tid(at(0)).unwrap(), 0);
}

#[test]
fn allocate_tid_reports_no_free_transaction_id_after_probe_limit() {
    let mut actor = actor_with_seed(0);

    for tid in 0..=u16::MAX {
        actor.pending.insert(tid, pending_entry(u64::from(tid)));
    }

    assert!(matches!(
        actor.allocate_tid(at(0)),
        Err(ModbusError::NoFreeTransactionId)
    ));
}

#[test]
fn allocate_tid_skips_quarantined_and_reclaims_aged_entries() {
    let now = at(10 * SECOND);
    let mut actor = actor_with_seed(5);
    actor.quarantined.insert(5, at(11 * SECOND));

    assert_eq!(actor.allocate_tid(now).unwrap(), 6);

    actor.next_tid = 7;
    actor.quarantined.insert(7, at(10 * SECOND - 1_000_000));

    assert_eq!(actor.allocate_tid(now).unwrap(), 7);
    assert!(!actor.quarantined.contains_key(&7));
}

#[test]
fn route_frame_discards_late_quarantined_response() {
    let mut actor = actor_with_seed(0);
    actor.quarantined.insert(42, at(SECOND));
    let frame = build_modbus_tcp_adu_from_pdu_bytes(42, 1, &[0x03, 0x00]).unwrap();

    let actions = actor.route_frame(frame);

    assert!(actions.is_empty());
    assert!(!actor.quarantined.contains_key(&42));
    assert!(actor.pending.is_empty());
}

#[test]
fn handle_deadlines_quarantines_timeout_without_tearing_down_socket() {
    let now = at(50 * SECOND);
    let mut actor = connected_actor();
    actor.pending.insert(
        1,
        PendingEntry {
            waiter: 10,
            response_deadline: at(50 * SECOND - 1_000_000),
        },
    );
    actor.pending.insert(2, pending_entry(20));

    let actions = actor.handle_deadlines(now, &[]);

    assert!(actor.status.connected);
    assert!(actor.pending.contains_key(&2));
    assert!(!actor.pending.contains_key(&1));
    assert!(actor.quarantined.contains_key(&1));
    assert_eq!(actor.quarantined[&1], at(60 * SECOND));
    assert_eq!(actions.len(), 1);
    assert_eq!(
        answers(&actions),
        vec![(10, Err(ModbusError::ReadTimeout))]
    );
}

#[test]
fn next_cancelled_tid_frees_slot_and_quarantines_tid() {
    let mut actor = actor_with_seed(0);
    actor.flow = ModbusTcpFlowControl::serial_gateway();
    actor.pending.insert(10, pending_entry(7));
    assert!(!actor.window_has_room());

    let tid = actor.cancelled_tid(&[7]).unwrap();
    actor.cancel_in_flight(tid, at(0));

    assert_eq!(tid, 10);
    assert!(actor.pending.is_empty());
    assert!(actor.quarantined.contains_key(&10));
    assert!(actor.pending.len() < actor.flow.max_in_flight);
    assert!(actor.window_has_room());
}

#[test]
fn fail_backlog_drains_queued_requests_after_connect_failure() {
    let actor = actor_with_seed(0);
    let backlog = vec![
        request_command(1, 11, at(SECOND)),
        request_command(1, 12, at(SECOND)),
    ];

    let actions = actor.fail_backlog(&backlog, &ModbusError::ConnectTimeout);

    assert_eq!(
        answers(&actions),
        vec![
            (11, Err(ModbusError::ConnectTimeout)),
            (12, Err(ModbusError::ConnectTimeout)),
        ]
    );
}

#[test]
fn connect_failure_fails_the_request_and_its_backlog() {
    let mut actor = actor_with_seed(0);

    let action = actor.dispatch(request_command(1, 11, at(SECOND)), at(0));
    let dialing = match action {
        Action::Dial(dialing) => dialing,
        other => panic!("expected Dial, got {other:?}"),
    };
    let actions = actor.dialed(dialing, Err(ModbusError::ConnectTimeout), at(1));

    assert_eq!(actions.len(), 2);
    assert_eq!(
        answers(&actions),
        vec![(11, Err(ModbusError::ConnectTimeout))]
    );
    match &actions[1] {
        Action::FailBacklog(error) => assert_eq!(*error, ModbusError::ConnectTimeout),
        other => panic!("expected FailBacklog, got {other:?}"),
    }
    assert_eq!(actor.status, ConnectionStatus::disconnected());
    assert_eq!(actor.next_tid, 0);
}

#[test]
fn teardown_preserves_malformed_response_for_pending_waiters() {
    let mut actor = actor_with_seed(0);
    actor.pending.insert(1, pending_entry(5));

    let actions = actor.teardown(Some(ModbusError::MalformedResponse(
        "invalid MBAP length".to_string(),
    )));

    assert_eq!(
        answers(&actions),
        vec![(
            5,
            Err(ModbusError::MalformedResponse(
                "invalid MBAP length".to_string()
            ))
        )]
    );
}

#[test]
fn teardown_without_a_reason_reports_a_closed_connection() {
    let mut actor = connected_actor();
    actor.pending.insert(1, pending_entry(5));
    actor.pending.insert(2, pending_entry(6));

    let actions = actor.teardown(None);

    assert!(matches!(actions[0], Action::CloseSocket));
    assert!(matches!(
        actions[1],
        Action::Publish(ConnectionStatus {
            connected: false,
            generation: 1
        })
    ));
    let mut told = answers(&actions);
    told.sort_by_key(|(waiter, _)| *waiter);
    assert_eq!(
        told,
        vec![
            (5, Err(default_teardown_error())),
            (6, Err(default_teardown_error())),
        ]
    );
    assert_eq!(actions.len(), 4);
}

#[test]
fn sink_io_errors_are_classified_as_write_errors() {
    let error = write_error_from_sink(MbapCodecError::Io(IoError::new(
        IoErrorKind::BrokenPipe,
        "broken pipe",
    )));

    assert!(matches!(
        error,
        ModbusError::WriteError(error) if error.kind() == IoErrorKind::BrokenPipe
    ));
}

#[test]
fn dispatch_with_expired_deadline_replies_queue_timeout() {
    let mut actor = actor_with_seed(0);

    let action = actor.dispatch(request_command(1, 3, at(SECOND)), at(SECOND));

    assert_eq!(
        answers(&[action]),
        vec![(3, Err(ModbusError::QueueTimeout))]
    );
    assert!(actor.pending.is_empty());
    assert!(!actor.status.connected);
    assert_eq!(actor.next_tid, 0);
}

#[test]
fn request_that_waited_too_long_for_the_connection_times_out() {
    let mut actor = actor_with_seed(0);

    let dialing = match actor.dispatch(request_command(1, 3, at(SECOND)), at(0)) {
        Action::Dial(dialing) => dialing,
        other => panic!("expected Dial, got {other:?}"),
    };
    let actions = actor.dialed(dialing, Ok(()), at(SECOND));

    assert_eq!(actions.len(), 2);
    assert!(matches!(
        actions[0],
        Action::Publish(ConnectionStatus {
            connected: true,
            generation: 1
        })
    ));
    assert_eq!(
        answers(&actions),
        vec![(3, Err(ModbusError::QueueTimeout))]
    );
}

#[test]
fn ensure_connected_with_existing_socket_is_ok() {
    let mut actor = connected_actor();

    assert!(!actor.needs_connection());
    let actions = actor.control(ControlCommand::Connect { ack: 8 });

    assert_eq!(actions.len(), 1);
    assert!(matches!(
        actions[0],
        Action::AcknowledgeConnect {
            ack: 8,
            result: Ok(())
        }
    ));
    assert_eq!(actor.status.generation, 1);
}

#[test]
fn dispatch_without_free_tid_replies_no_free_transaction_id() {
    let mut actor = connected_actor();
    for tid in 0..=u16::MAX {
        actor.pending.insert(tid, pending_entry(u64::from(tid)));
    }

    let action = actor.dispatch(request_command(1, 70_000, at(SECOND)), at(0));

    assert_eq!(
        answers(&[action]),
        vec![(70_000, Err(ModbusError::NoFreeTransactionId))]
    );
    assert_eq!(actor.pending.len(), 65_536);
}

#[test]
fn dispatch_with_invalid_pdu_replies_validation_error() {
    let mut actor = connected_actor();

    let action = actor.dispatch(request_command(0, 4, at(SECOND)), at(0));

    assert_eq!(
        answers(&[action]),
        vec![(
            4,
            Err(ModbusError::ValidationError(
                "ReadHoldingRegisters quantity must be 1-125, got 0".to_string()
            ))
        )]
    );
    assert!(actor.pending.is_empty());
}

#[test]
fn write_on_wire_without_socket_replies_not_connected() {
    let mut actor = actor_with_seed(0);

    let action = actor.write_on_wire(request_command(1, 4, at(SECOND)), at(0));

    match &answers(&[action])[..] {
        [(4, Err(ModbusError::ReadError(error)))] => {
            assert_eq!(error.kind(), IoErrorKind::NotConnected);
            assert_eq!(error.to_string(), "connection not open");
        }
        other => panic!("expected NotConnected, got {other:?}"),
    }
}

#[test]
fn sink_modbus_write_error_is_preserved_as_write_error() {
    let error = write_error_from_sink(MbapCodecError::Modbus(ModbusError::WriteError(Arc::new(
        IoError::new(IoErrorKind::BrokenPipe, "broken pipe"),
    ))));

    assert!(matches!(
        error,
        ModbusError::WriteError(error) if error.kind() == IoErrorKind::BrokenPipe
    ));
}

#[test]
fn sink_other_modbus_error_is_wrapped_as_write_error() {
    let error = write_error_from_sink(MbapCodecError::Modbus(ModbusError::ValidationError(
        "bad frame".to_string(),
    )));

    assert!(matches!(error, ModbusError::WriteError(_)));
}

#[test]
fn wrapped_sink_error_keeps_its_message() {
    let error = write_error_from_sink(MbapCodecError::Modbus(ModbusError::ValidationError(
        "bad frame".to_string(),
    )));

    match error {
        ModbusError::WriteError(error) => {
            assert_eq!(error.kind(), IoErrorKind::Other);
            assert_eq!(error.to_string(), "Validation error: bad frame");
        }
        other => panic!("expected WriteError, got {other:?}"),
    }
}

#[test]
fn stream_errors_are_classified() {
    let error = read_error_from_stream(MbapCodecError::Io(IoError::new(
        IoErrorKind::ConnectionReset,
        "reset",
    )));
    assert!(matches!(
        error,
        ModbusError::ReadError(error) if error.kind() == IoErrorKind::ConnectionReset
    ));

    let error = read_error_from_stream(MbapCodecError::Modbus(ModbusError::MalformedResponse(
        "short".to_string(),
    )));
    assert_eq!(error, ModbusError::MalformedResponse("short".to_string()));
}

fn assert_next_request_reconnects(actor: &mut Actor) {
    let dialing = match actor.dispatch(request_command(1, 500, at(200 * SECOND)), at(0)) {
        Action::Dial(dialing) => dialing,
        other => panic!("expected Dial, got {other:?}"),
    };
    let mut actions = actor.dialed(dialing, Ok(()), at(0));
    let (tid, waiter) = match actions.pop() {
        Some(Action::Send { tid, waiter, .. }) => (tid, waiter),
        other => panic!("expected Send, got {other:?}"),
    };
    assert!(actor.sent(tid, waiter, WriteOutcome::Written, at(0)).is_empty());
    let frame = build_modbus_tcp_adu_from_pdu_bytes(tid, 1, &[0x03, 0x02, 0x00, 0x01]).unwrap();

    let actions = actor.handle(Event::Frame(frame.clone()), at(1), &[]);

    assert_eq!(answers(&actions), vec![(500, Ok(frame))]);
    assert!(actor.status.connected);
}

#[test]
fn dispatch_write_error_replies_and_tears_down() {
    let mut actor = connected_actor();
    actor.pending.insert(99, pending_entry(990));

    let (tid, waiter) = match actor.dispatch(request_command(1, 4, at(SECOND)), at(0)) {
        Action::Send { tid, waiter, .. } => (tid, waiter),
        other => panic!("expected Send, got {other:?}"),
    };
    let actions = actor.sent(
        tid,
        waiter,
        WriteOutcome::Failed(MbapCodecError::Io(IoError::new(
            IoErrorKind::ConnectionReset,
            "reset",
        ))),
        at(1),
    );

    let told = answers(&actions);
    assert_eq!(told.len(), 2);
    assert!(matches!(&told[0], (4, Err(ModbusError::WriteError(_)))));
    assert!(matches!(
        &told[1],
        (990, Err(ModbusError::ReadError(error))) if error.kind() == IoErrorKind::ConnectionAborted
    ));
    assert!(actor.pending.is_empty());
    assert!(!actor.status.connected);

    assert_next_request_reconnects(&mut actor);
    assert_eq!(actor.status.generation, 2);
}

#[test]
fn dispatch_write_timeout_replies_and_tears_down() {
    let mut actor = connected_actor();
    actor.pending.insert(99, pending_entry(990));

    let (tid, waiter) = match actor.dispatch(request_command(1, 4, at(SECOND)), at(0)) {
        Action::Send { tid, waiter, .. } => (tid, waiter),
        other => panic!("expected Send, got {other:?}"),
    };
    let actions = actor.sent(tid, waiter, WriteOutcome::TimedOut, at(1));

    let told = answers(&actions);
    assert_eq!(told[0], (4, Err(ModbusError::WriteTimeout)));
    assert!(matches!(
        &told[1],
        (990, Err(ModbusError::ReadError(error))) if error.kind() == IoErrorKind::ConnectionAborted
    ));
    assert!(actor.pending.is_empty());
    assert!(!actor.status.connected);

    assert_next_request_reconnects(&mut actor);
}

#[test]
fn written_request_is_pending_until_its_deadline() {
    let mut actor = connected_actor();

    let action = actor.dispatch(request_command(2, 4, at(SECOND)), at(0));
    let (tid, waiter, adu) = match action {
        Action::Send { tid, waiter, adu } => (tid, waiter, adu),
        other => panic!("expected Send, got {other:?}"),
    };
    assert_eq!(tid, 0);
    assert_eq!(
        adu,
        vec![0x00, 0x00, 0x00, 0x00, 0x00, 0x06, 0x01, 0x03, 0x00, 0x00, 0x00, 0x02]
    );
    let actions = actor.sent(tid, waiter, WriteOutcome::Written, at(2 * SECOND));

    assert!(actions.is_empty());
    assert_eq!(
        actor.pending[&0],
        PendingEntry {
            waiter: 4,
            response_deadline: at(7 * SECOND),
        }
    );
    assert_eq!(actor.next_tid, 1);
}

#[test]
fn next_step_follows_the_state() {
    let mut actor = actor_with_seed(0);
    assert_eq!(
        actor.next_step(at(0), &[]),
        Step::Wait {
            control: true,
            requests: true,
            frames: false,
            wake: None,
        }
    );

    let _ = actor.handle(Event::ControlClosed, at(0), &[]);
    let _ = actor.handle(Event::RequestsClosed, at(0), &[]);
    actor.pending.insert(3, pending_entry(30));
    assert_eq!(
        actor.next_step(at(0), &[]),
        Step::Wait {
            control: false,
            requests: false,
            frames: false,
            wake: Some(at(10_000_000)),
        }
    );
    assert_eq!(actor.next_step(at(0), &[30]), Step::Cancel(3));

    actor.cancel_in_flight(3, at(0));
    assert_eq!(actor.next_step(at(0), &[30]), Step::Stop);
    assert!(actor.is_finished());
}

#[test]
fn earliest_wake_is_the_least_deadline() {
    let mut actor = actor_with_seed(0);
    assert_eq!(actor.earliest_wake(at(5)), None);

    actor.quarantined.insert(1, at(9 * SECOND));
    actor.quarantined.insert(2, at(7 * SECOND));
    assert_eq!(actor.earliest_wake(at(5)), Some(at(7 * SECOND)));

    actor.pending.insert(
        3,
        PendingEntry {
            waiter: 1,
            response_deadline: at(6),
        },
    );
    assert_eq!(actor.earliest_wake(at(5)), Some(at(6)));
}

#[test]
fn peer_that_closes_fails_the_pending_requests() {
    let mut actor = connected_actor();
    actor.pending.insert(1, pending_entry(5));

    let actions = actor.handle(Event::StreamEnded, at(0), &[]);

    match &answers(&actions)[..] {
        [(5, Err(ModbusError::ReadError(error)))] => {
            assert_eq!(error.kind(), IoErrorKind::UnexpectedEof);
            assert_eq!(error.to_string(), "peer closed connection");
        }
        other => panic!("expected UnexpectedEof, got {other:?}"),
    }
    assert!(!actor.status.connected);
}

#[test]
fn cancelled_requests_are_swept_without_an_answer() {
    let mut actor = connected_actor();
    actor.pending.insert(
        1,
        PendingEntry {
            waiter: 5,
            response_deadline: at(1),
        },
    );
    actor.pending.insert(2, pending_entry(6));

    let actions = actor.handle(Event::Woken, at(2), &[5, 6]);

    assert!(actions.is_empty());
    assert!(actor.pending.is_empty());
    assert_eq!(actor.quarantined.len(), 2);
}

#[test]
fn aged_reservations_are_reclaimed() {
    let mut actor = actor_with_seed(0);
    actor.quarantined.insert(1, at(10));
    actor.quarantined.insert(2, at(11));

    actor.reclaim_quarantine(at(10));

    assert!(!actor.quarantined.contains_key(&1));
    assert!(actor.quarantined.contains_key(&2));
}

#[test]
fn second_disconnect_publishes_nothing() {
    let mut actor = connected_actor();

    let first = actor.control(ControlCommand::Disconnect { ack: 2 });
    let second = actor.control(ControlCommand::Disconnect { ack: 3 });

    assert_eq!(first.len(), 3);
    assert!(matches!(first[2], Action::AcknowledgeDisconnect { ack: 2 }));
    assert_eq!(second.len(), 1);
    assert!(matches!(second[0], Action::AcknowledgeDisconnect { ack: 3 }));
}

#[test]
fn window_is_closed_while_requests_fill_it() {
    let mut actor = connected_actor();
    actor.flow.max_in_flight = 2;
    actor.pending.insert(1, pending_entry(5));
    assert!(actor.window_has_room());
    actor.pending.insert(2, pending_entry(6));
    assert!(!actor.window_has_room());
    let frame = build_modbus_tcp_adu_from_pdu_bytes(1, 1, &[0x03]).unwrap();
    let _ = actor.route_frame(frame);
    assert!(actor.window_has_room());
}

#[test]
fn control_channel_is_small() {
    assert_eq!(control_channel_capacity(), 8);
}

#[test]
fn never_more_requests_on_the_wire_than_allowed() {
    let mut actor = connected_actor();
    actor.flow.max_in_flight = 2;
    let mut queue: Vec<u64> = (0..5).collect();
    let mut answered = 0;

    let _ = actor.handle(Event::ControlClosed, at(0), &[]);
    while let Step::Wait { requests, .. } = actor.next_step(at(0), &[]) {
        if !requests {
            let tid = *actor.pending.keys().next().unwrap();
            let frame = build_modbus_tcp_adu_from_pdu_bytes(tid, 1, &[0x03, 0x02, 0, 1]).unwrap();
            answered += answers(&actor.handle(Event::Frame(frame), at(0), &[])).len();
        } else if let Some(waiter) = queue.pop() {
            let mut actions = actor.handle(
                Event::Request(request_command(1, waiter, at(SECOND))),
                at(0),
                &[],
            );
            match actions.pop() {
                Some(Action::Send { tid, waiter, .. }) => {
                    let _ = actor.sent(tid, waiter, WriteOutcome::Written, at(0));
                }
                other => panic!("expected Send, got {other:?}"),
            }
        } else {
            let _ = actor.handle(Event::RequestsClosed, at(0), &[]);
        }
        assert!(actor.pending.len() <= 2);
    }

    assert_eq!(answered, 5);
    assert!(actor.pending.is_empty());
}

#[test]
fn reserved_id_is_skipped_until_its_reservation_ends() {
    let mut actor = connected_actor();
    actor.pending.insert(7, pending_entry(70));
    actor.cancel_in_flight(7, at(0));

    actor.next_tid = 7;
    assert_eq!(actor.allocate_tid(at(10 * SECOND - 1)).unwrap(), 8);
    let _ = actor.teardown(None);
    assert!(actor.quarantined.contains_key(&7));
    let _ = actor.handle(Event::Woken, at(10 * SECOND - 1), &[]);
    assert_eq!(actor.quarantined[&7], at(10 * SECOND));

    actor.next_tid = 7;
    assert_eq!(actor.allocate_tid(at(10 * SECOND)).unwrap(), 7);
}
