use std::collections::HashMap;

use ferrobus::error::{IoError, IoErrorKind};
use ferrobus::tcp::adu::build_modbus_tcp_adu_from_pdu_bytes;
use ferrobus::tcp::connected_state::{
    drain_pending, drop_state, reader_loop, state_text, ReaderEnd, ReaderState, ReaderStep,
};
use ferrobus::ModbusError;

#[test]
fn debug_reports_generation_and_reader_state() {
    let rendered = state_text(42, false);

    assert!(rendered.contains("generation: 42"));
    assert!(rendered.contains("reader_finished"));
    assert_eq!(
        rendered,
        "ConnectedState { generation: 42, reader_finished: false, .. }"
    );
}

#[test]
fn drain_pending_sends_error_to_waiters() {
    let mut pending = HashMap::new();
    pending.insert(1u16, 11u64);

    let failures = drain_pending(&mut pending, IoErrorKind::ConnectionReset, "boom");

    assert!(pending.is_empty());
    assert_eq!(failures.len(), 1);
    assert_eq!(failures[0].waiter, 11);
    match &failures[0].error {
        ModbusError::ReadError(io_error) => {
            assert_eq!(io_error.kind(), IoErrorKind::ConnectionReset);
            assert_eq!(io_error.to_string(), "boom");
        }
        other => panic!("expected ReadError, got {other:?}"),
    }
}

#[test]
fn run_reader_loop_rejects_malformed_header() {
    let mut reader = ReaderState::Header;
    let mut pending = HashMap::new();

    // MBAP length field of 0 is below the minimum because it omits the
    // required unit identifier byte.
    let step = reader.run_reader_loop(&mut pending, Ok(vec![0, 1, 0, 0, 0, 0, 1]));

    match step {
        ReaderStep::Stop(ModbusError::MalformedResponse(message)) => assert_eq!(
            message,
            "invalid MBAP header: Malformed response: Invalid MBAP length: missing unit identifier or PDU"
        ),
        other => panic!("expected MalformedResponse, got {other:?}"),
    }
}

#[test]
fn reader_loop_drains_pending_on_malformed_header() {
    let mut reader = ReaderState::Header;
    let mut pending = HashMap::new();
    pending.insert(7u16, 70u64);

    let step = reader.run_reader_loop(&mut pending, Ok(vec![0, 7, 0, 0, 0, 0, 1]));
    let error = match step {
        ReaderStep::Stop(error) => error,
        other => panic!("expected Stop, got {other:?}"),
    };
    let failures = reader_loop(&mut pending, ReaderEnd::Failed(error));

    assert!(pending.is_empty());
    assert_eq!(failures.len(), 1);
    assert_eq!(failures[0].waiter, 70);
    match &failures[0].error {
        ModbusError::ReadError(io_error) => {
            assert_eq!(io_error.kind(), IoErrorKind::InvalidData);
            assert_eq!(
                io_error.to_string(),
                "reader task received malformed response"
            );
        }
        other => panic!("expected ReadError(InvalidData), got {other:?}"),
    }
}

#[test]
fn frames_are_delivered_by_transaction_id() {
    let mut reader = ReaderState::Header;
    let mut pending = HashMap::new();
    pending.insert(5u16, 50u64);
    pending.insert(6u16, 60u64);
    let frame = build_modbus_tcp_adu_from_pdu_bytes(6, 1, &[0x03, 0x02, 0x00, 0x01]).unwrap();

    assert_eq!(reader.bytes_wanted(), 7);
    let step = reader.run_reader_loop(&mut pending, Ok(frame[..7].to_vec()));
    assert!(matches!(step, ReaderStep::ReadBody));
    assert_eq!(reader.bytes_wanted(), 4);
    let step = reader.run_reader_loop(&mut pending, Ok(frame[7..].to_vec()));

    match step {
        ReaderStep::Deliver {
            waiter,
            frame: delivered,
        } => {
            assert_eq!(waiter, 60);
            assert_eq!(delivered, frame);
        }
        other => panic!("expected Deliver, got {other:?}"),
    }
    assert_eq!(reader.bytes_wanted(), 7);
    assert!(pending.contains_key(&5));
    assert!(!pending.contains_key(&6));
}

#[test]
fn stray_frames_are_ignored_by_the_reader() {
    let mut reader = ReaderState::Header;
    let mut pending = HashMap::new();
    pending.insert(5u16, 50u64);
    let frame = build_modbus_tcp_adu_from_pdu_bytes(9, 1, &[0x03]).unwrap();

    let _ = reader.run_reader_loop(&mut pending, Ok(frame[..7].to_vec()));
    let step = reader.run_reader_loop(&mut pending, Ok(frame[7..].to_vec()));

    assert!(matches!(step, ReaderStep::Ignore));
    assert_eq!(pending.len(), 1);
}

#[test]
fn read_failures_stop_the_reader_and_keep_their_kind() {
    let mut reader = ReaderState::Header;
    let mut pending = HashMap::new();
    pending.insert(5u16, 50u64);

    let step = reader.run_reader_loop(
        &mut pending,
        Err(IoError::new(IoErrorKind::ConnectionReset, "reset")),
    );
    let error = match step {
        ReaderStep::Stop(error) => error,
        other => panic!("expected Stop, got {other:?}"),
    };
    assert_eq!(pending.len(), 1);
    let failures = reader_loop(&mut pending, ReaderEnd::Failed(error));

    match &failures[0].error {
        ModbusError::ReadError(io_error) => {
            assert_eq!(io_error.kind(), IoErrorKind::ConnectionReset);
            assert_eq!(io_error.to_string(), "reader task terminated");
        }
        other => panic!("expected ReadError, got {other:?}"),
    }
}

#[test]
fn other_ends_of_the_reader_are_reported_as_terminated() {
    for end in [
        ReaderEnd::Panicked,
        ReaderEnd::Failed(ModbusError::NoFreeTransactionId),
    ] {
        let mut pending = HashMap::new();
        pending.insert(5u16, 50u64);
        let failures = reader_loop(&mut pending, end);
        match &failures[0].error {
            ModbusError::ReadError(io_error) => {
                assert_eq!(io_error.kind(), IoErrorKind::Other);
                assert_eq!(io_error.to_string(), "reader task terminated");
            }
            other => panic!("expected ReadError, got {other:?}"),
        }
    }
}

#[test]
fn dropping_the_state_fails_every_waiter_once() {
    let mut pending = HashMap::new();
    for tid in 0..20u16 {
        pending.insert(tid, u64::from(tid) + 100);
    }

    let failures = drop_state(&mut pending);

    assert!(pending.is_empty());
    let mut waiters: Vec<u64> = failures.iter().map(|failure| failure.waiter).collect();
    waiters.sort_unstable();
    assert_eq!(waiters, (100..120).collect::<Vec<u64>>());
    for failure in failures {
        match failure.error {
            ModbusError::ReadError(io_error) => {
                assert_eq!(io_error.kind(), IoErrorKind::ConnectionAborted);
                assert_eq!(io_error.to_string(), "connection state replaced or dropped");
            }
            other => panic!("expected ReadError, got {other:?}"),
        }
    }
}
