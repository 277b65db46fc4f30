use ferrobus::error::{IoError, IoErrorKind};
use ferrobus::tcp::writer::{write_adu_cancellation_safe, WriteAttempt};
use ferrobus::ModbusError;

#[test]
fn finished_write_invalidates_nothing() {
    let (result, invalidated) = write_adu_cancellation_safe(WriteAttempt::Finished(Ok(())), 4);

    assert!(result.is_ok());
    assert_eq!(invalidated, None);
}

#[test]
fn failed_write_invalidates_its_generation() {
    let (result, invalidated) = write_adu_cancellation_safe(
        WriteAttempt::Finished(Err(IoError::new(IoErrorKind::BrokenPipe, "broken pipe"))),
        4,
    );

    match result {
        Err(ModbusError::WriteError(error)) => assert_eq!(error.kind(), IoErrorKind::BrokenPipe),
        other => panic!("expected WriteError, got {other:?}"),
    }
    assert_eq!(invalidated, Some(4));
}

#[test]
fn timed_out_write_invalidates_its_generation() {
    let (result, invalidated) = write_adu_cancellation_safe(WriteAttempt::TimedOut, 9);

    assert_eq!(result, Err(ModbusError::WriteTimeout));
    assert_eq!(invalidated, Some(9));
}

#[test]
fn failed_writer_task_is_a_write_error() {
    let (result, invalidated) =
        write_adu_cancellation_safe(WriteAttempt::TaskFailed("cancelled".to_string()), 2);

    match result {
        Err(ModbusError::WriteError(error)) => {
            assert_eq!(error.kind(), IoErrorKind::Other);
            assert_eq!(error.to_string(), "writer task failed: cancelled");
        }
        other => panic!("expected WriteError, got {other:?}"),
    }
    assert_eq!(invalidated, Some(2));
}
