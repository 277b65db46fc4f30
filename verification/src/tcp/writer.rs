//! What follows an attempt to write one frame as a whole.

use std::sync::Arc;

use vstd::prelude::*;

use crate::error::{ErrorView, IoError, IoErrorKind, IoErrorView, ModbusError};

verus! {

/// How an attempt to write a frame ended.
#[derive(Debug)]
pub enum WriteAttempt {
    /// The socket took and flushed the frame, or failed.
    Finished(Result<(), IoError>),
    /// The write timeout passed.
    TimedOut,
    /// The task that writes failed, with this message.
    TaskFailed(String),
}

/// What an attempt to write a frame means.
pub open spec fn attempt_error(attempt: WriteAttempt) -> Option<ErrorView> {
    match attempt {
        WriteAttempt::Finished(Ok(())) => None,
        WriteAttempt::Finished(Err(error)) => Some(ErrorView::WriteError(error@)),
        WriteAttempt::TimedOut => Some(ErrorView::WriteTimeout),
        WriteAttempt::TaskFailed(message) => Some(
            ErrorView::WriteError(
                IoErrorView::new(IoErrorKind::Other, "writer task failed: "@ + message@),
            ),
        ),
    }
}

/// What the caller of a write learns, and the connection generation that has to be
/// invalidated: that of the write, where it failed in any way.
///
/// # Errors
///
/// Returns [`ModbusError::WriteError`] for socket failures or writer task
/// failures, and [`ModbusError::WriteTimeout`] when the operation took too long.
pub fn write_adu_cancellation_safe(attempt: WriteAttempt, generation: u64) -> (outcome: (
    Result<(), ModbusError>,
    Option<u64>,
))
    ensures
        match attempt_error(attempt) {
            None => outcome.0 is Ok && outcome.1 is None,
            Some(error) => outcome.0 matches Err(e) && e@ == error && outcome.1 == Some(generation),
        },
{
    match attempt {
        WriteAttempt::Finished(Ok(())) => (Ok(()), None),
        WriteAttempt::Finished(Err(error)) => (
            Err(ModbusError::WriteError(Arc::new(error))),
            Some(generation),
        ),
        WriteAttempt::TimedOut => (Err(ModbusError::WriteTimeout), Some(generation)),
        WriteAttempt::TaskFailed(message) => {
            let mut text = "writer task failed: ".to_owned();
            text.append(message.as_str());
            (
                Err(
                    ModbusError::WriteError(
                        Arc::new(IoError::with_message(IoErrorKind::Other, text)),
                    ),
                ),
                Some(generation),
            )
        },
    }
}

/// Every failed write is transient, so that it may be tried again on a fresh socket.
pub proof fn failed_writes_are_transient(attempt: WriteAttempt)
    ensures
        attempt_error(attempt) matches Some(error) ==> error.transient(),
{
}

/// A write that finished is no error. One that failed is told with the failure as it
/// is, one that took too long as such, and the failure of the task with its message.
pub proof fn write_attempts_are_told_as_they_ended(attempt: WriteAttempt)
    ensures
        match attempt {
            WriteAttempt::Finished(Ok(())) => attempt_error(attempt) is None,
            WriteAttempt::Finished(Err(error)) => {
                &&& attempt_error(attempt) matches Some(ErrorView::WriteError(told))
                &&& told.kind == error.kind
                &&& told.message == error.message@
                &&& told.raw_os_error == error.raw_os_error
            },
            WriteAttempt::TimedOut => attempt_error(attempt) == Some(ErrorView::WriteTimeout),
            WriteAttempt::TaskFailed(message) => {
                &&& attempt_error(attempt) matches Some(ErrorView::WriteError(told))
                &&& told.kind == IoErrorKind::Other
                &&& told.message == "writer task failed: "@ + message@
                &&& told.raw_os_error is None
            },
        },
{
}

} // verus!
