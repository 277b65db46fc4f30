//! Settings of a connection handle, and what it makes of requests and answers.

use std::sync::Arc;

use vstd::prelude::*;
use vstd::slice::slice_subrange;

use crate::big_endian::{self, word_of_be};
use crate::error::{ErrorView, IoError, IoErrorKind, IoErrorView, ModbusError};
use crate::request::{ModbusRequest, RequestView};
use crate::response::{self, ModbusResponse, ResponseView};
use crate::tcp::actor::{self, CommandView, RequestCommand};
use crate::tcp::frame::MBAP_HEADER_LEN;
use crate::tcp::retry::{BackoffPlan, ModbusTcpRetry};
use crate::text::{self, push_decimal};
use crate::time::{Duration, Instant};

verus! {

/// Settings of a live Modbus TCP client handle.
///
/// Handles are lightweight: many of them may share one actor. Use
/// [`Self::with_unit_id`] to derive another handle that shares the same actor
/// with a different default unit id.
#[derive(Clone, Copy, Debug)]
pub struct ModbusTcpConnection {
    /// Default unit id.
    pub unit_id: u8,
    /// Time that a request may wait before it reaches the wire.
    pub queue_timeout: Duration,
    /// Retry policy, if any.
    pub retry: Option<ModbusTcpRetry>,
}

/// The error of callers whose actor is gone.
pub open spec fn actor_terminated() -> ErrorView {
    ErrorView::ReadError(
        IoErrorView::new(IoErrorKind::ConnectionAborted, "reader task terminated"@),
    )
}

/// The error of callers whose actor is gone.
pub fn actor_terminated_error() -> (error: ModbusError)
    ensures
        error@ == actor_terminated(),
{
    ModbusError::ReadError(
        Arc::new(IoError::new(IoErrorKind::ConnectionAborted, "reader task terminated")),
    )
}

/// What the frame `frame` says to the request `pdu` for the unit `unit_id`.
///
/// The frame has a whole header, the protocol identifier of Modbus, the unit of the
/// request, and a PDU that is a response to the request. An exception response
/// becomes an error.
pub open spec fn understood(unit_id: u8, pdu: RequestView, frame: Seq<u8>) -> Result<
    ResponseView,
    ErrorView,
> {
    if frame.len() < MBAP_HEADER_LEN {
        Err(
            ErrorView::MalformedResponse(
                "Modbus TCP frame shorter than MBAP header: "@ + text::decimal(frame.len())
                    + " < "@ + text::decimal(MBAP_HEADER_LEN as nat),
            ),
        )
    } else if big_endian::be_word(frame[2], frame[3]) != 0 {
        Err(ErrorView::ProtocolIdMismatch { actual: big_endian::be_word(frame[2], frame[3]) })
    } else if frame[6] != unit_id {
        Err(ErrorView::UnitIdMismatch { expected: unit_id, actual: frame[6] })
    } else {
        match response::decoded(frame.skip(MBAP_HEADER_LEN as int), None) {
            Ok(ResponseView::Exception { function, code }) => Err(
                ErrorView::ExceptionResponse { function, code },
            ),
            Ok(response) => response::aligned(pdu, response),
            Err(e) => Err(e),
        }
    }
}

/// What a caller learns, where `reply` is the answer to its request, or `None` if
/// the actor went away without one.
pub open spec fn send_outcome(
    unit_id: u8,
    pdu: RequestView,
    reply: Option<Result<Seq<u8>, ErrorView>>,
) -> Result<ResponseView, ErrorView> {
    match reply {
        Some(Ok(frame)) => understood(unit_id, pdu, frame),
        Some(Err(error)) => Err(error),
        None => Err(actor_terminated()),
    }
}

/// Model of the answer that a caller got.
pub open spec fn reply_view(reply: Option<Result<Vec<u8>, ModbusError>>) -> Option<
    Result<Seq<u8>, ErrorView>,
> {
    match reply {
        Some(outcome) => Some(actor::answer(outcome)),
        None => None,
    }
}

/// Checks a response frame against the request that it answers, and decodes it.
///
/// # Errors
///
/// Returns [`ModbusError::MalformedResponse`] for a frame shorter than its header,
/// [`ModbusError::ProtocolIdMismatch`] and [`ModbusError::UnitIdMismatch`] for a
/// foreign frame, [`ModbusError::DeserializationError`] for a PDU that is no
/// response, [`ModbusError::ExceptionResponse`] for an exception, and
/// [`ModbusError::RequestResponseMismatch`] for the response to another request.
pub fn interpret_frame(unit_id: u8, pdu: &ModbusRequest, frame: &[u8]) -> (result: Result<
    ModbusResponse,
    ModbusError,
>)
    ensures
        response::outcome(result) == understood(unit_id, pdu@, frame@),
{
    if frame.len() < MBAP_HEADER_LEN {
        let mut message = "Modbus TCP frame shorter than MBAP header: ".to_owned();
        push_decimal(&mut message, frame.len() as u64);
        message.append(" < ");
        push_decimal(&mut message, MBAP_HEADER_LEN as u64);
        return Err(ModbusError::MalformedResponse(message));
    }
    let protocol_id: u16 = word_of_be(frame[2], frame[3]);
    if protocol_id != 0 {
        return Err(ModbusError::ProtocolIdMismatch { actual: protocol_id });
    }
    let received_unit_id: u8 = frame[6];
    if received_unit_id != unit_id {
        return Err(ModbusError::UnitIdMismatch { expected: unit_id, actual: received_unit_id });
    }
    let pdu_bytes = slice_subrange(frame, MBAP_HEADER_LEN, frame.len());
    assert(pdu_bytes@ =~= frame@.skip(MBAP_HEADER_LEN as int));
    match ModbusResponse::try_from(pdu_bytes) {
        Ok(ModbusResponse::Exception { function, code }) => Err(
            ModbusError::ExceptionResponse { function, code },
        ),
        Ok(response) => response.align_to_request(pdu),
        Err(e) => Err(e),
    }
}

/// How an attempt to open a TCP stream ended.
#[derive(Debug)]
pub enum ConnectAttempt {
    /// The stream is open.
    Opened,
    /// The attempt failed.
    Failed(IoError),
    /// The connect timeout passed.
    TimedOut,
}

/// What an attempt to open a TCP stream means.
///
/// # Errors
///
/// Returns [`ModbusError::ConnectError`] for a failure, and
/// [`ModbusError::ConnectTimeout`] where it took too long.
pub fn connect_stream(attempt: ConnectAttempt) -> (result: Result<(), ModbusError>)
    ensures
        match attempt {
            ConnectAttempt::Opened => result is Ok,
            ConnectAttempt::Failed(error) => result matches Err(e) && e@
                == ErrorView::ConnectError(error@),
            ConnectAttempt::TimedOut => result matches Err(e) && e@ == ErrorView::ConnectTimeout,
        },
{
    match attempt {
        ConnectAttempt::Opened => Ok(()),
        ConnectAttempt::Failed(error) => Err(ModbusError::ConnectError(Arc::new(error))),
        ConnectAttempt::TimedOut => Err(ModbusError::ConnectTimeout),
    }
}

impl ModbusTcpConnection {
    /// What a caller learns of its connect command, where `reply` is the
    /// acknowledgement, or `None` if the actor went away without one.
    ///
    /// # Errors
    ///
    /// Returns the error that the actor acknowledged with, or that of an actor that is
    /// gone.
    pub fn connect(reply: Option<Result<(), ModbusError>>) -> (result: Result<(), ModbusError>)
        ensures
            actor::dial_result(result) == match reply {
                Some(acknowledged) => actor::dial_result(acknowledged),
                None => Err(actor_terminated()),
            },
    {
        match reply {
            Some(acknowledged) => acknowledged,
            None => Err(actor_terminated_error()),
        }
    }

    /// A handle with the given settings.
    pub fn from_actor_parts(
        unit_id: u8,
        queue_timeout: Duration,
        retry: Option<ModbusTcpRetry>,
    ) -> (connection: ModbusTcpConnection)
        ensures
            connection == (ModbusTcpConnection { unit_id, queue_timeout, retry }),
    {
        ModbusTcpConnection { unit_id, queue_timeout, retry }
    }

    /// Returns a new handle with a different default unit id.
    ///
    /// The returned handle keeps the queue timeout and the retry policy.
    #[must_use]
    pub fn with_unit_id(&self, unit_id: u8) -> (connection: ModbusTcpConnection)
        ensures
            connection == (ModbusTcpConnection { unit_id, ..*self }),
    {
        ModbusTcpConnection { unit_id, queue_timeout: self.queue_timeout, retry: self.retry }
    }

    /// The command by which a request is handed to the actor. Its queue deadline is
    /// the queue timeout after now.
    pub fn request_command(
        &self,
        unit_id: u8,
        pdu: &ModbusRequest,
        waiter: u64,
        now: Instant,
    ) -> (command: RequestCommand)
        requires
            now.can_add(self.queue_timeout),
        ensures
            command@ == (CommandView {
                unit_id,
                pdu: pdu@,
                waiter,
                queue_deadline: now.spec_plus(self.queue_timeout),
            }),
    {
        RequestCommand {
            unit_id,
            pdu: pdu.clone(),
            waiter,
            queue_deadline: now.plus(self.queue_timeout),
        }
    }

    /// What a caller learns, where `reply` is the answer to its request, or `None` if
    /// the actor went away without one.
    ///
    /// # Errors
    ///
    /// Returns the error that the actor answered with, that of an actor that is gone,
    /// or one of [`interpret_frame`].
    pub fn send_once(
        &self,
        unit_id: u8,
        pdu: &ModbusRequest,
        reply: Option<Result<Vec<u8>, ModbusError>>,
    ) -> (result: Result<ModbusResponse, ModbusError>)
        ensures
            response::outcome(result) == send_outcome(unit_id, pdu@, reply_view(reply)),
    {
        match reply {
            Some(Ok(frame)) => interpret_frame(unit_id, pdu, &frame),
            Some(Err(error)) => Err(error),
            None => Err(actor_terminated_error()),
        }
    }

    /// The delays between the attempts of one send call: `None` for a single attempt.
    ///
    /// # Errors
    ///
    /// Returns [`ModbusError::ValidationError`] when the retry policy is not valid;
    /// the request is then not sent at all.
    pub fn send_plan(&self) -> (result: Result<Option<BackoffPlan>, ModbusError>)
        ensures
            match self.retry {
                None => result == Ok::<Option<BackoffPlan>, ModbusError>(None),
                Some(retry) => match retry.problem() {
                    None => result == Ok::<Option<BackoffPlan>, ModbusError>(Some(retry.plan())),
                    Some(message) => result matches Err(e) && e@ == ErrorView::ValidationError(
                        message,
                    ),
                },
            },
    {
        match self.retry {
            None => Ok(None),
            Some(retry) => match retry.to_backoff() {
                Ok(plan) => Ok(Some(plan)),
                Err(e) => Err(e),
            },
        }
    }

    /// Whether a send call tries again after `error`.
    pub fn tries_again(&self, error: &ModbusError) -> (again: bool)
        ensures
            again == (self.retry matches Some(retry) && retry.retries(error@)),
    {
        match self.retry {
            None => false,
            Some(retry) => retry.should_retry(error),
        }
    }
}

/// What a frame says to a request, byte by byte. It needs a whole header of seven bytes,
/// the protocol identifier zero and the unit of the request. What follows the header is
/// decoded; an exception becomes an error with its function and code, and every other
/// response has to belong to the request.
pub proof fn frames_are_understood_byte_by_byte(unit_id: u8, pdu: RequestView, frame: Seq<u8>)
    ensures
        frame.len() < 7 ==> understood(unit_id, pdu, frame) == Err::<ResponseView, ErrorView>(
            ErrorView::MalformedResponse(
                "Modbus TCP frame shorter than MBAP header: "@ + text::decimal(frame.len())
                    + " < "@ + text::decimal(7),
            ),
        ),
        frame.len() >= 7 ==> {
            let protocol_id = 256 * frame[2] + frame[3];
            let decoded = response::decoded(frame.skip(7), None);
            &&& protocol_id != 0 ==> {
                &&& understood(unit_id, pdu, frame) matches Err(ErrorView::ProtocolIdMismatch {
                    actual,
                })
                &&& actual == protocol_id
            }
            &&& protocol_id == 0 && frame[6] != unit_id ==> understood(unit_id, pdu, frame)
                == Err::<ResponseView, ErrorView>(
                ErrorView::UnitIdMismatch { expected: unit_id, actual: frame[6] },
            )
            &&& protocol_id == 0 && frame[6] == unit_id ==> match decoded {
                Err(e) => understood(unit_id, pdu, frame) == Err::<ResponseView, ErrorView>(e),
                Ok(ResponseView::Exception { function, code }) => understood(unit_id, pdu, frame)
                    == Err::<ResponseView, ErrorView>(
                    ErrorView::ExceptionResponse { function, code },
                ),
                Ok(response) => understood(unit_id, pdu, frame) == response::aligned(pdu, response),
            }
        },
{
}

/// A caller learns what its frame says, the very error that it was answered with, or
/// that the actor is gone; the last of these it may try again.
pub proof fn callers_learn_what_was_answered(
    unit_id: u8,
    pdu: RequestView,
    frame: Seq<u8>,
    error: ErrorView,
)
    ensures
        send_outcome(unit_id, pdu, Some(Ok(frame))) == understood(unit_id, pdu, frame),
        send_outcome(unit_id, pdu, Some(Err(error))) == Err::<ResponseView, ErrorView>(error),
        send_outcome(unit_id, pdu, None) matches Err(ErrorView::ReadError(e)) && e.kind
            == IoErrorKind::ConnectionAborted && e.message == "reader task terminated"@
            && e.raw_os_error is None,
{
}

/// The model of a reply shows all of it.
pub proof fn reply_model_is_complete(frame: Vec<u8>, error: ModbusError)
    ensures
        reply_view(None) is None,
        reply_view(Some(Ok(frame))) == Some(Ok::<Seq<u8>, ErrorView>(frame@)),
        reply_view(Some(Err(error))) == Some(Err::<Seq<u8>, ErrorView>(error@)),
{
}

} // verus!
