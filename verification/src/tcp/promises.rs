//! What callers of the transport may rely on, in terms of what they hand in, what they
//! get back and what has changed.
//!
//! Each law of this module speaks of a call by its arguments and its result.

use std::collections::HashMap;

use vstd::prelude::*;

use crate::error::{ErrorView, IoError, IoErrorKind, ModbusError};
use crate::request::ModbusRequest;
use crate::response::{self, ModbusResponse};
use crate::tcp::actor::{
    self, Action, ActionView, Actor, ActorView, ControlCommand, Dialing, Event, RequestCommand,
    Step, WriteOutcome,
};
use crate::tcp::adu;
use crate::tcp::codec::{self, MbapCodec, MbapCodecError};
use crate::tcp::connected_state::{self, Failure, ReaderEnd, ReaderState, ReaderStep};
use crate::tcp::effects;
use crate::tcp::flow::ModbusTcpFlowControl;
use crate::tcp::frame;
use crate::tcp::pending::{self, PendingGuard};
use crate::tcp::retry::{BackoffPlan, ModbusTcpRetry};
use crate::tcp::socket::ModbusTcpSocket;
use crate::tcp::status::ConnectionStatus;
use crate::tcp::tcp_connection::{self, ConnectAttempt, ModbusTcpConnection};
use crate::tcp::timeouts::ModbusTcpTimeouts;
use crate::tcp::writer::{self, WriteAttempt};
use crate::time::{Duration, Instant};

verus! {

/// A header announces as many bytes as its length field counts, but for the unit
/// identifier, and is refused where no frame has that length.
pub proof fn headers_announce_their_bodies(header: [u8; 7], result: Result<usize, ModbusError>)
    requires
        call_ensures(frame::response_body_len_from_header, (header,), result),
    ensures
        result is Ok <==> 2 <= 256 * header@[4] + header@[5] <= 254,
        result matches Ok(len) ==> len + 1 == 256 * header@[4] + header@[5],
        result matches Err(e) ==> e is MalformedResponse,
{
    frame::lengths_count_from_the_unit_on(header@);
}

/// A frame is built around a PDU as long as the length field can hold the length. Its
/// fields lie in place, and the PDU follows as it is.
pub proof fn frames_are_built(
    transaction_id: u16,
    unit_id: u8,
    pdu: &[u8],
    result: Result<Vec<u8>, ModbusError>,
)
    requires
        pdu@.len() < usize::MAX,
        call_ensures(
            adu::build_modbus_tcp_adu_from_pdu_bytes,
            (transaction_id, unit_id, pdu),
            result,
        ),
    ensures
        result is Ok <==> pdu@.len() <= 65534,
        result matches Err(e) ==> e is ValidationError,
        result matches Ok(adu) ==> {
            &&& adu@.len() == 7 + pdu@.len()
            &&& 256 * adu@[0] + adu@[1] == transaction_id
            &&& 256 * adu@[2] + adu@[3] == 0
            &&& 256 * adu@[4] + adu@[5] == 1 + pdu@.len()
            &&& adu@[6] == unit_id
            &&& adu@.skip(7) == pdu@
        },
{
    if pdu@.len() <= 65534 {
        adu::frame_fields_lie_in_place(transaction_id, 0, unit_id, pdu@);
        assert(adu::framed(transaction_id, 0, unit_id, pdu@).skip(7) =~= pdu@);
    }
}

/// The frame of a request carries its PDU, as far as it can be encoded.
pub proof fn requests_are_framed(
    transaction_id: u16,
    unit_id: u8,
    request: ModbusRequest,
    result: Result<Vec<u8>, ModbusError>,
)
    requires
        call_ensures(adu::build_modbus_tcp_adu, (transaction_id, unit_id, &request), result),
    ensures
        result is Ok <==> request@.encoding_obstacle() is None,
        result matches Err(e) ==> e is ValidationError,
        result matches Ok(adu) ==> {
            &&& 256 * adu@[0] + adu@[1] == transaction_id
            &&& 256 * adu@[2] + adu@[3] == 0
            &&& 256 * adu@[4] + adu@[5] == adu@.len() - 6
            &&& adu@[6] == unit_id
            &&& adu@.skip(7) == request@.encoded()
        },
{
    if result is Ok {
        let pdu = request@.encoded();
        adu::frame_fields_lie_in_place(transaction_id, 0, unit_id, pdu);
        assert(adu::framed(transaction_id, 0, unit_id, pdu).skip(7) =~= pdu);
    }
}

/// A codec error is told with what it is about.
pub proof fn codec_errors_are_told(error: MbapCodecError, text: String)
    requires
        call_ensures(MbapCodecError::to_string, (&error,), text),
    ensures
        match error {
            MbapCodecError::Io(e) => text@ == "socket I/O error: "@ + e.message@,
            MbapCodecError::Modbus(e) => text@ == e@.text(),
        },
{
}

/// Flow control and retry policies are accepted where every field is one that can be
/// used, and refused as not valid otherwise. The delays are those of the policy.
pub proof fn settings_are_validated(
    flow: ModbusTcpFlowControl,
    retry: ModbusTcpRetry,
    flow_result: Result<(), ModbusError>,
    retry_result: Result<(), ModbusError>,
    delays: Result<BackoffPlan, ModbusError>,
)
    requires
        call_ensures(ModbusTcpFlowControl::validate, (&flow,), flow_result),
        call_ensures(ModbusTcpRetry::validate, (&retry,), retry_result),
        call_ensures(ModbusTcpRetry::to_backoff, (retry,), delays),
    ensures
        flow_result is Ok <==> flow.max_in_flight >= 1 && flow.max_queue_depth >= 1
            && flow.queue_timeout.nanos >= 1 && flow.quarantine_ttl.nanos >= 1,
        flow_result matches Err(e) ==> e is ValidationError,
        retry_result is Ok <==> {
            &&& retry.initial_delay.nanos > 0
            &&& retry.max_delay matches Some(max) ==> max.nanos >= retry.initial_delay.nanos
            &&& 0x3F80_0000 <= retry.multiplier.bits < 0x7F80_0000
            &&& retry.max_elapsed.nanos >= retry.initial_delay.nanos
            &&& retry.max_times matches Some(times) ==> times >= 1
        },
        retry_result matches Err(e) ==> e is ValidationError,
        delays is Ok <==> retry_result is Ok,
        delays matches Err(e) ==> e is ValidationError,
        delays matches Ok(plan) ==> {
            &&& plan.min_delay == retry.initial_delay
            &&& plan.factor.bits == retry.multiplier.bits
            &&& plan.max_delay == retry.max_delay
            &&& plan.total_delay == Some(retry.max_elapsed)
            &&& plan.max_times == retry.max_times
            &&& plan.jitter == retry.jitter
        },
{
    crate::tcp::retry::accepted_policies(retry);
}

/// Every policy tries again after every failure of the transport, and after the answer
/// of a busy gateway where it says so. A handle without a policy never tries again.
pub proof fn failed_attempts_are_tried_again(
    connection: ModbusTcpConnection,
    retry: ModbusTcpRetry,
    error: ModbusError,
    asked: bool,
    again: bool,
)
    requires
        call_ensures(ModbusTcpRetry::should_retry, (&retry, &error), asked),
        call_ensures(ModbusTcpConnection::tries_again, (&connection, &error), again),
    ensures
        asked == match error {
            ModbusError::ConnectError(_) => true,
            ModbusError::ConnectTimeout => true,
            ModbusError::WriteError(_) => true,
            ModbusError::WriteTimeout => true,
            ModbusError::ReadError(_) => true,
            ModbusError::ReadTimeout => true,
            ModbusError::QueueTimeout => true,
            ModbusError::MalformedResponse(_) => true,
            ModbusError::ExceptionResponse { code, .. } => retry.retry_gateway_busy && (code == 5
                || code == 6 || code == 10 || code == 11),
            _ => false,
        },
        connection.retry is None ==> !again,
        connection.retry == Some(retry) ==> again == asked,
{
    crate::tcp::retry::transport_failures_are_retried(retry, error);
}

/// One send call makes a single attempt without a policy, follows the delays of a valid
/// one, and is refused with one that is not valid.
pub proof fn send_calls_follow_their_policy(
    connection: ModbusTcpConnection,
    retry: ModbusTcpRetry,
    plan: Result<Option<BackoffPlan>, ModbusError>,
    delays: Result<BackoffPlan, ModbusError>,
)
    requires
        call_ensures(ModbusTcpConnection::send_plan, (&connection,), plan),
        call_ensures(ModbusTcpRetry::to_backoff, (retry,), delays),
    ensures
        connection.retry is None ==> (plan matches Ok(none) && none is None),
        connection.retry == Some(retry) ==> match delays {
            Ok(wanted) => plan matches Ok(Some(got)) && got == wanted,
            Err(refused) => plan matches Err(e) && e@ == refused@,
        },
{
}

/// The command of a request holds what was handed in, and may wait exactly the queue
/// timeout of the handle.
pub proof fn commands_hold_what_was_handed_in(
    connection: ModbusTcpConnection,
    unit_id: u8,
    pdu: ModbusRequest,
    waiter: u64,
    now: Instant,
    command: RequestCommand,
)
    requires
        now.nanos + connection.queue_timeout.nanos <= u128::MAX,
        call_ensures(
            ModbusTcpConnection::request_command,
            (&connection, unit_id, &pdu, waiter, now),
            command,
        ),
    ensures
        command.unit_id == unit_id,
        command.pdu@ == pdu@,
        command.waiter == waiter,
        command.queue_deadline.nanos == now.nanos + connection.queue_timeout.nanos,
{
}

/// A handle for another unit differs in the unit alone.
pub proof fn derived_handle_differs_in_the_unit(
    connection: ModbusTcpConnection,
    unit_id: u8,
    queue_timeout: Duration,
    retry: Option<ModbusTcpRetry>,
    derived: ModbusTcpConnection,
    made: ModbusTcpConnection,
)
    requires
        call_ensures(ModbusTcpConnection::with_unit_id, (&connection, unit_id), derived),
        call_ensures(
            ModbusTcpConnection::from_actor_parts,
            (unit_id, queue_timeout, retry),
            made,
        ),
    ensures
        derived.unit_id == unit_id,
        derived.queue_timeout == connection.queue_timeout,
        derived.retry == connection.retry,
        made.unit_id == unit_id,
        made.queue_timeout == queue_timeout,
        made.retry == retry,
{
}

/// What an attempt to open a stream means, and what a caller learns of its command.
pub proof fn connecting_is_told(
    attempt: ConnectAttempt,
    reply: Option<Result<(), ModbusError>>,
    opened: Result<(), ModbusError>,
    told: Result<(), ModbusError>,
)
    requires
        call_ensures(tcp_connection::connect_stream, (attempt,), opened),
        call_ensures(ModbusTcpConnection::connect, (reply,), told),
    ensures
        match attempt {
            ConnectAttempt::Opened => opened is Ok,
            ConnectAttempt::Failed(failure) => {
                &&& opened matches Err(ModbusError::ConnectError(e))
                &&& e.kind == failure.kind
                &&& e.message@ == failure.message@
                &&& e.raw_os_error == failure.raw_os_error
            },
            ConnectAttempt::TimedOut => opened matches Err(ModbusError::ConnectTimeout),
        },
        match reply {
            Some(Ok(())) => told is Ok,
            Some(Err(error)) => told matches Err(e) && e@ == error@,
            None => {
                &&& told matches Err(ModbusError::ReadError(e))
                &&& e.kind == IoErrorKind::ConnectionAborted
                &&& e.message@ == "reader task terminated"@
            },
        },
{
}

/// A frame is understood where it has a whole header, the protocol identifier zero, the
/// unit of the request and a response that belongs to it. An exception becomes an error.
pub proof fn frames_are_interpreted(
    unit_id: u8,
    request: ModbusRequest,
    frame: &[u8],
    result: Result<ModbusResponse, ModbusError>,
    pdu: &[u8],
    decoded: Result<ModbusResponse, ModbusError>,
    response: ModbusResponse,
    aligned: Result<ModbusResponse, ModbusError>,
)
    requires
        call_ensures(tcp_connection::interpret_frame, (unit_id, &request, frame), result),
        call_ensures(ModbusResponse::deserialize, (pdu,), decoded),
        call_ensures(ModbusResponse::align_to_request, (response, &request), aligned),
    ensures
        frame@.len() < 7 ==> (result matches Err(e) && e is MalformedResponse),
        frame@.len() >= 7 && 256 * frame@[2] + frame@[3] != 0 ==> (result matches Err(
            ModbusError::ProtocolIdMismatch { actual },
        ) && actual == 256 * frame@[2] + frame@[3]),
        frame@.len() >= 7 && 256 * frame@[2] + frame@[3] == 0 && frame@[6] != unit_id ==> (
        result matches Err(ModbusError::UnitIdMismatch { expected, actual }) && expected == unit_id
            && actual == frame@[6]),
        frame@.len() >= 7 && 256 * frame@[2] + frame@[3] == 0 && frame@[6] == unit_id && pdu@
            == frame@.skip(7) ==> match decoded {
            Err(error) => result matches Err(e) && e@ == error@,
            Ok(ModbusResponse::Exception { function: f, code: c }) => result matches Err(
                ModbusError::ExceptionResponse { function, code },
            ) && function == f && code == c,
            Ok(other) => other == response ==> response::outcome(result) == response::outcome(
                aligned,
            ),
        },
{
    tcp_connection::frames_are_understood_byte_by_byte(unit_id, request@, frame@);
}

/// A caller learns what its frame says, the error that it was answered with, or that the
/// actor is gone.
pub proof fn callers_learn_of_their_requests(
    connection: ModbusTcpConnection,
    unit_id: u8,
    request: ModbusRequest,
    frame: Vec<u8>,
    slice: &[u8],
    error: ModbusError,
    answered: Result<ModbusResponse, ModbusError>,
    interpreted: Result<ModbusResponse, ModbusError>,
    failed: Result<ModbusResponse, ModbusError>,
    gone: Result<ModbusResponse, ModbusError>,
)
    requires
        slice@ == frame@,
        call_ensures(tcp_connection::interpret_frame, (unit_id, &request, slice), interpreted),
        call_ensures(
            ModbusTcpConnection::send_once,
            (&connection, unit_id, &request, Some(Ok(frame))),
            answered,
        ),
        call_ensures(
            ModbusTcpConnection::send_once,
            (&connection, unit_id, &request, Some(Err(error))),
            failed,
        ),
        call_ensures(
            ModbusTcpConnection::send_once,
            (&connection, unit_id, &request, None),
            gone,
        ),
    ensures
        response::outcome(answered) == response::outcome(interpreted),
        failed matches Err(e) && e@ == error@,
        gone matches Err(ModbusError::ReadError(e)) && e.kind == IoErrorKind::ConnectionAborted
            && e.message@ == "reader task terminated"@,
{
}

/// The settings of a socket are those that it was made with, and each change is of one
/// setting alone. The actor and the handle take all of them over.
pub proof fn sockets_keep_their_settings(
    host: &str,
    port: u16,
    unit_id: u8,
    made: ModbusTcpSocket,
    socket: ModbusTcpSocket,
    parts: (Actor, ModbusTcpConnection),
    connected: Result<(Actor, ModbusTcpConnection), ModbusError>,
)
    requires
        call_ensures(ModbusTcpSocket::new, (host, port, unit_id), made),
        call_ensures(ModbusTcpSocket::spawn_actor, (socket,), parts),
        call_ensures(ModbusTcpSocket::connect, (socket,), connected),
    ensures
        made.host@ == host@ && made.port == port && made.unit_id == unit_id && made.transaction_id
            == 1,
        made.timeouts.connect_timeout.nanos == 5_000_000_000,
        made.timeouts.write_timeout.nanos == 5_000_000_000,
        made.timeouts.response_timeout.nanos == 5_000_000_000,
        made.flow_control.max_in_flight == 16 && made.flow_control.max_queue_depth == 128,
        made.flow_control.queue_timeout.nanos == 5_000_000_000,
        made.flow_control.quarantine_ttl.nanos == 10_000_000_000,
        made.retry matches Some(retry) && retry.initial_delay.nanos == 500_000_000
            && retry.max_elapsed.nanos == 2_000_000_000,
        ({
            let (actor, handle) = parts;
            &&& actor.host@ == socket.host@
            &&& actor.port == socket.port
            &&& actor.timeouts == socket.timeouts
            &&& actor.flow == socket.flow_control
            &&& actor.next_tid == socket.transaction_id
            &&& !actor.status.connected
            &&& actor.status.generation == 0
            &&& handle.unit_id == socket.unit_id
            &&& handle.queue_timeout == socket.flow_control.queue_timeout
            &&& handle.retry == socket.retry
        }),
        connected is Ok <==> socket.flow_control.max_in_flight >= 1
            && socket.flow_control.max_queue_depth >= 1 && socket.flow_control.queue_timeout.nanos
            >= 1 && socket.flow_control.quarantine_ttl.nanos >= 1,
        connected matches Err(e) ==> e is ValidationError,
        connected matches Ok((actor, handle)) ==> actor@ == parts.0@ && handle == parts.1,
{
}

/// Each change of a socket is of one setting alone.
pub proof fn each_change_is_of_one_setting(
    socket: ModbusTcpSocket,
    timeouts: ModbusTcpTimeouts,
    flow_control: ModbusTcpFlowControl,
    retry: Option<ModbusTcpRetry>,
    transaction_id: u16,
    first: ModbusTcpSocket,
    second: ModbusTcpSocket,
    third: ModbusTcpSocket,
    fourth: ModbusTcpSocket,
)
    requires
        call_ensures(ModbusTcpSocket::with_timeouts, (socket, timeouts), first),
        call_ensures(ModbusTcpSocket::with_flow_control, (socket, flow_control), second),
        call_ensures(ModbusTcpSocket::with_retry, (socket, retry), third),
        call_ensures(
            ModbusTcpSocket::with_initial_transaction_id,
            (socket, transaction_id),
            fourth,
        ),
    ensures
        first.timeouts == timeouts && first.flow_control == socket.flow_control && first.retry
            == socket.retry && first.transaction_id == socket.transaction_id,
        second.timeouts == socket.timeouts && second.flow_control == flow_control && second.retry
            == socket.retry && second.transaction_id == socket.transaction_id,
        third.timeouts == socket.timeouts && third.flow_control == socket.flow_control
            && third.retry == retry && third.transaction_id == socket.transaction_id,
        fourth.timeouts == socket.timeouts && fourth.flow_control == socket.flow_control
            && fourth.retry == socket.retry && fourth.transaction_id == transaction_id,
        first.host@ == socket.host@ && first.port == socket.port && first.unit_id
            == socket.unit_id,
        second.host@ == socket.host@ && second.port == socket.port && second.unit_id
            == socket.unit_id,
        third.host@ == socket.host@ && third.port == socket.port && third.unit_id
            == socket.unit_id,
        fourth.host@ == socket.host@ && fourth.port == socket.port && fourth.unit_id
            == socket.unit_id,
{
}

/// Statuses: none before the first socket, the next generation with each socket that is
/// opened, and the same generation once it is closed.
pub proof fn statuses_count_sockets(
    status: ConnectionStatus,
    first: ConnectionStatus,
    opened: ConnectionStatus,
    closed: ConnectionStatus,
)
    requires
        status.generation < u64::MAX,
        call_ensures(ConnectionStatus::disconnected, (), first),
        call_ensures(ConnectionStatus::opened, (status,), opened),
        call_ensures(ConnectionStatus::closed, (status,), closed),
    ensures
        !first.connected && first.generation == 0,
        opened.connected && opened.generation == status.generation + 1,
        !closed.connected && closed.generation == status.generation,
{
}

/// Ids count up by one and wrap around.
pub proof fn ids_count_up(tid: u16, next: u16)
    requires
        call_ensures(pending::next_transaction_id, (tid,), next),
    ensures
        tid < 65535 ==> next == tid + 1,
        tid == 65535 ==> next == 0,
{
}

/// An allocation gives the caller the free id that comes first, upwards with wrap-around,
/// and notes the caller under it. It tries 256 ids, and where all of them are taken it
/// changes nothing but the counter.
pub proof fn ids_are_allocated(
    transaction_id: &mut u16,
    pending: &mut HashMap<u16, u64>,
    waiter: u64,
    result: Result<u16, ModbusError>,
    other: u16,
)
    requires
        call_ensures(
            pending::allocate_transaction_id,
            (transaction_id, pending, waiter),
            result,
        ),
    ensures
        match result {
            Ok(tid) => {
                &&& !old(pending)@.contains_key(tid)
                &&& pending::distance(*old(transaction_id), tid) < 256
                &&& pending::distance(*old(transaction_id), other) < pending::distance(
                    *old(transaction_id),
                    tid,
                ) ==> old(pending)@.contains_key(other)
                &&& final(pending)@ == old(pending)@.insert(tid, waiter)
                &&& pending::distance(tid, *final(transaction_id)) == 1
            },
            Err(e) => {
                &&& e is NoFreeTransactionId
                &&& pending::distance(*old(transaction_id), other) < 256
                    ==> old(pending)@.contains_key(other)
                &&& final(pending)@ == old(pending)@
                &&& pending::distance(*old(transaction_id), *final(transaction_id)) == 256
            },
        },
{
    let taken = old(pending)@.dom();
    pending::nearest_free_id_is_allocated(taken, *old(transaction_id), 256);
    assert(taken.contains(other) == old(pending)@.contains_key(other));
}

/// A guard removes its own entry and no other, unless it was disarmed.
pub proof fn guards_remove_their_own_entry(
    tid: u16,
    made: PendingGuard,
    guard: &mut PendingGuard,
    pending: &mut HashMap<u16, u64>,
    other: u16,
)
    requires
        call_ensures(PendingGuard::new, (tid,), made),
        call_ensures(PendingGuard::disarm, (guard,), ()),
        call_ensures(PendingGuard::release, (made, pending), ()),
        other != tid,
    ensures
        made.tid == tid && made.armed,
        !final(guard).armed && final(guard).tid == old(guard).tid,
        !final(pending)@.contains_key(tid),
        final(pending)@.contains_key(other) == old(pending)@.contains_key(other),
        old(pending)@.contains_key(other) ==> final(pending)@[other] == old(pending)@[other],
{
}

/// What the caller of a write learns, and which generation has to be invalidated.
pub proof fn writes_are_told(
    attempt: WriteAttempt,
    generation: u64,
    outcome: (Result<(), ModbusError>, Option<u64>),
)
    requires
        call_ensures(writer::write_adu_cancellation_safe, (attempt, generation), outcome),
    ensures
        match attempt {
            WriteAttempt::Finished(Ok(())) => outcome.0 is Ok && outcome.1 is None,
            WriteAttempt::Finished(Err(failure)) => {
                &&& outcome.0 matches Err(ModbusError::WriteError(e))
                &&& e@ == failure@
                &&& outcome.1 == Some(generation)
            },
            WriteAttempt::TimedOut => {
                &&& outcome.0 matches Err(ModbusError::WriteTimeout)
                &&& outcome.1 == Some(generation)
            },
            WriteAttempt::TaskFailed(message) => {
                &&& outcome.0 matches Err(ModbusError::WriteError(e))
                &&& e.kind == IoErrorKind::Other
                &&& e.message@ == "writer task failed: "@ + message@
                &&& outcome.1 == Some(generation)
            },
        },
{
}

/// The errors by which callers learn of a lost connection.
pub proof fn lost_connections_are_told(
    closed: ModbusError,
    terminated: ModbusError,
    poisoned: ModbusError,
    error: MbapCodecError,
    written: ModbusError,
    read: ModbusError,
)
    requires
        call_ensures(actor::default_teardown_error, (), closed),
        call_ensures(tcp_connection::actor_terminated_error, (), terminated),
        call_ensures(pending::pending_map_poisoned, (), poisoned),
        call_ensures(actor::write_error_from_sink, (error,), written),
        call_ensures(actor::read_error_from_stream, (error,), read),
    ensures
        closed matches ModbusError::ReadError(e) && e.kind == IoErrorKind::ConnectionAborted
            && e.message@ == "connection closed"@,
        terminated matches ModbusError::ReadError(e) && e.kind == IoErrorKind::ConnectionAborted
            && e.message@ == "reader task terminated"@,
        poisoned matches ModbusError::ReadError(e) && e.kind == IoErrorKind::Other && e.message@
            == "pending map poisoned"@,
        match error {
            MbapCodecError::Io(failure) => {
                &&& written matches ModbusError::WriteError(w)
                &&& w@ == failure@
                &&& read matches ModbusError::ReadError(r)
                &&& r@ == failure@
            },
            MbapCodecError::Modbus(cause) => {
                &&& read@ == cause@
                &&& written matches ModbusError::WriteError(w)
                &&& match cause {
                    ModbusError::WriteError(failure) => w@ == failure@,
                    _ => w.kind == IoErrorKind::Other && w.message@ == cause@.text(),
                }
            },
        },
{
}

/// What the reader does with the bytes that it read, and what it asks for next.
pub proof fn reader_steps(
    state: &mut ReaderState,
    pending: &mut HashMap<u16, u64>,
    read: Result<Vec<u8>, IoError>,
    step: ReaderStep,
    wanted: usize,
    tid: u16,
    other: u16,
)
    requires
        old(state)@.wf(),
        read matches Ok(bytes) ==> bytes@.len() == old(state)@.wanted(),
        call_ensures(ReaderState::run_reader_loop, (state, pending, read), step),
        call_ensures(ReaderState::bytes_wanted, (&*old(state),), wanted),
        *old(state) matches ReaderState::Body { header, .. } ==> tid == 256 * header@[0]
            + header@[1],
        other != tid,
    ensures
        match *old(state) {
            ReaderState::Header => {
                &&& wanted == 7
                &&& final(pending)@ == old(pending)@
                &&& read matches Ok(bytes) ==> {
                    let length = 256 * bytes@[4] + bytes@[5];
                    &&& 2 <= length <= 254 ==> {
                        &&& step is ReadBody
                        &&& *final(state) matches ReaderState::Body { header, body_len }
                        &&& header@ == bytes@
                        &&& body_len == length - 1
                    }
                    &&& length < 2 || length > 254 ==> (step matches ReaderStep::Stop(e)
                        && e is MalformedResponse)
                }
            },
            ReaderState::Body { header, body_len } => {
                &&& wanted == body_len
                &&& read matches Ok(bytes) ==> {
                    &&& *final(state) is Header
                    &&& old(pending)@.contains_key(tid) ==> (step matches ReaderStep::Deliver {
                        waiter,
                        frame,
                    } && waiter == old(pending)@[tid] && frame@ == header@ + bytes@)
                    &&& !old(pending)@.contains_key(tid) ==> step is Ignore
                    &&& !final(pending)@.contains_key(tid)
                    &&& final(pending)@.contains_key(other) == old(pending)@.contains_key(other)
                    &&& old(pending)@.contains_key(other) ==> final(pending)@[other]
                        == old(pending)@[other]
                }
            },
        },
        read matches Err(failure) ==> {
            &&& step matches ReaderStep::Stop(ModbusError::ReadError(e))
            &&& e@ == failure@
            &&& final(pending)@ == old(pending)@
        },
{
    if let Ok(bytes) = read {
        match *old(state) {
            ReaderState::Header => {
                connected_state::reader_follows_the_length_field(bytes@, old(pending)@);
            },
            ReaderState::Body { header, .. } => {
                connected_state::frames_go_to_their_callers(
                    header@,
                    bytes@,
                    old(pending)@,
                    tid,
                    other,
                );
            },
        }
    }
}

/// When the reader ends, or its connection is dropped, every caller that waits is told,
/// once and by an error of reading, and nobody waits any more.
pub proof fn end_of_the_reader_reaches_everyone(
    pending: &mut HashMap<u16, u64>,
    dropped: &mut HashMap<u16, u64>,
    end: ReaderEnd,
    failures: Vec<Failure>,
    told: Vec<Failure>,
    i: int,
    tid: u16,
)
    requires
        call_ensures(connected_state::reader_loop, (pending, end), failures),
        call_ensures(connected_state::drop_state, (dropped,), told),
    ensures
        final(pending)@ == Map::<u16, u64>::empty(),
        final(dropped)@ == Map::<u16, u64>::empty(),
        failures@.len() == old(pending)@.dom().len(),
        told@.len() == old(dropped)@.dom().len(),
        0 <= i < failures@.len() ==> {
            &&& failures@[i].error matches ModbusError::ReadError(e)
            &&& e.kind == match end {
                ReaderEnd::Failed(ModbusError::ReadError(cause)) => cause.kind,
                ReaderEnd::Failed(ModbusError::MalformedResponse(_)) => IoErrorKind::InvalidData,
                _ => IoErrorKind::Other,
            }
        },
        0 <= i < told@.len() ==> {
            &&& told@[i].error matches ModbusError::ReadError(e)
            &&& e.kind == IoErrorKind::ConnectionAborted
            &&& e.message@ == "connection state replaced or dropped"@
        },
        old(pending)@.contains_key(tid) ==> exists|k: int|
            0 <= k < failures@.len() && (#[trigger] failures@[k]).waiter == old(pending)@[tid],
        old(dropped)@.contains_key(tid) ==> exists|k: int|
            0 <= k < told@.len() && (#[trigger] told@[k]).waiter == old(dropped)@[tid],
{
    let cause = connected_state::drain_cause(connected_state::end_error(end));
    connected_state::everyone_is_told_once(
        failures@,
        old(pending)@,
        crate::error::IoErrorView { kind: cause.0, message: cause.1, raw_os_error: None },
        i,
        tid,
    );
    connected_state::everyone_is_told_once(
        told@,
        old(dropped)@,
        crate::error::IoErrorView {
            kind: IoErrorKind::ConnectionAborted,
            message: "connection state replaced or dropped"@,
            raw_os_error: None,
        },
        i,
        tid,
    );
}

/// Whether the actor is done, has room, or needs a socket.
pub proof fn actor_answers_about_itself(
    actor: Actor,
    finished: bool,
    room: bool,
    needed: bool,
    capacity: usize,
)
    requires
        call_ensures(Actor::is_finished, (&actor,), finished),
        call_ensures(Actor::window_has_room, (&actor,), room),
        call_ensures(Actor::needs_connection, (&actor,), needed),
        call_ensures(actor::control_channel_capacity, (), capacity),
    ensures
        finished <==> actor.ctrl_closed && actor.req_closed && actor.pending@.dom().len() == 0,
        room <==> actor.pending@.dom().len() < actor.flow.max_in_flight && !actor.req_closed,
        needed <==> !actor.status.connected,
        capacity == 8,
{
}

/// What the actor does next. It stops once it is done. A request whose caller is gone
/// comes before everything else. Otherwise it waits: for commands as long as there can be
/// any, for requests while there is room, for frames while a socket is open, and until
/// the first deadline.
pub proof fn next_step_of_the_actor(
    actor: Actor,
    now: Instant,
    closed: &[u64],
    step: Step,
    tid: u16,
)
    requires
        now.nanos + 10_000_000 <= u128::MAX,
        call_ensures(Actor::next_step, (&actor, now, closed), step),
    ensures
        step is Stop <==> actor.ctrl_closed && actor.req_closed && actor.pending@.dom().len() == 0,
        step matches Step::Cancel(id) ==> actor.pending@.contains_key(id) && closed@.contains(
            actor.pending@[id].waiter,
        ),
        step is Wait && actor.pending@.contains_key(tid) ==> !closed@.contains(
            actor.pending@[tid].waiter,
        ),
        step matches Step::Wait { control, requests, frames, wake } ==> {
            &&& control == !actor.ctrl_closed
            &&& requests == (actor.pending@.dom().len() < actor.flow.max_in_flight
                && !actor.req_closed)
            &&& frames == actor.status.connected
            &&& actor.pending@.contains_key(tid) ==> (wake matches Some(at) && at.nanos
                <= actor.pending@[tid].response_deadline.nanos && at.nanos <= now.nanos
                + 10_000_000)
            &&& actor.quarantined@.contains_key(tid) ==> (wake matches Some(at) && at.nanos
                <= actor.quarantined@[tid].nanos)
        },
{
    if let Step::Wait { wake, .. } = step {
        effects::sleep_ends_in_time(actor@, now, wake, tid);
        effects::requests_time_out_at_their_deadlines(actor@, tid, now, closed@);
    }
}

/// A request whose frame was written is pending, and its response is due exactly the
/// response timeout later. Where writing failed, nothing is pending, the socket is
/// closed, and the caller is told first.
pub proof fn written_frames_are_noted(
    actor: &mut Actor,
    tid: u16,
    waiter: u64,
    outcome: WriteOutcome,
    now: Instant,
    actions: Vec<Action>,
    other: u16,
)
    requires
        outcome is Written ==> now.nanos + old(actor).timeouts.response_timeout.nanos
            <= u128::MAX,
        call_ensures(Actor::sent, (actor, tid, waiter, outcome, now), actions),
        other != tid,
    ensures
        outcome is Written ==> {
            &&& actions@.len() == 0
            &&& final(actor)@.pending.contains_key(tid)
            &&& final(actor)@.pending[tid].waiter == waiter
            &&& final(actor)@.pending[tid].response_deadline.nanos == now.nanos
                + old(actor).timeouts.response_timeout.nanos
            &&& final(actor)@.pending.contains_key(other) == old(actor)@.pending.contains_key(
                other,
            )
            &&& old(actor)@.pending.contains_key(other) ==> final(actor)@.pending[other]
                == old(actor)@.pending[other]
            &&& final(actor)@ == (ActorView { pending: final(actor)@.pending, ..old(actor)@ })
        },
        !(outcome is Written) ==> {
            &&& !final(actor)@.status.connected
            &&& final(actor)@.status.generation == old(actor)@.status.generation
            &&& !final(actor)@.pending.contains_key(other)
            &&& actions@.len() >= 1
            &&& actions@[0] matches Action::Answer { waiter: told, outcome: Err(e) }
            &&& told == waiter
            &&& match outcome {
                WriteOutcome::TimedOut => e is WriteTimeout,
                WriteOutcome::Failed(cause) => e is WriteError,
                WriteOutcome::Written => false,
            }
        },
{
    let before = old(actor)@;
    if outcome is Written {
        effects::response_is_due_after_the_response_timeout(before, tid, waiter, now, now, other);
        assert(actor::all(actions@).len() == 0);
    } else {
        effects::teardown_closes_and_empties(before);
        effects::action_models_are_complete(actions@, 0);
    }
}

/// A request that is taken is answered with a timeout from its queue deadline on, has a
/// socket dialed where none is open, and otherwise becomes a frame with the next usable
/// id, or is answered with what keeps it from becoming one.
pub proof fn taken_requests_are_dispatched(
    actor: &mut Actor,
    cmd: RequestCommand,
    now: Instant,
    action: Action,
)
    requires
        call_ensures(Actor::dispatch, (actor, cmd, now), action),
    ensures
        now.nanos >= cmd.queue_deadline.nanos ==> {
            &&& action matches Action::Answer { waiter, outcome: Err(ModbusError::QueueTimeout) }
            &&& waiter == cmd.waiter
            &&& final(actor)@ == old(actor)@
        },
        now.nanos < cmd.queue_deadline.nanos && !old(actor)@.status.connected ==> {
            &&& action matches Action::Dial(Dialing::ForRequest(dialed))
            &&& dialed@ == cmd@
            &&& final(actor)@ == old(actor)@
        },
        now.nanos < cmd.queue_deadline.nanos && old(actor)@.status.connected ==> {
            &&& action@ == old(actor)@.write_action(cmd@, now)
            &&& final(actor)@ == old(actor)@.allocated(now)
            &&& action matches Action::Send { tid, waiter, adu } ==> {
                &&& waiter == cmd.waiter
                &&& !effects::unusable(old(actor)@, now, tid)
                &&& 256 * adu@[0] + adu@[1] == tid
                &&& 256 * adu@[2] + adu@[3] == 0
                &&& 256 * adu@[4] + adu@[5] == adu@.len() - 6
                &&& adu@[6] == cmd.unit_id
                &&& adu@.skip(7) == cmd.pdu@.encoded()
            }
        },
{
    let before = old(actor)@;
    effects::late_and_early_requests(before, cmd@, now);
    effects::next_usable_id_is_given_out(before, now);
    if cmd.pdu@.valid() {
        crate::request::valid_request_fits(cmd.pdu);
        effects::written_request_is_its_frame(before, cmd@, now);
    }
}

/// A request that is to be written gets the next usable id and becomes a frame, and what
/// keeps it from that is told to its caller.
pub proof fn requests_are_written(
    actor: &mut Actor,
    cmd: RequestCommand,
    now: Instant,
    action: Action,
)
    requires
        call_ensures(Actor::write_on_wire, (actor, cmd, now), action),
    ensures
        action@ == old(actor)@.write_action(cmd@, now),
        final(actor)@ == old(actor)@.allocated(now),
        final(actor)@.pending == old(actor)@.pending,
        action is Send ==> cmd.pdu@.valid() && old(actor)@.status.connected,
        action is Send || action is Answer,
{
}

/// The next id that is given out is the first usable one, and nothing but the counter and
/// the reservations whose time has passed changes.
pub proof fn next_id_is_given_out(
    actor: &mut Actor,
    now: Instant,
    result: Result<u16, ModbusError>,
    other: u16,
)
    requires
        call_ensures(Actor::allocate_tid, (actor, now), result),
    ensures
        match result {
            Ok(tid) => {
                &&& !effects::unusable(old(actor)@, now, tid)
                &&& pending::distance(old(actor).next_tid, other) < pending::distance(
                    old(actor).next_tid,
                    tid,
                ) ==> effects::unusable(old(actor)@, now, other)
                &&& pending::distance(tid, final(actor)@.next_tid) == 1
            },
            Err(e) => e is NoFreeTransactionId && effects::unusable(old(actor)@, now, other),
        },
        final(actor)@.pending == old(actor)@.pending,
        final(actor)@.quarantined.contains_key(other) <==> old(actor)@.quarantined.contains_key(
            other,
        ) && old(actor)@.quarantined[other].nanos > now.nanos,
        final(actor)@.status == old(actor)@.status,
{
    effects::next_usable_id_is_given_out(old(actor)@, now);
}

/// A frame answers the caller that waits for the identifier in its first two bytes, and
/// nobody else. A late one ends the reservation of that identifier.
pub proof fn frames_are_routed(
    actor: &mut Actor,
    frame: Vec<u8>,
    actions: Vec<Action>,
    tid: u16,
    other: u16,
)
    requires
        frame@.len() >= 2,
        tid == 256 * frame@[0] + frame@[1],
        other != tid,
        call_ensures(Actor::route_frame, (actor, frame), actions),
    ensures
        old(actor)@.pending.contains_key(tid) ==> {
            &&& actions@.len() == 1
            &&& actions@[0] matches Action::Answer { waiter, outcome: Ok(answered) }
            &&& waiter == old(actor)@.pending[tid].waiter
            &&& answered@ == frame@
        },
        !old(actor)@.pending.contains_key(tid) ==> actions@.len() == 0,
        !final(actor)@.pending.contains_key(tid),
        !old(actor)@.pending.contains_key(tid) ==> !final(actor)@.quarantined.contains_key(tid),
        final(actor)@.pending.contains_key(other) == old(actor)@.pending.contains_key(other),
        old(actor)@.pending.contains_key(other) ==> final(actor)@.pending[other]
            == old(actor)@.pending[other],
        final(actor)@.quarantined.contains_key(other) == old(actor)@.quarantined.contains_key(
            other,
        ),
        final(actor)@.status == old(actor)@.status,
{
    effects::frames_are_routed_by_their_first_bytes(old(actor)@, frame@, tid, other);
    let told = actor::all(actions@);
    assert(told == old(actor)@.route_actions(frame@));
    assert(told.len() == actions@.len());
    if old(actor)@.pending.contains_key(tid) {
        effects::action_models_are_complete(actions@, 0);
    }
}

/// A request that is cancelled is off the wire, and its id is reserved for exactly the
/// time that flow control sets. Cancelling what is not pending changes nothing.
pub proof fn cancelled_requests_are_reserved(
    actor: &mut Actor,
    tid: u16,
    now: Instant,
    other: u16,
)
    requires
        now.nanos + old(actor).flow.quarantine_ttl.nanos <= u128::MAX,
        call_ensures(Actor::cancel_in_flight, (actor, tid, now), ()),
        other != tid,
    ensures
        old(actor)@.pending.contains_key(tid) ==> {
            &&& !final(actor)@.pending.contains_key(tid)
            &&& final(actor)@.quarantined.contains_key(tid)
            &&& final(actor)@.quarantined[tid].nanos == now.nanos
                + old(actor).flow.quarantine_ttl.nanos
            &&& final(actor)@.pending.contains_key(other) == old(actor)@.pending.contains_key(
                other,
            )
            &&& old(actor)@.pending.contains_key(other) ==> final(actor)@.pending[other]
                == old(actor)@.pending[other]
            &&& final(actor)@.status == old(actor)@.status
        },
        !old(actor)@.pending.contains_key(tid) ==> final(actor)@ == old(actor)@,
{
    effects::cancelled_id_is_reserved_for_its_time(old(actor)@, set![tid], now, tid);
    effects::cancelled_id_is_reserved_for_its_time(old(actor)@, set![tid], now, other);
}

/// A look at the deadlines takes off the wire what timed out or was given up, reserves
/// the ids, and tells those who timed out and still wait. The others stay.
pub proof fn deadlines_are_handled(
    actor: &mut Actor,
    now: Instant,
    closed: &[u64],
    actions: Vec<Action>,
    tid: u16,
    i: int,
)
    requires
        now.nanos + old(actor).flow.quarantine_ttl.nanos <= u128::MAX,
        !(old(actor)@.pending.contains_key(tid) && old(actor)@.quarantined.contains_key(tid)),
        call_ensures(Actor::handle_deadlines, (actor, now, closed), actions),
    ensures
        ({
            let before = old(actor)@;
            let after = final(actor)@;
            let gone = before.pending.contains_key(tid) && (closed@.contains(
                before.pending[tid].waiter,
            ) || before.pending[tid].response_deadline.nanos <= now.nanos);
            &&& after.pending.contains_key(tid) <==> before.pending.contains_key(tid) && !gone
            &&& after.pending.contains_key(tid) ==> after.pending[tid] == before.pending[tid]
            &&& gone && before.flow.quarantine_ttl.nanos > 0 ==> after.quarantined.contains_key(tid)
                && after.quarantined[tid].nanos == now.nanos + before.flow.quarantine_ttl.nanos
            &&& !gone ==> (after.quarantined.contains_key(tid) <==> before.quarantined.contains_key(
                tid,
            ) && before.quarantined[tid].nanos > now.nanos)
            &&& after.status == before.status
        }),
        0 <= i < actions@.len() ==> {
            &&& actions@[i] matches Action::Answer { waiter, outcome: Err(ModbusError::ReadTimeout)
            }
            &&& !closed@.contains(waiter)
        },
        old(actor)@.pending.contains_key(tid) && old(actor)@.pending[tid].response_deadline.nanos
            <= now.nanos && !closed@.contains(old(actor)@.pending[tid].waiter) ==> exists|k: int|
            0 <= k < actions@.len() && ((#[trigger] actions@[k]) matches Action::Answer {
                waiter,
                outcome: Err(ModbusError::ReadTimeout),
            } && waiter == old(actor)@.pending[tid].waiter),
{
    let before = old(actor)@;
    effects::deadlines_are_looked_at_id_by_id(before, now, closed@, tid);
    let told = actor::all(actions@);
    effects::timeouts_are_told_to_those_who_wait(before, now, closed@, told, i, tid);
    if 0 <= i < actions@.len() {
        effects::action_models_are_complete(actions@, i);
        let id = choose|id: u16| #[trigger]
            before.pending.contains_key(id) && before.pending[id].response_deadline.nanos
                <= now.nanos && !closed@.contains(before.pending[id].waiter) && effects::tells(
                told[i],
                before.pending[id].waiter,
                Err(ErrorView::ReadTimeout),
            );
        assert(effects::tells(told[i], before.pending[id].waiter, Err(ErrorView::ReadTimeout)));
    }
    if before.pending.contains_key(tid) && before.pending[tid].response_deadline.nanos
        <= now.nanos && !closed@.contains(before.pending[tid].waiter) {
        let k = choose|k: int|
            0 <= k < told.len() && effects::tells(
                #[trigger] told[k],
                before.pending[tid].waiter,
                Err(ErrorView::ReadTimeout),
            );
        effects::action_models_are_complete(actions@, k);
    }
}

/// A teardown closes an open socket, says so, and answers everyone who waits with the
/// reason that was given, or with that of a closed connection.
pub proof fn teardown_answers_with_the_reason(
    actor: &mut Actor,
    reason: Option<ModbusError>,
    actions: Vec<Action>,
    closing: int,
    i: int,
    tid: u16,
)
    requires
        call_ensures(Actor::teardown, (actor, reason), actions),
        closing == if old(actor)@.status.connected {
            2int
        } else {
            0int
        },
    ensures
        !final(actor)@.status.connected,
        final(actor)@.status.generation == old(actor)@.status.generation,
        !final(actor)@.pending.contains_key(tid),
        final(actor)@.quarantined == old(actor)@.quarantined,
        final(actor)@.next_tid == old(actor)@.next_tid,
        actions@.len() == closing + old(actor)@.pending.dom().len(),
        old(actor)@.status.connected ==> actions@[0] is CloseSocket && (
        actions@[1] matches Action::Publish(status) && !status.connected && status.generation
            == old(actor)@.status.generation),
        closing <= i < actions@.len() ==> {
            &&& actions@[i] matches Action::Answer { outcome: Err(told), .. }
            &&& match reason {
                Some(error) => told@ == error@,
                None => told matches ModbusError::ReadError(e) && e.kind
                    == IoErrorKind::ConnectionAborted && e.message@ == "connection closed"@,
            }
        },
        old(actor)@.pending.contains_key(tid) ==> exists|k: int|
            closing <= k < actions@.len() && ((#[trigger] actions@[k]) matches Action::Answer {
                waiter,
                ..
            } && waiter == old(actor)@.pending[tid].waiter),
{
    let before = old(actor)@;
    let error = match reason {
        Some(error) => error@,
        None => actor::connection_closed(),
    };
    let told = actor::all(actions@);
    effects::teardown_closes_and_empties(before);
    effects::teardown_tells_the_error_to_those_who_wait(before, told, error, closing, i, tid);
    if before.status.connected {
        assert(told.take(closing) == before.closing_actions());
        assert(told.take(closing)[1] == told[1]);
        effects::action_models_are_complete(actions@, 0);
        effects::action_models_are_complete(actions@, 1);
    }
    if closing <= i < actions@.len() {
        effects::action_models_are_complete(actions@, i);
        let id = choose|id: u16| #[trigger]
            before.pending.contains_key(id) && effects::tells(
                told[i],
                before.pending[id].waiter,
                Err(error),
            );
        assert(effects::tells(told[i], before.pending[id].waiter, Err(error)));
    }
    if before.pending.contains_key(tid) {
        let k = choose|k: int|
            closing <= k < told.len() && effects::tells(
                #[trigger] told[k],
                before.pending[tid].waiter,
                Err(error),
            );
        effects::action_models_are_complete(actions@, k);
    }
}

/// A socket that was opened starts the next generation. A failed attempt changes nothing
/// and is told to whoever it was for.
pub proof fn connection_attempts_end(
    actor: &mut Actor,
    dialing: Dialing,
    result: Result<(), ModbusError>,
    now: Instant,
    actions: Vec<Action>,
)
    requires
        old(actor).status.generation < u64::MAX,
        call_ensures(Actor::dialed, (actor, dialing, result, now), actions),
    ensures
        result is Ok ==> {
            &&& final(actor)@.status.connected
            &&& final(actor)@.status.generation == old(actor)@.status.generation + 1
            &&& final(actor)@.pending == old(actor)@.pending
            &&& actions@.len() == 2
            &&& actions@[0] matches Action::Publish(status)
            &&& status == final(actor)@.status
            &&& match dialing {
                Dialing::ForCommand { ack } => actions@[1] matches Action::AcknowledgeConnect {
                    ack: told,
                    result: Ok(()),
                } && told == ack,
                Dialing::ForRequest(cmd) => now.nanos >= cmd.queue_deadline.nanos ==> (
                actions@[1] matches Action::Answer {
                    waiter,
                    outcome: Err(ModbusError::QueueTimeout),
                } && waiter == cmd.waiter),
            }
        },
        result matches Err(error) ==> {
            &&& final(actor)@ == old(actor)@
            &&& match dialing {
                Dialing::ForCommand { ack } => {
                    &&& actions@.len() == 1
                    &&& actions@[0] matches Action::AcknowledgeConnect { ack: told, result: Err(e)
                    }
                    &&& told == ack
                    &&& e@ == error@
                },
                Dialing::ForRequest(cmd) => {
                    &&& actions@.len() == 2
                    &&& actions@[0] matches Action::Answer { waiter, outcome: Err(e) }
                    &&& waiter == cmd.waiter
                    &&& e@ == error@
                    &&& actions@[1] matches Action::FailBacklog(f)
                    &&& f@ == error@
                },
            }
        },
{
    let told = actor::all(actions@);
    assert(told.len() == actions@.len());
    effects::action_models_are_complete(actions@, 0);
    if actions@.len() == 2 {
        effects::action_models_are_complete(actions@, 1);
    }
}

/// Requests that are queued when an attempt fails are answered with its error, each of
/// them once and in their order.
pub proof fn queued_requests_fail_with_the_attempt(
    actor: Actor,
    commands: Vec<RequestCommand>,
    error: ModbusError,
    actions: Vec<Action>,
    i: int,
)
    requires
        call_ensures(Actor::fail_backlog, (&actor, &commands, &error), actions),
    ensures
        actions@.len() == commands@.len(),
        0 <= i < actions@.len() ==> {
            &&& actions@[i] matches Action::Answer { waiter, outcome: Err(e) }
            &&& waiter == commands@[i].waiter
            &&& e@ == error@
        },
{
    if 0 <= i < actions@.len() {
        assert(actions@[i]@ == (ActionView::Answer {
            waiter: commands@[i].waiter,
            outcome: Err(error@),
        }));
    }
}

/// What follows an event is what follows the call that is made for it.
pub proof fn events_are_handled(
    actor: &mut Actor,
    event: Event,
    now: Instant,
    closed: &[u64],
    actions: Vec<Action>,
)
    requires
        event matches Event::Frame(frame) ==> frame@.len() >= 2,
        now.nanos + old(actor).flow.quarantine_ttl.nanos <= u128::MAX,
        call_ensures(Actor::handle, (actor, event, now, closed), actions),
    ensures
        match event {
            Event::Control(ControlCommand::Connect { ack }) => {
                &&& final(actor)@ == old(actor)@
                &&& actions@.len() == 1
                &&& old(actor)@.status.connected ==> (
                actions@[0] matches Action::AcknowledgeConnect { ack: told, result: Ok(()) } && told
                    == ack)
                &&& !old(actor)@.status.connected ==> (actions@[0] matches Action::Dial(
                    Dialing::ForCommand { ack: told },
                ) && told == ack)
            },
            Event::Control(ControlCommand::Disconnect { ack }) => {
                &&& !final(actor)@.status.connected
                &&& final(actor)@.pending.dom().len() == 0
                &&& actions@.len() >= 1
                &&& actions@[actions@.len() - 1] matches Action::AcknowledgeDisconnect { ack: told }
                &&& told == ack
            },
            Event::ControlClosed => {
                &&& final(actor)@ == (ActorView { ctrl_closed: true, ..old(actor)@ })
                &&& actions@.len() == 0
            },
            Event::RequestsClosed => {
                &&& final(actor)@ == (ActorView { req_closed: true, ..old(actor)@ })
                &&& actions@.len() == 0
            },
            Event::Request(cmd) => {
                &&& final(actor)@ == old(actor)@.dispatched(cmd@, now)
                &&& actions@.len() == 1
                &&& actions@[0]@ == old(actor)@.dispatch_action(cmd@, now)
            },
            Event::Frame(frame) => {
                &&& final(actor)@ == old(actor)@.routed((256 * frame@[0] + frame@[1]) as u16)
                &&& actor::all(actions@) == old(actor)@.route_actions(frame@)
            },
            Event::StreamFailed(error) => {
                &&& !final(actor)@.status.connected
                &&& final(actor)@.pending.dom().len() == 0
                &&& old(actor)@.teardown_actions(
                    actor::all(actions@),
                    match error {
                        MbapCodecError::Io(failure) => ErrorView::ReadError(failure@),
                        MbapCodecError::Modbus(cause) => cause@,
                    },
                )
            },
            Event::StreamEnded => {
                &&& !final(actor)@.status.connected
                &&& final(actor)@.pending.dom().len() == 0
                &&& old(actor)@.teardown_actions(
                    actor::all(actions@),
                    ErrorView::ReadError(
                        crate::error::IoErrorView {
                            kind: IoErrorKind::UnexpectedEof,
                            message: "peer closed connection"@,
                            raw_os_error: None,
                        },
                    ),
                )
            },
            Event::Woken => {
                &&& final(actor)@ == old(actor)@.swept(now, closed@)
                &&& actor::answers(
                    actor::all(actions@),
                    old(actor)@.pending,
                    old(actor)@.expired(now).difference(old(actor)@.given_up(closed@)),
                    Err(ErrorView::ReadTimeout),
                )
            },
        },
{
    let told = actor::all(actions@);
    assert(told.len() == actions@.len());
    if actions@.len() > 0 {
        effects::action_models_are_complete(actions@, 0);
        effects::action_models_are_complete(actions@, actions@.len() - 1);
    }
}

/// The defaults of a connection, field by field.
pub proof fn defaults_of_a_connection(
    timeouts: ModbusTcpTimeouts,
    flow: ModbusTcpFlowControl,
    serial: ModbusTcpFlowControl,
    retry: ModbusTcpRetry,
)
    requires
        call_ensures(<ModbusTcpTimeouts as Default>::default, (), timeouts),
        call_ensures(<ModbusTcpFlowControl as Default>::default, (), flow),
        call_ensures(ModbusTcpFlowControl::serial_gateway, (), serial),
        call_ensures(<ModbusTcpRetry as Default>::default, (), retry),
    ensures
        timeouts.connect_timeout.nanos == 5_000_000_000,
        timeouts.write_timeout.nanos == 5_000_000_000,
        timeouts.response_timeout.nanos == 5_000_000_000,
        flow.max_in_flight == 16 && flow.max_queue_depth == 128,
        flow.queue_timeout.nanos == 5_000_000_000 && flow.quarantine_ttl.nanos == 10_000_000_000,
        serial.max_in_flight == 1 && serial.max_queue_depth == 128,
        serial.queue_timeout.nanos == 5_000_000_000 && serial.quarantine_ttl.nanos
            == 10_000_000_000,
        retry.initial_delay.nanos == 500_000_000 && retry.max_delay is None,
        retry.multiplier.bits == 0x3FC0_0000,
        retry.max_elapsed.nanos == 2_000_000_000 && retry.max_times is None,
        retry.jitter && !retry.retry_gateway_busy,
{
}

/// A copy of a socket has the same settings.
pub proof fn copied_socket_has_the_same_settings(socket: ModbusTcpSocket, copy: ModbusTcpSocket)
    requires
        call_ensures(<ModbusTcpSocket as Clone>::clone, (&socket,), copy),
    ensures
        copy.host@ == socket.host@ && copy.port == socket.port && copy.unit_id == socket.unit_id,
        copy.transaction_id == socket.transaction_id && copy.timeouts == socket.timeouts,
        copy.flow_control == socket.flow_control && copy.retry == socket.retry,
{
}

/// A stream is cut at its length fields: the frame that is complete leaves the buffer, and
/// nothing else does.
pub proof fn streams_are_cut_into_frames(
    codec: &mut MbapCodec,
    src: &mut bytes::BytesMut,
    result: Result<Option<Vec<u8>>, MbapCodecError>,
)
    requires
        call_ensures(MbapCodec::decode, (codec, src), result),
    ensures
        ({
            let before = codec::buffered(*old(src));
            let after = codec::buffered(*final(src));
            let length = 256 * before[4] + before[5];
            &&& before.len() < 7 ==> (result matches Ok(none) && none is None) && after == before
            &&& before.len() >= 7 && (length < 2 || length > 254) ==> {
                &&& result matches Err(MbapCodecError::Modbus(e))
                &&& e is MalformedResponse
                &&& after == before
            }
            &&& before.len() >= 7 && 2 <= length <= 254 && before.len() < 6 + length ==> (
            result matches Ok(none) && none is None) && after == before
            &&& before.len() >= 7 && 2 <= length <= 254 && before.len() >= 6 + length ==> {
                &&& result matches Ok(Some(frame))
                &&& frame@ == before.take(6 + length)
                &&& after == before.skip(6 + length)
            }
        }),
{
    codec::frames_end_where_their_length_says(codec::buffered(*old(src)));
}

/// What is encoded is appended as it is.
pub proof fn frames_are_appended(
    codec: &mut MbapCodec,
    item: Vec<u8>,
    dst: &mut bytes::BytesMut,
    result: Result<(), MbapCodecError>,
)
    requires
        codec::buffered(*old(dst)).len() + item@.len() <= isize::MAX,
        call_ensures(MbapCodec::encode, (codec, item, dst), result),
    ensures
        result is Ok,
        codec::buffered(*final(dst)) == codec::buffered(*old(dst)) + item@,
{
}

/// Everyone who waits is told the category and the reason that were given.
pub proof fn waiting_callers_are_drained(
    pending: &mut HashMap<u16, u64>,
    kind: IoErrorKind,
    reason: &str,
    failures: Vec<Failure>,
    i: int,
    tid: u16,
)
    requires
        call_ensures(connected_state::drain_pending, (pending, kind, reason), failures),
    ensures
        final(pending)@ == Map::<u16, u64>::empty(),
        failures@.len() == old(pending)@.dom().len(),
        0 <= i < failures@.len() ==> {
            &&& failures@[i].error matches ModbusError::ReadError(e)
            &&& e.kind == kind
            &&& e.message@ == reason@
        },
        old(pending)@.contains_key(tid) ==> exists|k: int|
            0 <= k < failures@.len() && (#[trigger] failures@[k]).waiter == old(pending)@[tid],
{
    connected_state::everyone_is_told_once(
        failures@,
        old(pending)@,
        crate::error::IoErrorView { kind, message: reason@, raw_os_error: None },
        i,
        tid,
    );
}

/// The state of a connection names its generation and whether its reader has ended.
pub proof fn states_are_described(generation: u64, finished: bool, rendered: String)
    requires
        call_ensures(connected_state::state_text, (generation, finished), rendered),
    ensures
        rendered@ == "ConnectedState { generation: "@ + crate::text::decimal(generation as nat)
            + ", reader_finished: "@ + crate::text::boolean(finished) + ", .. }"@,
{
}

/// The actor sleeps until the first deadline and no longer, and frees what was reserved
/// up to now.
pub proof fn actor_sleeps_and_frees(
    actor: Actor,
    now: Instant,
    wake: Option<Instant>,
    later: &mut Actor,
    tid: u16,
)
    requires
        now.nanos + 10_000_000 <= u128::MAX,
        call_ensures(Actor::earliest_wake, (&actor, now), wake),
        call_ensures(Actor::reclaim_quarantine, (later, now), ()),
    ensures
        actor.pending@.contains_key(tid) ==> (wake matches Some(at) && at.nanos
            <= actor.pending@[tid].response_deadline.nanos),
        actor.quarantined@.contains_key(tid) ==> (wake matches Some(at) && at.nanos
            <= actor.quarantined@[tid].nanos),
        actor.pending@.dom().len() > 0 ==> (wake matches Some(at) && at.nanos <= now.nanos
            + 10_000_000),
        final(later)@.quarantined.contains_key(tid) <==> old(later)@.quarantined.contains_key(tid)
            && old(later)@.quarantined[tid].nanos > now.nanos,
        final(later)@.pending == old(later)@.pending,
        final(later)@.next_tid == old(later)@.next_tid,
        final(later)@.status == old(later)@.status,
{
    effects::sleep_ends_in_time(actor@, now, wake, tid);
    effects::reservations_end_at_their_time(old(later)@, now, tid);
}

/// A connect command is acknowledged at once where a socket is open, and otherwise dials
/// one. A disconnect command closes what is open and is acknowledged last.
pub proof fn commands_are_followed(
    actor: &mut Actor,
    command: ControlCommand,
    actions: Vec<Action>,
)
    requires
        call_ensures(Actor::control, (actor, command), actions),
    ensures
        match command {
            ControlCommand::Connect { ack } => {
                &&& final(actor)@ == old(actor)@
                &&& actions@.len() == 1
                &&& old(actor)@.status.connected ==> (
                actions@[0] matches Action::AcknowledgeConnect { ack: told, result: Ok(()) } && told
                    == ack)
                &&& !old(actor)@.status.connected ==> (actions@[0] matches Action::Dial(
                    Dialing::ForCommand { ack: told },
                ) && told == ack)
            },
            ControlCommand::Disconnect { ack } => {
                &&& !final(actor)@.status.connected
                &&& final(actor)@.status.generation == old(actor)@.status.generation
                &&& final(actor)@.pending.dom().len() == 0
                &&& actions@.len() >= 1
                &&& actions@[actions@.len() - 1] matches Action::AcknowledgeDisconnect { ack: told }
                &&& told == ack
            },
        },
{
    let told = actor::all(actions@);
    assert(told.len() == actions@.len());
    effects::action_models_are_complete(actions@, 0);
    effects::action_models_are_complete(actions@, actions@.len() - 1);
}

/// An actor starts without a socket, in generation zero, with the settings and the first
/// id that it was given.
pub proof fn new_actors_start_empty(
    host: String,
    port: u16,
    timeouts: ModbusTcpTimeouts,
    flow: ModbusTcpFlowControl,
    transaction_id: u16,
    actor: Actor,
    tid: u16,
)
    requires
        call_ensures(Actor::new, (host, port, timeouts, flow, transaction_id), actor),
    ensures
        actor.host@ == host@ && actor.port == port && actor.timeouts == timeouts && actor.flow
            == flow && actor.next_tid == transaction_id,
        !actor.status.connected && actor.status.generation == 0,
        !actor.pending@.contains_key(tid) && !actor.quarantined@.contains_key(tid),
        !actor.ctrl_closed && !actor.req_closed,
{
}

} // verus!
