//! What holds of the transport as a whole.

use vstd::prelude::*;

use crate::big_endian;
use crate::error::ErrorView;
use crate::request::RequestView;
use crate::response::{self, ResponseView};
use crate::tcp::actor::{
    self, ActionView, ActorView, CommandView, DialingView, PendingEntry, MAX_TID_PROBES,
};
use crate::tcp::adu;
use crate::tcp::pending;
use crate::tcp::socket::SocketView;
use crate::tcp::status::ConnectionStatus;
use crate::tcp::tcp_connection;
use crate::time::Instant;

verus! {

/// A fresh actor is well formed, and everything that happens to a well-formed actor
/// leaves it so: no transaction id is ever on the wire and reserved at once.
pub proof fn every_transition_keeps_ids_apart(
    actor: ActorView,
    now: Instant,
    cmd: CommandView,
    dialing: DialingView,
    result: Result<(), ErrorView>,
    tid: u16,
    tids: Set<u16>,
    closed: Seq<u64>,
)
    requires
        actor.wf(),
        tids.subset_of(actor.pending.dom()),
    ensures
        actor.reclaimed(now).wf(),
        actor.allocated(now).wf(),
        actor.dispatched(cmd, now).wf(),
        actor.after_dialing(dialing, result, now).wf(),
        actor.torn_down().wf(),
        actor.routed(tid).wf(),
        actor.quarantining(tids, now).wf(),
        actor.swept(now, closed).wf(),
{
}

/// The actor that a socket's settings ask for is well formed and has nothing on
/// the wire.
pub proof fn new_actor_keeps_ids_apart(socket: SocketView)
    ensures
        socket.actor().wf(),
        socket.actor().taken() == Set::<u16>::empty(),
{
    assert(socket.actor().taken() =~= Set::<u16>::empty());
}

/// A request gets a transaction id that is neither on the wire nor reserved. Once
/// its frame is written, no other request has lost its entry, and ids are still
/// kept apart.
pub proof fn sent_request_gets_a_free_id(actor: ActorView, cmd: CommandView, now: Instant, at: Instant)
    requires
        actor.wf(),
        actor.write_action(cmd, now) is Send,
    ensures
        ({
            let tid = actor.write_action(cmd, now)->tid;
            let allocated = actor.allocated(now);
            let after = allocated.on_the_wire(tid, cmd.waiter, at);
            &&& !allocated.taken().contains(tid)
            &&& after.wf()
            &&& after.pending.dom() == actor.pending.dom().insert(tid)
            &&& after.pending[tid].waiter == cmd.waiter
            &&& forall|other: u16|
                other != tid && actor.pending.contains_key(other) ==> after.pending[other]
                    == actor.pending[other]
        }),
{
    let tid = actor.write_action(cmd, now)->tid;
    let allocated = actor.allocated(now);
    pending::allocated_id_is_free(
        actor.reclaimed(now).taken(),
        actor.next_tid,
        MAX_TID_PROBES as nat,
    );
    assert(allocated.taken() =~= actor.reclaimed(now).taken());
    let after = allocated.on_the_wire(tid, cmd.waiter, at);
    assert(after.pending.dom() =~= actor.pending.dom().insert(tid));
}

/// As long as nothing is taken, transaction ids count up from the first one with
/// wrap-around.
pub proof fn free_ids_count_up(actor: ActorView, now: Instant)
    requires
        !actor.taken().contains(actor.next_tid),
    ensures
        actor.allocation(now) == Some(actor.next_tid),
        actor.allocated(now).next_tid == pending::tid_after(actor.next_tid, 1),
{
    assert(!actor.reclaimed(now).taken().contains(actor.next_tid));
}

/// A request fails for want of a transaction id only if every id is on the wire or
/// reserved.
pub proof fn ids_run_out_only_when_all_are_taken(actor: ActorView, now: Instant)
    ensures
        actor.allocation(now) is None <==> forall|tid: u16|
            actor.reclaimed(now).taken().contains(tid),
{
    pending::allocation_fails_only_when_all_ids_are_taken(
        actor.reclaimed(now).taken(),
        actor.next_tid,
    );
}

/// Requests are taken only while there is room, so that never more of them are on
/// the wire than flow control allows; nothing else adds to them.
pub proof fn in_flight_requests_stay_bounded(
    actor: ActorView,
    cmd: CommandView,
    now: Instant,
    at: Instant,
    closed: Seq<u64>,
    tid: u16,
)
    requires
        actor.wf(),
        actor.pending.dom().finite(),
        actor.pending.dom().len() <= actor.flow.max_in_flight,
    ensures
        actor.has_room() && actor.write_action(cmd, now) is Send ==> actor.allocated(
            now,
        ).on_the_wire(actor.write_action(cmd, now)->tid, cmd.waiter, at).pending.dom().len()
            <= actor.flow.max_in_flight,
        actor.allocated(now).pending == actor.pending,
        actor.opened().pending == actor.pending,
        actor.routed(tid).pending.dom().len() <= actor.flow.max_in_flight,
        actor.swept(now, closed).pending.dom().len() <= actor.flow.max_in_flight,
        actor.torn_down().pending.dom().len() == 0,
{
    if actor.write_action(cmd, now) is Send {
        sent_request_gets_a_free_id(actor, cmd, now, at);
    }
    vstd::set_lib::lemma_len_subset(actor.routed(tid).pending.dom(), actor.pending.dom());
    vstd::set_lib::lemma_len_subset(actor.swept(now, closed).pending.dom(), actor.pending.dom());
}

/// Every request that is taken is in exactly one place: it is answered, or a socket
/// is dialed for it, or its frame is written. No other caller hears of it.
pub proof fn dispatched_request_is_accounted_for(actor: ActorView, cmd: CommandView, now: Instant)
    ensures
        match actor.dispatch_action(cmd, now) {
            ActionView::Answer { waiter, outcome } => waiter == cmd.waiter && outcome is Err,
            ActionView::Dial(dialing) => dialing == DialingView::ForRequest(cmd),
            ActionView::Send { waiter, .. } => waiter == cmd.waiter,
            _ => false,
        },
{
}

/// A request that waited too long is answered without a transaction id being used
/// or a socket being touched.
pub proof fn late_request_touches_nothing(actor: ActorView, cmd: CommandView, now: Instant)
    requires
        now.spec_reached(cmd.queue_deadline),
    ensures
        actor.dispatched(cmd, now) == actor,
        actor.dispatch_action(cmd, now) == (ActionView::Answer {
            waiter: cmd.waiter,
            outcome: Err(ErrorView::QueueTimeout),
        }),
{
}

/// A response answers the request with its transaction id and no other. It takes
/// that request off the wire, and leaves everything else as it is.
pub proof fn response_answers_its_request_only(actor: ActorView, frame: Seq<u8>, other: u16)
    requires
        frame.len() >= 2,
        other != big_endian::be_word(frame[0], frame[1]),
    ensures
        ({
            let tid = big_endian::be_word(frame[0], frame[1]);
            let after = actor.routed(tid);
            &&& !after.pending.contains_key(tid)
            &&& after.pending.contains_key(other) == actor.pending.contains_key(other)
            &&& actor.pending.contains_key(other) ==> after.pending[other] == actor.pending[other]
            &&& after.quarantined.contains_key(other) == actor.quarantined.contains_key(other)
            &&& after.status == actor.status
            &&& actor.pending.contains_key(tid) ==> actor.route_actions(frame) == seq![
                ActionView::Answer { waiter: actor.pending[tid].waiter, outcome: Ok(frame) },
            ]
        }),
{
}

/// Responses are matched by their transaction ids, whatever the order in which they
/// arrive.
pub proof fn responses_may_arrive_in_any_order(actor: ActorView, first: Seq<u8>, second: Seq<u8>)
    requires
        first.len() >= 2,
        second.len() >= 2,
        big_endian::be_word(first[0], first[1]) != big_endian::be_word(second[0], second[1]),
    ensures
        ({
            let a = big_endian::be_word(first[0], first[1]);
            let b = big_endian::be_word(second[0], second[1]);
            &&& actor.routed(a).routed(b) == actor.routed(b).routed(a)
            &&& actor.routed(a).route_actions(second) == actor.route_actions(second)
            &&& actor.routed(b).route_actions(first) == actor.route_actions(first)
        }),
{
    let a = big_endian::be_word(first[0], first[1]);
    let b = big_endian::be_word(second[0], second[1]);
    assert(actor.routed(a).routed(b).pending =~= actor.routed(b).routed(a).pending);
    assert(actor.routed(a).routed(b).quarantined =~= actor.routed(b).routed(a).quarantined);
}

/// A response that comes after its request was given up or timed out is discarded,
/// and its transaction id is free again. One with an unknown id changes nothing.
pub proof fn late_response_is_discarded(actor: ActorView, frame: Seq<u8>)
    requires
        frame.len() >= 2,
        !actor.pending.contains_key(big_endian::be_word(frame[0], frame[1])),
    ensures
        ({
            let tid = big_endian::be_word(frame[0], frame[1]);
            &&& actor.route_actions(frame) == Seq::<ActionView>::empty()
            &&& !actor.routed(tid).taken().contains(tid)
            &&& actor.routed(tid).pending == actor.pending
            &&& !actor.quarantined.contains_key(tid) ==> actor.routed(tid) == actor
        }),
{
    let tid = big_endian::be_word(frame[0], frame[1]);
    if !actor.quarantined.contains_key(tid) {
        assert(actor.routed(tid).quarantined =~= actor.quarantined);
    }
}

/// A request that was given up or whose time has passed is off the wire, and its
/// transaction id is reserved for the time that flow control sets.
pub proof fn abandoned_id_is_reserved(actor: ActorView, now: Instant, closed: Seq<u64>, tid: u16)
    requires
        actor.given_up(closed).contains(tid) || actor.expired(now).contains(tid),
        now.can_add(actor.flow.quarantine_ttl),
        actor.flow.quarantine_ttl.nanos > 0,
    ensures
        ({
            let after = actor.swept(now, closed);
            &&& !after.pending.contains_key(tid)
            &&& after.quarantined.contains_key(tid)
            &&& after.quarantined[tid] == now.spec_plus(actor.flow.quarantine_ttl)
        }),
{
}

/// Until its reservation ends, a transaction id is not given out, and nothing that
/// happens to the actor ends the reservation or changes its end, but for the late
/// response with that id.
pub proof fn reserved_id_stays_reserved(
    actor: ActorView,
    tid: u16,
    later: Instant,
    cmd: CommandView,
    dialing: DialingView,
    result: Result<(), ErrorView>,
    closed: Seq<u64>,
    other: u16,
    waiter: u64,
    at: Instant,
)
    requires
        actor.wf(),
        actor.quarantined.contains_key(tid),
        later.nanos < actor.quarantined[tid].nanos,
        other != tid,
    ensures
        actor.allocation(later) != Some(tid),
        actor.reclaimed(later).reserves(tid, actor.quarantined[tid]),
        actor.allocated(later).reserves(tid, actor.quarantined[tid]),
        actor.dispatched(cmd, later).reserves(tid, actor.quarantined[tid]),
        actor.after_dialing(dialing, result, later).reserves(tid, actor.quarantined[tid]),
        actor.swept(later, closed).reserves(tid, actor.quarantined[tid]),
        actor.torn_down().reserves(tid, actor.quarantined[tid]),
        actor.on_the_wire(other, waiter, at).reserves(tid, actor.quarantined[tid]),
        actor.routed(other).reserves(tid, actor.quarantined[tid]),
        actor.pending.contains_key(other) ==> actor.quarantining(set![other], at).reserves(
            tid,
            actor.quarantined[tid],
        ),
{
    pending::allocated_id_is_free(
        actor.reclaimed(later).taken(),
        actor.next_tid,
        MAX_TID_PROBES as nat,
    );
    assert(actor.reclaimed(later).taken().contains(tid));
}

/// A look at the deadlines never closes the socket, and leaves the requests whose
/// time has not come as they are.
pub proof fn timeouts_leave_the_others_alone(
    actor: ActorView,
    now: Instant,
    closed: Seq<u64>,
    other: u16,
)
    requires
        actor.pending.contains_key(other),
        !actor.given_up(closed).contains(other),
        !actor.expired(now).contains(other),
    ensures
        ({
            let after = actor.swept(now, closed);
            &&& after.pending.contains_key(other)
            &&& after.pending[other] == actor.pending[other]
            &&& after.status == actor.status
        }),
{
}

/// A teardown answers as many callers as there are pending requests: every one of
/// them, and none twice.
pub proof fn teardown_answers_everyone_once(
    actor: ActorView,
    actions: Seq<ActionView>,
    error: ErrorView,
)
    requires
        actor.teardown_actions(actions, error),
    ensures
        actions.len() == actor.closing_actions().len() + actor.pending.dom().len(),
        forall|tid: u16| #[trigger]
            actor.pending.contains_key(tid) ==> actions.contains(
                ActionView::Answer { waiter: actor.pending[tid].waiter, outcome: Err(error) },
            ),
        actor.torn_down().pending == Map::<u16, PendingEntry>::empty(),
{
    let closing = actor.closing_actions().len() as int;
    let answering = actions.skip(closing);
    let outcome = Err::<Seq<u8>, ErrorView>(error);
    answers_are_complete(answering, actor.pending, actor.pending.dom(), outcome);
    assert(actions.len() == closing + answering.len());
    assert forall|tid: u16| #[trigger] actor.pending.contains_key(tid) implies actions.contains(
        ActionView::Answer { waiter: actor.pending[tid].waiter, outcome },
    ) by {
        let told = ActionView::Answer { waiter: actor.pending[tid].waiter, outcome };
        assert(answering.contains(told));
        let i = choose|i: int| 0 <= i < answering.len() && answering[i] == told;
        assert(actions[closing + i] == told);
    }
}

/// Answers to a set of requests are as many as the requests, and none is left out.
proof fn answers_are_complete(
    actions: Seq<ActionView>,
    pending: Map<u16, PendingEntry>,
    tids: Set<u16>,
    outcome: Result<Seq<u8>, ErrorView>,
)
    requires
        actor::answers(actions, pending, tids, outcome),
    ensures
        actions.len() == tids.len(),
        forall|tid: u16| #[trigger]
            tids.contains(tid) ==> actions.contains(
                ActionView::Answer { waiter: pending[tid].waiter, outcome },
            ),
{
    let order = choose|order: Seq<u16>| #[trigger]
        pending::lists(order, tids) && actions == actor::answers_in_order(order, pending, outcome);
    order.unique_seq_to_set();
    assert forall|tid: u16| #[trigger] tids.contains(tid) implies actions.contains(
        ActionView::Answer { waiter: pending[tid].waiter, outcome },
    ) by {
        assert(order.to_set().contains(tid));
        assert(order.contains(tid));
        let i = choose|i: int| 0 <= i < order.len() && order[i] == tid;
        assert(actions[i] == (ActionView::Answer { waiter: pending[tid].waiter, outcome }));
    }
}

/// A look at the deadlines answers the requests whose time has passed: every one of
/// them that was not given up, and none twice.
pub proof fn timed_out_requests_are_answered_once(
    actor: ActorView,
    now: Instant,
    closed: Seq<u64>,
    actions: Seq<ActionView>,
)
    requires
        actor::answers(
            actions,
            actor.pending,
            actor.expired(now).difference(actor.given_up(closed)),
            Err(ErrorView::ReadTimeout),
        ),
    ensures
        actions.len() == actor.expired(now).difference(actor.given_up(closed)).len(),
        forall|tid: u16|
            #![trigger actor.expired(now).contains(tid)]
            actor.expired(now).contains(tid) && !actor.given_up(closed).contains(tid)
                ==> actions.contains(
                ActionView::Answer {
                    waiter: actor.pending[tid].waiter,
                    outcome: Err(ErrorView::ReadTimeout),
                },
            ),
{
    let late = actor.expired(now).difference(actor.given_up(closed));
    answers_are_complete(actions, actor.pending, late, Err(ErrorView::ReadTimeout));
    assert forall|tid: u16|
        #![trigger actor.expired(now).contains(tid)]
        actor.expired(now).contains(tid) && !actor.given_up(closed).contains(
            tid,
        ) implies actions.contains(
        ActionView::Answer {
            waiter: actor.pending[tid].waiter,
            outcome: Err(ErrorView::ReadTimeout),
        },
    ) by {
        assert(late.contains(tid));
    }
}

/// No request is lost: one that is on the wire leaves it only by its response, by
/// being given up, by its deadline, or by a teardown.
pub proof fn pending_request_is_never_lost(
    actor: ActorView,
    tid: u16,
    cmd: CommandView,
    dialing: DialingView,
    result: Result<(), ErrorView>,
    now: Instant,
    closed: Seq<u64>,
    frame: Seq<u8>,
)
    requires
        actor.pending.contains_key(tid),
        frame.len() >= 2,
    ensures
        actor.dispatched(cmd, now).pending == actor.pending,
        actor.after_dialing(dialing, result, now).pending == actor.pending,
        actor.reclaimed(now).pending == actor.pending,
        ({
            let routed = actor.routed(big_endian::be_word(frame[0], frame[1]));
            routed.pending.contains_key(tid) || actor.route_actions(frame) == seq![
                ActionView::Answer { waiter: actor.pending[tid].waiter, outcome: Ok(frame) },
            ]
        }),
        actor.swept(now, closed).pending.contains_key(tid) || actor.given_up(closed).contains(tid)
            || actor.expired(now).contains(tid),
{
}

/// The generation counts the sockets that were opened: a successful connection
/// attempt adds one, a failed one nothing, and no other event changes it.
pub proof fn generation_counts_opened_sockets(
    actor: ActorView,
    dialing: DialingView,
    result: Result<(), ErrorView>,
    now: Instant,
    cmd: CommandView,
    tid: u16,
    waiter: u64,
    closed: Seq<u64>,
)
    requires
        actor.status.generation < u64::MAX,
    ensures
        actor.after_dialing(dialing, result, now).status.generation == actor.status.generation + (
        if result is Ok {
            1int
        } else {
            0int
        }),
        result is Ok ==> actor.after_dialing(dialing, result, now).status.connected,
        result is Err ==> actor.after_dialing(dialing, result, now) == actor,
        actor.torn_down().status.generation == actor.status.generation,
        !actor.torn_down().status.connected,
        actor.dispatched(cmd, now).status == actor.status,
        actor.routed(tid).status == actor.status,
        actor.swept(now, closed).status == actor.status,
        actor.on_the_wire(tid, waiter, now).status == actor.status,
{
}

/// Closing what is closed already changes nothing and publishes nothing.
pub proof fn second_disconnect_is_silent(actor: ActorView, actions: Seq<ActionView>, ack: u64)
    requires
        actor.torn_down().disconnect_actions(actions, ack),
    ensures
        actor.torn_down().torn_down() == actor.torn_down(),
        actions == seq![ActionView::AcknowledgeDisconnect { ack }],
{
    let closed = actor.torn_down();
    teardown_answers_everyone_once(
        closed,
        actions.drop_last(),
        actor::connection_closed(),
    );
    assert(actions.len() == 1);
    assert(actions =~= seq![ActionView::AcknowledgeDisconnect { ack }]);
}

/// A connection that was dropped and reopened is a different generation, so that one
/// who looks only before and after still sees the change.
pub proof fn reconnecting_moves_the_generation(
    actor: ActorView,
    dialing: DialingView,
    now: Instant,
)
    requires
        actor.status.generation < u64::MAX,
    ensures
        actor.torn_down().after_dialing(dialing, Ok(()), now).status.generation
            == actor.status.generation + 1,
        actor.torn_down().after_dialing(dialing, Ok(()), now).status.connected,
{
}

/// A response frame is answered to the very caller whose transaction id it carries,
/// and that caller learns what the frame's PDU says to its request: an exception as
/// an error, everything else as far as it belongs to the request.
pub proof fn response_reaches_its_caller(
    actor: ActorView,
    tid: u16,
    unit_id: u8,
    request: RequestView,
    pdu: Seq<u8>,
)
    requires
        actor.pending.contains_key(tid),
        1 + pdu.len() <= 0xFFFF,
    ensures
        ({
            let frame = adu::framed(tid, 0, unit_id, pdu);
            &&& actor.route_actions(frame) == seq![
                ActionView::Answer { waiter: actor.pending[tid].waiter, outcome: Ok(frame) },
            ]
            &&& tcp_connection::understood(unit_id, request, frame) == match response::decoded(
                pdu,
                None,
            ) {
                Ok(ResponseView::Exception { function, code }) => Err(
                    ErrorView::ExceptionResponse { function, code },
                ),
                Ok(response) => response::aligned(request, response),
                Err(e) => Err(e),
            }
        }),
{
    adu::header_fields_read_back(tid, 0, unit_id, pdu);
}

/// A write that a device acknowledges, by a frame with the request's transaction id
/// and unit and an echo of its PDU, is answered to the very caller that sent it, and
/// that caller learns that the write was acknowledged.
pub proof fn acknowledged_write_reaches_its_caller(
    actor: ActorView,
    tid: u16,
    unit_id: u8,
    request: RequestView,
)
    requires
        actor.pending.contains_key(tid),
        request.valid(),
        request.function_code() >= 5,
    ensures
        ({
            let echo = request.encoded().take(5);
            let frame = adu::framed(tid, 0, unit_id, echo);
            &&& actor.route_actions(frame) == seq![
                ActionView::Answer { waiter: actor.pending[tid].waiter, outcome: Ok(frame) },
            ]
            &&& tcp_connection::understood(unit_id, request, frame) matches Ok(response)
                && response::decoded(echo, None) == Ok::<ResponseView, ErrorView>(response)
        }),
{
    let echo = request.encoded().take(5);
    response_reaches_its_caller(actor, tid, unit_id, request, echo);
    response::echoed_write_is_accepted(request);
}

/// A read that a device answers with the registers' bytes is answered to the very
/// caller that sent it, and that caller gets those registers.
pub proof fn read_registers_reach_their_caller(
    actor: ActorView,
    tid: u16,
    unit_id: u8,
    starting_address: u16,
    registers: Seq<u16>,
)
    requires
        actor.pending.contains_key(tid),
        1 <= registers.len() <= crate::request::MAX_READ_HOLDING_REGISTERS,
    ensures
        ({
            let request = RequestView::ReadHoldingRegisters {
                starting_address,
                quantity: registers.len() as u16,
            };
            let bytes = big_endian::be_words_bytes(registers);
            let frame = adu::framed(tid, 0, unit_id, seq![3u8, bytes.len() as u8] + bytes);
            &&& actor.route_actions(frame) == seq![
                ActionView::Answer { waiter: actor.pending[tid].waiter, outcome: Ok(frame) },
            ]
            &&& tcp_connection::understood(unit_id, request, frame) == Ok::<
                ResponseView,
                ErrorView,
            >(ResponseView::ReadHoldingRegisters { registers })
        }),
{
    let request = RequestView::ReadHoldingRegisters {
        starting_address,
        quantity: registers.len() as u16,
    };
    let bytes = big_endian::be_words_bytes(registers);
    let pdu = seq![3u8, bytes.len() as u8] + bytes;
    response_reaches_its_caller(actor, tid, unit_id, request, pdu);
    response::registers_are_read_back(starting_address, registers);
}

/// A read of coils that a device answers with the packed coils is answered to the
/// very caller that sent it, and that caller gets those coils.
pub proof fn read_coils_reach_their_caller(
    actor: ActorView,
    tid: u16,
    unit_id: u8,
    starting_address: u16,
    coils: Seq<bool>,
)
    requires
        actor.pending.contains_key(tid),
        1 <= coils.len() <= crate::request::MAX_READ_COILS,
    ensures
        ({
            let request = RequestView::ReadCoils {
                starting_address,
                quantity: coils.len() as u16,
            };
            let bytes = crate::request::packed(coils);
            let frame = adu::framed(tid, 0, unit_id, seq![1u8, bytes.len() as u8] + bytes);
            &&& actor.route_actions(frame) == seq![
                ActionView::Answer { waiter: actor.pending[tid].waiter, outcome: Ok(frame) },
            ]
            &&& tcp_connection::understood(unit_id, request, frame) == Ok::<
                ResponseView,
                ErrorView,
            >(ResponseView::ReadCoils { coils })
        }),
{
    let request = RequestView::ReadCoils { starting_address, quantity: coils.len() as u16 };
    let bytes = crate::request::packed(coils);
    let pdu = seq![1u8, bytes.len() as u8] + bytes;
    response_reaches_its_caller(actor, tid, unit_id, request, pdu);
    response::packed_coils_are_read_back(starting_address, coils);
}

/// A frame of another protocol or for another unit is never taken for a response.
pub proof fn foreign_frames_are_rejected(
    unit_id: u8,
    request: RequestView,
    tid: u16,
    protocol_id: u16,
    frame_unit: u8,
    pdu: Seq<u8>,
)
    requires
        1 + pdu.len() <= 0xFFFF,
        protocol_id != 0 || frame_unit != unit_id,
    ensures
        tcp_connection::understood(
            unit_id,
            request,
            adu::framed(tid, protocol_id, frame_unit, pdu),
        ) == Err::<ResponseView, ErrorView>(
            if protocol_id != 0 {
                ErrorView::ProtocolIdMismatch { actual: protocol_id }
            } else {
                ErrorView::UnitIdMismatch { expected: unit_id, actual: frame_unit }
            },
        ),
{
    adu::header_fields_read_back(tid, protocol_id, frame_unit, pdu);
}

/// An exception that a device answers with, whatever the request was, is learned by
/// the caller as an error with its function and code, and never as a response.
pub proof fn exceptions_surface_as_errors(
    unit_id: u8,
    request: RequestView,
    tid: u16,
    function: u8,
    code: u8,
)
    requires
        function >= 0x80,
    ensures
        tcp_connection::understood(
            unit_id,
            request,
            adu::framed(tid, 0, unit_id, seq![function, code]),
        ) == Err::<ResponseView, ErrorView>(ErrorView::ExceptionResponse { function, code }),
        forall|frame: Seq<u8>|
            !(#[trigger] tcp_connection::understood(unit_id, request, frame) matches Ok(
                ResponseView::Exception { .. },
            )),
{
    adu::header_fields_read_back(tid, 0, unit_id, seq![function, code]);
}

/// A status is published only when it differs from the last one, by a teardown as
/// by a connection attempt.
pub proof fn published_status_is_news(
    actor: ActorView,
    dialing: DialingView,
    result: Result<(), ErrorView>,
    now: Instant,
    status: ConnectionStatus,
)
    requires
        actor.status.generation < u64::MAX,
        actor.closing_actions().contains(ActionView::Publish(status)) || actor.dialed_actions(
            dialing,
            result,
            now,
        ).contains(ActionView::Publish(status)),
    ensures
        status != actor.status,
{
    let publish = ActionView::Publish(status);
    if actor.closing_actions().contains(publish) {
        let i = choose|i: int|
            0 <= i < actor.closing_actions().len() && actor.closing_actions()[i] == publish;
        assert(actor.closing_actions()[i] == publish);
    } else {
        let actions = actor.dialed_actions(dialing, result, now);
        let i = choose|i: int| 0 <= i < actions.len() && actions[i] == publish;
        assert(actions[i] == publish);
    }
}

/// What one turn of the actor's loop takes up.
pub ghost enum Turn {
    /// A pending request that was given up.
    Cancel { closed: Seq<u64>, tid: u16, now: Instant },
    /// The end of the control commands.
    ControlClosed,
    /// A connect command.
    Connect,
    /// A disconnect command.
    Disconnect,
    /// The end of the requests.
    RequestsClosed,
    /// A request that was taken at `now`. A socket that is dialed for it is there at
    /// `dialed`, and its frame is written at `written`.
    Request { cmd: CommandView, now: Instant, dialed: Instant, written: Instant },
    /// A frame with this transaction id.
    Frame { tid: u16 },
    /// The end or the failure of the stream.
    StreamClosed,
    /// The passing of time.
    Wake { closed: Seq<u64>, now: Instant },
}

/// `after` is `before` once the request `cmd` needs no socket to be dialed any more:
/// it is answered, or its frame is written, or writing it fails.
pub open spec fn served(
    before: ActorView,
    after: ActorView,
    cmd: CommandView,
    now: Instant,
    written: Instant,
) -> bool {
    let dispatched = before.dispatched(cmd, now);
    match before.dispatch_action(cmd, now) {
        ActionView::Send { tid, waiter, .. } => {
            ||| after == dispatched.on_the_wire(tid, waiter, written)
            ||| after == dispatched.torn_down()
        },
        _ => after == dispatched,
    }
}

/// One turn of the actor's loop leads from `before` to `after`. The actor takes up
/// only what [`actor::Actor::next_step`] lets it take up.
pub open spec fn turned(before: ActorView, turn: Turn, after: ActorView) -> bool {
    &&& !before.finished()
    &&& match turn {
        Turn::Cancel { closed, tid, now } => {
            &&& before.given_up(closed).contains(tid)
            &&& after == before.quarantining(set![tid], now)
        },
        Turn::ControlClosed => {
            &&& !before.ctrl_closed
            &&& after == (ActorView { ctrl_closed: true, ..before })
        },
        Turn::Connect => {
            &&& !before.ctrl_closed
            &&& after == before || (!before.status.connected && after == before.opened())
        },
        Turn::Disconnect => !before.ctrl_closed && after == before.torn_down(),
        Turn::RequestsClosed => {
            &&& before.has_room()
            &&& after == (ActorView { req_closed: true, ..before })
        },
        Turn::Request { cmd, now, dialed, written } => {
            &&& before.has_room()
            &&& if before.dispatch_action(cmd, now) is Dial {
                after == before || served(before.opened(), after, cmd, dialed, written)
            } else {
                served(before, after, cmd, now, written)
            }
        },
        Turn::Frame { tid } => before.status.connected && after == before.routed(tid),
        Turn::StreamClosed => before.status.connected && after == before.torn_down(),
        Turn::Wake { closed, now } => after == before.swept(now, closed),
    }
}

/// What the actor's methods make of a request is a turn: [`actor::Actor::dispatch`]
/// takes it, [`actor::Actor::dialed`] goes on once a socket was dialed for it, and
/// [`actor::Actor::sent`] ends it once its frame was written or could not be.
pub proof fn request_is_a_turn(
    before: ActorView,
    cmd: CommandView,
    now: Instant,
    result: Result<(), ErrorView>,
    dialed: Instant,
    written: Instant,
)
    requires
        !before.finished(),
        before.has_room(),
    ensures
        ({
            let turn = Turn::Request { cmd, now, dialed, written };
            let dialing = DialingView::ForRequest(cmd);
            let taken = before.dispatched(cmd, now);
            let connected = before.after_dialing(dialing, result, dialed);
            match before.dispatch_action(cmd, now) {
                ActionView::Answer { .. } => turned(before, turn, taken),
                ActionView::Send { tid, waiter, .. } => {
                    &&& turned(before, turn, taken.on_the_wire(tid, waiter, written))
                    &&& turned(before, turn, taken.torn_down())
                },
                ActionView::Dial(asked) => {
                    &&& asked == dialing
                    &&& match before.dialed_actions(dialing, result, dialed).last() {
                        ActionView::Send { tid, waiter, .. } => {
                            &&& turned(before, turn, connected.on_the_wire(tid, waiter, written))
                            &&& turned(before, turn, connected.torn_down())
                        },
                        _ => turned(before, turn, connected),
                    }
                },
                _ => false,
            }
        }),
{
}

/// The states of an actor, turn by turn.
pub open spec fn is_run(run: Seq<ActorView>, turns: Seq<Turn>) -> bool {
    &&& run.len() == turns.len() + 1
    &&& forall|i: int|
        #![trigger turns[i]]
        0 <= i < turns.len() ==> turned(run[i], turns[i], run[i + 1])
}

/// At no point of a run are more requests on the wire than flow control allows, nor
/// is an id both on the wire and reserved. The run stops only once both command
/// channels are closed and nothing is pending, and then nothing follows.
pub proof fn run_stays_bounded_and_ends_when_done(
    run: Seq<ActorView>,
    turns: Seq<Turn>,
    i: int,
)
    requires
        is_run(run, turns),
        run[0].pending == Map::<u16, PendingEntry>::empty(),
        0 <= i < run.len(),
    ensures
        run[i].flow == run[0].flow,
        run[i].wf(),
        run[i].pending.dom().finite(),
        run[i].pending.dom().len() <= run[i].flow.max_in_flight,
        run[i].finished() ==> {
            &&& run[i].ctrl_closed
            &&& run[i].req_closed
            &&& run[i].pending == Map::<u16, PendingEntry>::empty()
            &&& i == run.len() - 1
        },
    decreases i,
{
    if i > 0 {
        run_stays_bounded_and_ends_when_done(run, turns, i - 1);
        assert(turned(run[i - 1], turns[i - 1], run[i]));
        turn_stays_bounded(run[i - 1], turns[i - 1], run[i]);
    }
    if run[i].finished() {
        assert(run[i].pending.dom() =~= Set::<u16>::empty());
        assert(run[i].pending =~= Map::<u16, PendingEntry>::empty());
        if i < turns.len() {
            assert(turned(run[i], turns[i], run[i + 1]));
        }
    }
}

/// One turn keeps the requests on the wire within flow control.
proof fn turn_stays_bounded(before: ActorView, turn: Turn, after: ActorView)
    requires
        turned(before, turn, after),
        before.wf(),
        before.pending.dom().finite(),
        before.pending.dom().len() <= before.flow.max_in_flight,
    ensures
        after.flow == before.flow,
        after.wf(),
        after.pending.dom().finite(),
        after.pending.dom().len() <= after.flow.max_in_flight,
{
    match turn {
        Turn::Request { cmd, now, dialed, written } => {
            if before.dispatch_action(cmd, now) is Dial {
                if after != before {
                    served_request_stays_bounded(before.opened(), after, cmd, dialed, written);
                }
            } else {
                served_request_stays_bounded(before, after, cmd, now, written);
            }
        },
        _ => {
            vstd::set_lib::lemma_len_subset(after.pending.dom(), before.pending.dom());
        },
    }
}

/// A request that is served keeps the requests on the wire within flow control.
proof fn served_request_stays_bounded(
    before: ActorView,
    after: ActorView,
    cmd: CommandView,
    now: Instant,
    written: Instant,
)
    requires
        served(before, after, cmd, now, written),
        before.wf(),
        before.has_room(),
        before.pending.dom().finite(),
    ensures
        after.flow == before.flow,
        after.wf(),
        after.pending.dom().finite(),
        after.pending.dom().len() <= after.flow.max_in_flight,
{
    if before.dispatch_action(cmd, now) is Send {
        sent_request_gets_a_free_id(before, cmd, now, written);
    }
}

/// A turn that looks at the clock does so before `end`.
pub open spec fn is_before(turn: Turn, end: Instant) -> bool {
    match turn {
        Turn::Request { now, dialed, .. } => now.nanos < end.nanos && dialed.nanos < end.nanos,
        Turn::Wake { now, .. } => now.nanos < end.nanos,
        _ => true,
    }
}

/// Throughout a run, a reserved transaction id is neither given out nor on the wire
/// until its reservation ends, as long as no late response with it arrives.
pub proof fn reserved_id_is_not_used_throughout(
    run: Seq<ActorView>,
    turns: Seq<Turn>,
    tid: u16,
    i: int,
)
    requires
        is_run(run, turns),
        run[0].wf(),
        run[0].quarantined.contains_key(tid),
        0 <= i < run.len(),
        forall|k: int|
            #![trigger turns[k]]
            0 <= k < turns.len() ==> is_before(turns[k], run[0].quarantined[tid]) && turns[k] != (
            Turn::Frame { tid }),
    ensures
        run[i].wf(),
        run[i].reserves(tid, run[0].quarantined[tid]),
        !run[i].pending.contains_key(tid),
    decreases i,
{
    if i > 0 {
        reserved_id_is_not_used_throughout(run, turns, tid, i - 1);
        assert(turned(run[i - 1], turns[i - 1], run[i]));
        turn_keeps_reservation(run[i - 1], turns[i - 1], run[i], tid);
    }
}

/// One turn keeps a reservation.
proof fn turn_keeps_reservation(before: ActorView, turn: Turn, after: ActorView, tid: u16)
    requires
        turned(before, turn, after),
        before.wf(),
        before.quarantined.contains_key(tid),
        is_before(turn, before.quarantined[tid]),
        turn != (Turn::Frame { tid }),
    ensures
        after.wf(),
        after.reserves(tid, before.quarantined[tid]),
{
    match turn {
        Turn::Request { cmd, now, dialed, written } => {
            if before.dispatch_action(cmd, now) is Dial {
                if after != before {
                    served_request_keeps_reservation(
                        before.opened(),
                        after,
                        cmd,
                        dialed,
                        written,
                        tid,
                    );
                }
            } else {
                served_request_keeps_reservation(before, after, cmd, now, written, tid);
            }
        },
        _ => {},
    }
}

/// A request that is served keeps a reservation.
proof fn served_request_keeps_reservation(
    before: ActorView,
    after: ActorView,
    cmd: CommandView,
    now: Instant,
    written: Instant,
    tid: u16,
)
    requires
        served(before, after, cmd, now, written),
        before.wf(),
        before.quarantined.contains_key(tid),
        now.nanos < before.quarantined[tid].nanos,
    ensures
        after.wf(),
        after.reserves(tid, before.quarantined[tid]),
{
    if before.dispatch_action(cmd, now) is Send {
        sent_request_gets_a_free_id(before, cmd, now, written);
    }
}

} // verus!
