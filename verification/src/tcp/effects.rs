//! What each event does to the actor, entry by entry and to the nanosecond.
//!
//! The laws of this module say which requests, reservations and deadlines there are
//! after an event, and what is left as it was.

use vstd::prelude::*;

use crate::error::{ErrorView, IoErrorKind, IoErrorView, ModbusError};
use crate::tcp::actor::{
    self, Action, ActionView, Actor, ActorView, CommandView, Dialing, DialingView, RequestCommand,
};
use crate::tcp::codec::CodecErrorView;
use crate::tcp::pending;
use crate::tcp::retry::ModbusTcpRetry;
use crate::tcp::tcp_connection;
use crate::time::Instant;

verus! {

/// A request whose frame was written at `now` is pending under its transaction id. Its
/// response is due exactly the response timeout later, whatever the other timeouts are:
/// before that instant it does not time out, and from then on it does. Nothing else
/// changes.
pub proof fn response_is_due_after_the_response_timeout(
    actor: ActorView,
    tid: u16,
    waiter: u64,
    now: Instant,
    at: Instant,
    other: u16,
)
    requires
        now.nanos + actor.timeouts.response_timeout.nanos <= u128::MAX,
        other != tid,
    ensures
        ({
            let after = actor.on_the_wire(tid, waiter, now);
            let due = now.nanos + actor.timeouts.response_timeout.nanos;
            &&& after.pending.contains_key(tid)
            &&& after.pending[tid].waiter == waiter
            &&& after.pending[tid].response_deadline.nanos == due
            &&& after.expired(at).contains(tid) <==> at.nanos >= due
            &&& after.pending.contains_key(other) == actor.pending.contains_key(other)
            &&& actor.pending.contains_key(other) ==> after.pending[other] == actor.pending[other]
            &&& after == (ActorView { pending: after.pending, ..actor })
        }),
{
}

/// A request times out from its deadline on, and is given up where its caller is.
pub proof fn requests_time_out_at_their_deadlines(
    actor: ActorView,
    tid: u16,
    now: Instant,
    closed: Seq<u64>,
)
    ensures
        actor.expired(now).contains(tid) <==> actor.pending.contains_key(tid)
            && actor.pending[tid].response_deadline.nanos <= now.nanos,
        actor.given_up(closed).contains(tid) <==> actor.pending.contains_key(tid)
            && closed.contains(actor.pending[tid].waiter),
        actor.must_sweep(now, closed) <==> exists|id: u16| #[trigger]
            actor.pending.contains_key(id) && (closed.contains(actor.pending[id].waiter)
                || actor.pending[id].response_deadline.nanos <= now.nanos),
{
    if exists|id: u16| #[trigger]
        actor.pending.contains_key(id) && (closed.contains(actor.pending[id].waiter)
            || actor.pending[id].response_deadline.nanos <= now.nanos) {
        let id = choose|id: u16| #[trigger]
            actor.pending.contains_key(id) && (closed.contains(actor.pending[id].waiter)
                || actor.pending[id].response_deadline.nanos <= now.nanos);
        assert(actor.given_up(closed).contains(id) || actor.expired(now).contains(id));
    }
}

/// A request that is cancelled at `now` is off the wire, and its id is reserved for
/// exactly the time that flow control sets. The other requests and reservations stay as
/// they are.
pub proof fn cancelled_id_is_reserved_for_its_time(
    actor: ActorView,
    tids: Set<u16>,
    now: Instant,
    tid: u16,
)
    requires
        now.nanos + actor.flow.quarantine_ttl.nanos <= u128::MAX,
    ensures
        ({
            let after = actor.quarantining(tids, now);
            &&& tids.contains(tid) ==> {
                &&& !after.pending.contains_key(tid)
                &&& after.quarantined.contains_key(tid)
                &&& after.quarantined[tid].nanos == now.nanos + actor.flow.quarantine_ttl.nanos
            }
            &&& !tids.contains(tid) ==> {
                &&& after.pending.contains_key(tid) == actor.pending.contains_key(tid)
                &&& actor.pending.contains_key(tid) ==> after.pending[tid] == actor.pending[tid]
                &&& after.quarantined.contains_key(tid) == actor.quarantined.contains_key(tid)
                &&& actor.quarantined.contains_key(tid) ==> after.quarantined[tid]
                    == actor.quarantined[tid]
            }
            &&& after == (ActorView {
                pending: after.pending,
                quarantined: after.quarantined,
                ..actor
            })
        }),
{
}

/// A reservation ends at its time and not before, and nothing else is changed by looking
/// at the clock.
pub proof fn reservations_end_at_their_time(actor: ActorView, now: Instant, tid: u16)
    ensures
        ({
            let after = actor.reclaimed(now);
            &&& after.quarantined.contains_key(tid) <==> actor.quarantined.contains_key(tid)
                && actor.quarantined[tid].nanos > now.nanos
            &&& after.quarantined.contains_key(tid) ==> after.quarantined[tid]
                == actor.quarantined[tid]
            &&& after == (ActorView { quarantined: after.quarantined, ..actor })
        }),
        actor.still_reserved(now).contains(tid) <==> actor.quarantined.contains_key(tid)
            && actor.quarantined[tid].nanos > now.nanos,
        actor.reserves(tid, now) <==> actor.quarantined.contains_key(tid)
            && actor.quarantined[tid].nanos == now.nanos,
{
}

/// A look at the deadlines, id by id. A request stays as it is until its deadline comes
/// or its caller is gone; then it is off the wire and its id reserved for the time that
/// flow control sets. Reservations end at their time.
pub proof fn deadlines_are_looked_at_id_by_id(
    actor: ActorView,
    now: Instant,
    closed: Seq<u64>,
    tid: u16,
)
    requires
        now.nanos + actor.flow.quarantine_ttl.nanos <= u128::MAX,
        !(actor.pending.contains_key(tid) && actor.quarantined.contains_key(tid)),
    ensures
        ({
            let after = actor.swept(now, closed);
            let gone = actor.pending.contains_key(tid) && (closed.contains(
                actor.pending[tid].waiter,
            ) || actor.pending[tid].response_deadline.nanos <= now.nanos);
            &&& after.pending.contains_key(tid) <==> actor.pending.contains_key(tid) && !gone
            &&& after.pending.contains_key(tid) ==> after.pending[tid] == actor.pending[tid]
            &&& after.quarantined.contains_key(tid) <==> (gone
                && actor.flow.quarantine_ttl.nanos > 0) || (actor.quarantined.contains_key(tid)
                && actor.quarantined[tid].nanos > now.nanos)
            &&& gone && actor.flow.quarantine_ttl.nanos > 0 ==> after.quarantined[tid].nanos
                == now.nanos + actor.flow.quarantine_ttl.nanos
            &&& !gone && after.quarantined.contains_key(tid) ==> after.quarantined[tid]
                == actor.quarantined[tid]
            &&& after == (ActorView {
                pending: after.pending,
                quarantined: after.quarantined,
                ..actor
            })
        }),
{
}

/// An id cannot be given out while a request with it is on the wire, or while it is
/// reserved.
pub open spec fn unusable(actor: ActorView, now: Instant, tid: u16) -> bool {
    actor.pending.contains_key(tid) || (actor.quarantined.contains_key(tid)
        && actor.quarantined[tid].nanos > now.nanos)
}

/// A request gets the id that comes first, from the counter on, upwards with
/// wrap-around, and can be used. The counter goes on after it. There is none only where
/// not one of all ids can be used.
pub proof fn next_usable_id_is_given_out(actor: ActorView, now: Instant)
    ensures
        match actor.allocation(now) {
            Some(tid) => {
                &&& !unusable(actor, now, tid)
                &&& forall|other: u16|
                    pending::distance(actor.next_tid, other) < pending::distance(
                        actor.next_tid,
                        tid,
                    ) ==> #[trigger] unusable(actor, now, other)
                &&& tid < 65535 ==> actor.allocated(now).next_tid == tid + 1
                &&& tid == 65535 ==> actor.allocated(now).next_tid == 0
            },
            None => {
                &&& forall|other: u16| #[trigger] unusable(actor, now, other)
                &&& actor.allocated(now).next_tid == actor.next_tid
            },
        },
        actor.allocated(now).pending == actor.pending,
        forall|tid: u16|
            #![trigger actor.allocated(now).quarantined.contains_key(tid)]
            actor.allocated(now).quarantined.contains_key(tid) <==> actor.quarantined.contains_key(
                tid,
            ) && actor.quarantined[tid].nanos > now.nanos,
        forall|tid: u16|
            #![trigger actor.allocated(now).quarantined.contains_key(tid)]
            actor.allocated(now).quarantined.contains_key(tid) ==> actor.allocated(
                now,
            ).quarantined[tid] == actor.quarantined[tid],
        actor.allocated(now) == (ActorView {
            quarantined: actor.allocated(now).quarantined,
            next_tid: actor.allocated(now).next_tid,
            ..actor
        }),
        forall|tid: u16|
            #![trigger actor.taken().contains(tid)]
            actor.taken().contains(tid) <==> actor.pending.contains_key(tid)
                || actor.quarantined.contains_key(tid),
{
    let taken = actor.reclaimed(now).taken();
    assert forall|tid: u16| taken.contains(tid) == #[trigger] unusable(actor, now, tid) by {}
    pending::nearest_free_id_is_allocated(taken, actor.next_tid, 65536);
}

/// What becomes of a request that is taken at `now`. From its queue deadline on it is
/// answered with a timeout of the queue. Before that a socket is dialed where none is
/// open, and nothing has changed in either case.
pub proof fn late_and_early_requests(actor: ActorView, cmd: CommandView, now: Instant)
    ensures
        now.nanos >= cmd.queue_deadline.nanos ==> {
            &&& actor.dispatch_action(cmd, now) == (ActionView::Answer {
                waiter: cmd.waiter,
                outcome: Err(ErrorView::QueueTimeout),
            })
            &&& actor.dispatched(cmd, now) == actor
        },
        now.nanos < cmd.queue_deadline.nanos && !actor.status.connected ==> {
            &&& actor.dispatch_action(cmd, now) == ActionView::Dial(DialingView::ForRequest(cmd))
            &&& actor.dispatched(cmd, now) == actor
        },
        now.nanos < cmd.queue_deadline.nanos && actor.status.connected ==> {
            &&& actor.dispatch_action(cmd, now) == actor.write_action(cmd, now)
            &&& actor.dispatched(cmd, now) == actor.allocated(now)
        },
{
}

/// What becomes of a request that is to be written. Where no id is left, or the request
/// is beyond the limits, or no socket is open, it is answered with just that. Otherwise
/// its frame is written: the id, the protocol identifier zero, the length, the unit, and
/// the PDU.
pub proof fn written_request_is_its_frame(actor: ActorView, cmd: CommandView, now: Instant)
    requires
        cmd.pdu.encoded().len() <= 253,
    ensures
        actor.allocation(now) is None ==> actor.write_action(cmd, now) == (ActionView::Answer {
            waiter: cmd.waiter,
            outcome: Err(ErrorView::NoFreeTransactionId),
        }),
        actor.allocation(now) is Some && !cmd.pdu.valid() ==> actor.write_action(cmd, now) == (
        ActionView::Answer { waiter: cmd.waiter, outcome: Err(cmd.pdu.limit_error()) }),
        actor.allocation(now) is Some && cmd.pdu.valid() && !actor.status.connected ==> {
            &&& actor.write_action(cmd, now) matches ActionView::Answer {
                waiter,
                outcome: Err(ErrorView::ReadError(e)),
            }
            &&& waiter == cmd.waiter
            &&& e.kind == IoErrorKind::NotConnected
            &&& e.message == "connection not open"@
            &&& e.raw_os_error is None
        },
        actor.allocation(now) is Some && cmd.pdu.valid() && actor.status.connected ==> {
            &&& actor.write_action(cmd, now) matches ActionView::Send { tid, waiter, adu }
            &&& actor.allocation(now) == Some(tid)
            &&& waiter == cmd.waiter
            &&& adu.len() == 7 + cmd.pdu.encoded().len()
            &&& 256 * adu[0] + adu[1] == tid
            &&& 256 * adu[2] + adu[3] == 0
            &&& 256 * adu[4] + adu[5] == 1 + cmd.pdu.encoded().len()
            &&& adu[6] == cmd.unit_id
            &&& adu.skip(7) == cmd.pdu.encoded()
        },
{
    if let Some(tid) = actor.allocation(now) {
        let adu = crate::tcp::adu::framed(tid, 0, cmd.unit_id, cmd.pdu.encoded());
        crate::tcp::adu::frame_fields_lie_in_place(tid, 0, cmd.unit_id, cmd.pdu.encoded());
        assert(adu.skip(7) =~= cmd.pdu.encoded());
    }
}

/// A request beyond the limits never reaches the wire, and one within them does as soon
/// as a socket is open and an id is left.
pub proof fn valid_requests_alone_are_written(actor: ActorView, cmd: CommandView, now: Instant)
    ensures
        actor.write_action(cmd, now) is Send <==> actor.allocation(now) is Some && cmd.pdu.valid()
            && actor.status.connected,
{
}

/// Requests are taken as long as fewer are on the wire than flow control allows and more
/// can arrive. The actor is done once nothing can arrive and nothing is on the wire.
pub proof fn room_and_end(actor: ActorView)
    ensures
        actor.has_room() <==> actor.pending.dom().len() < actor.flow.max_in_flight
            && !actor.req_closed,
        actor.finished() <==> actor.ctrl_closed && actor.req_closed && actor.pending.dom().len()
            == 0,
        actor.wf() <==> forall|tid: u16|
            #![trigger actor.pending.contains_key(tid)]
            !(actor.pending.contains_key(tid) && actor.quarantined.contains_key(tid)),
{
    if forall|tid: u16|
        #![trigger actor.pending.contains_key(tid)]
        !(actor.pending.contains_key(tid) && actor.quarantined.contains_key(tid)) {
        assert forall|tid: u16| actor.pending.dom().contains(tid) implies !(
        #[trigger] actor.quarantined.dom().contains(tid)) by {
            assert(actor.pending.contains_key(tid));
        }
    }
}

/// A frame takes the request with the identifier in its first two bytes off the wire and
/// answers its caller with the whole frame. Where there is no such request, the frame
/// answers nobody and ends the reservation of that identifier. Nothing else changes.
pub proof fn frames_are_routed_by_their_first_bytes(
    actor: ActorView,
    frame: Seq<u8>,
    tid: u16,
    other: u16,
)
    requires
        frame.len() >= 2,
        tid == 256 * frame[0] + frame[1],
        other != tid,
    ensures
        ({
            let after = actor.routed(crate::big_endian::be_word(frame[0], frame[1]));
            &&& after == actor.routed(tid)
            &&& !after.pending.contains_key(tid)
            &&& actor.pending.contains_key(tid) ==> {
                &&& actor.route_actions(frame) == seq![
                    ActionView::Answer { waiter: actor.pending[tid].waiter, outcome: Ok(frame) },
                ]
                &&& after.quarantined == actor.quarantined
            }
            &&& !actor.pending.contains_key(tid) ==> {
                &&& actor.route_actions(frame) == Seq::<ActionView>::empty()
                &&& !after.quarantined.contains_key(tid)
            }
            &&& after.pending.contains_key(other) == actor.pending.contains_key(other)
            &&& actor.pending.contains_key(other) ==> after.pending[other] == actor.pending[other]
            &&& after.quarantined.contains_key(other) == actor.quarantined.contains_key(other)
            &&& actor.quarantined.contains_key(other) ==> after.quarantined[other]
                == actor.quarantined[other]
            &&& after == (ActorView {
                pending: after.pending,
                quarantined: after.quarantined,
                ..actor
            })
        }),
{
}

/// The actor sleeps no longer than until the next deadline, the next end of a reservation
/// or, while a request is on the wire, ten milliseconds; and no shorter than until the
/// first of these. With nothing to wait for it does not wake up by itself.
pub proof fn sleep_ends_in_time(actor: ActorView, now: Instant, wake: Option<Instant>, tid: u16)
    requires
        now.nanos + 10_000_000 <= u128::MAX,
        actor.is_earliest_wake(now, wake),
    ensures
        actor.pending.contains_key(tid) ==> (wake matches Some(at) && at.nanos
            <= actor.pending[tid].response_deadline.nanos),
        actor.quarantined.contains_key(tid) ==> (wake matches Some(at) && at.nanos
            <= actor.quarantined[tid].nanos),
        actor.pending.dom().len() > 0 ==> (wake matches Some(at) && at.nanos <= now.nanos
            + 10_000_000),
        wake matches Some(at) ==> {
            ||| exists|id: u16| #[trigger]
                actor.pending.contains_key(id) && actor.pending[id].response_deadline.nanos
                    == at.nanos
            ||| exists|id: u16| #[trigger]
                actor.quarantined.contains_key(id) && actor.quarantined[id].nanos == at.nanos
            ||| actor.pending.dom().len() > 0 && at.nanos == now.nanos + 10_000_000
        },
{
    if actor.pending.contains_key(tid) {
        assert(actor.may_wake_at(now, actor.pending[tid].response_deadline));
    }
    if actor.quarantined.contains_key(tid) {
        assert(actor.may_wake_at(now, actor.quarantined[tid]));
    }
    if actor.pending.dom().len() > 0 {
        let poll = Instant { nanos: (now.nanos + 10_000_000) as u128 };
        assert(actor.may_wake_at(now, poll));
    }
}

/// What the actor waits for is all that it has a reason to wake up for.
pub proof fn reasons_to_wake_up(actor: ActorView, now: Instant, at: Instant)
    requires
        now.nanos + 10_000_000 <= u128::MAX,
    ensures
        actor.may_wake_at(now, at) <==> {
            ||| exists|id: u16| #[trigger]
                actor.pending.contains_key(id) && actor.pending[id].response_deadline.nanos
                    == at.nanos
            ||| exists|id: u16| #[trigger]
                actor.quarantined.contains_key(id) && actor.quarantined[id].nanos == at.nanos
            ||| actor.pending.dom().len() > 0 && at.nanos == now.nanos + 10_000_000
        },
{
}

/// A teardown leaves no request on the wire and no socket open. The generation, the
/// reservations, the settings and the counter stay as they are.
pub proof fn teardown_closes_and_empties(actor: ActorView)
    ensures
        ({
            let after = actor.torn_down();
            &&& !after.status.connected
            &&& after.status.generation == actor.status.generation
            &&& forall|tid: u16| !#[trigger] after.pending.contains_key(tid)
            &&& after == (ActorView { status: after.status, pending: after.pending, ..actor })
        }),
        actor.status.connected ==> {
            &&& actor.closing_actions().len() == 2
            &&& actor.closing_actions()[0] is CloseSocket
            &&& actor.closing_actions()[1] matches ActionView::Publish(status)
            &&& !status.connected
            &&& status.generation == actor.status.generation
        },
        !actor.status.connected ==> actor.closing_actions().len() == 0,
{
}

/// `action` answers the caller `waiter` with `outcome`.
pub open spec fn tells(
    action: ActionView,
    waiter: u64,
    outcome: Result<Seq<u8>, ErrorView>,
) -> bool {
    action == ActionView::Answer { waiter, outcome }
}

/// Answers to a set of requests: as many as the requests, each to the caller of one of
/// them, none left out, and all with the same outcome.
pub proof fn answers_go_to_those_who_wait(
    actions: Seq<ActionView>,
    pending: Map<u16, actor::PendingEntry>,
    tids: Set<u16>,
    outcome: Result<Seq<u8>, ErrorView>,
    i: int,
    tid: u16,
)
    requires
        actor::answers(actions, pending, tids, outcome),
    ensures
        actions.len() == tids.len(),
        0 <= i < actions.len() ==> exists|id: u16| #[trigger]
            tids.contains(id) && tells(actions[i], pending[id].waiter, outcome),
        tids.contains(tid) ==> exists|k: int|
            0 <= k < actions.len() && tells(#[trigger] actions[k], pending[tid].waiter, outcome),
{
    let order = choose|order: Seq<u16>| #[trigger]
        pending::lists(order, tids) && actions == actor::answers_in_order(order, pending, outcome);
    order.unique_seq_to_set();
    if 0 <= i < actions.len() {
        assert(order.to_set().contains(order[i]));
        assert(tells(actions[i], pending[order[i]].waiter, outcome));
    }
    if tids.contains(tid) {
        assert(order.to_set().contains(tid));
        let k = choose|k: int| 0 <= k < order.len() && order[k] == tid;
        assert(tells(actions[k], pending[tid].waiter, outcome));
    }
}

/// The actions of a teardown are two that close an open socket and say so, and then one
/// for every pending request, each an answer with the error to a caller that waits. No
/// caller is told anything else, and none is left out.
pub proof fn teardown_tells_the_error_to_those_who_wait(
    actor: ActorView,
    actions: Seq<ActionView>,
    error: ErrorView,
    closing: int,
    i: int,
    tid: u16,
)
    requires
        actor.teardown_actions(actions, error),
        closing == if actor.status.connected {
            2int
        } else {
            0int
        },
    ensures
        actions.len() == closing + actor.pending.dom().len(),
        actor.status.connected ==> actions[0] is CloseSocket && actions[1] is Publish,
        closing <= i < actions.len() ==> exists|id: u16| #[trigger]
            actor.pending.contains_key(id) && tells(
                actions[i],
                actor.pending[id].waiter,
                Err(error),
            ),
        actor.pending.contains_key(tid) ==> exists|k: int|
            closing <= k < actions.len() && tells(
                #[trigger] actions[k],
                actor.pending[tid].waiter,
                Err(error),
            ),
{
    let answering = actions.skip(closing);
    assert(actions.take(closing) == actor.closing_actions());
    if actor.status.connected {
        assert(actions[0] == actions.take(closing)[0]);
        assert(actions[1] == actions.take(closing)[1]);
    }
    let outcome = Err::<Seq<u8>, ErrorView>(error);
    let ids = actor.pending.dom();
    answers_go_to_those_who_wait(answering, actor.pending, ids, outcome, i - closing, tid);
    if closing <= i < actions.len() {
        let id = choose|id: u16| #[trigger]
            ids.contains(id) && tells(answering[i - closing], actor.pending[id].waiter, outcome);
        assert(actor.pending.contains_key(id));
    }
    if actor.pending.contains_key(tid) {
        let k = choose|k: int|
            0 <= k < answering.len() && tells(
                #[trigger] answering[k],
                actor.pending[tid].waiter,
                outcome,
            );
        assert(actions[closing + k] == answering[k]);
    }
}

/// A look at the deadlines answers, with a timeout of the read, the callers whose
/// requests timed out and who still wait, and nobody else.
pub proof fn timeouts_are_told_to_those_who_wait(
    actor: ActorView,
    now: Instant,
    closed: Seq<u64>,
    actions: Seq<ActionView>,
    i: int,
    tid: u16,
)
    requires
        actor::answers(
            actions,
            actor.pending,
            actor.expired(now).difference(actor.given_up(closed)),
            Err(ErrorView::ReadTimeout),
        ),
    ensures
        0 <= i < actions.len() ==> exists|id: u16| #[trigger]
            actor.pending.contains_key(id) && actor.pending[id].response_deadline.nanos
                <= now.nanos && !closed.contains(actor.pending[id].waiter) && tells(
                actions[i],
                actor.pending[id].waiter,
                Err(ErrorView::ReadTimeout),
            ),
        actor.pending.contains_key(tid) && actor.pending[tid].response_deadline.nanos <= now.nanos
            && !closed.contains(actor.pending[tid].waiter) ==> exists|k: int|
            0 <= k < actions.len() && tells(
                #[trigger] actions[k],
                actor.pending[tid].waiter,
                Err(ErrorView::ReadTimeout),
            ),
{
    let late = actor.expired(now).difference(actor.given_up(closed));
    let outcome = Err::<Seq<u8>, ErrorView>(ErrorView::ReadTimeout);
    answers_go_to_those_who_wait(actions, actor.pending, late, outcome, i, tid);
    if 0 <= i < actions.len() {
        let id = choose|id: u16| #[trigger]
            late.contains(id) && tells(actions[i], actor.pending[id].waiter, outcome);
        assert(actor.pending.contains_key(id));
    }
}

/// A write that fails is told first to the caller whose frame it was, with its own error.
/// Then the connection is torn down, and the others learn that it is closed.
pub proof fn failed_write_is_told_first(
    actor: ActorView,
    actions: Seq<ActionView>,
    waiter: u64,
    error: ErrorView,
)
    ensures
        actor.failed_write_actions(actions, waiter, error) <==> {
            &&& actions.len() >= 1
            &&& actions[0] == (ActionView::Answer { waiter, outcome: Err(error) })
            &&& actor.teardown_actions(
                actions.skip(1),
                ErrorView::ReadError(
                    IoErrorView {
                        kind: IoErrorKind::ConnectionAborted,
                        message: "connection closed"@,
                        raw_os_error: None,
                    },
                ),
            )
        },
{
}

/// A disconnect command tears the connection down, tells those who wait that it is
/// closed, and is acknowledged at the end.
pub proof fn disconnect_is_acknowledged_last(actor: ActorView, actions: Seq<ActionView>, ack: u64)
    ensures
        actor.disconnect_actions(actions, ack) <==> {
            &&& actions.len() >= 1
            &&& actions[actions.len() - 1] == (ActionView::AcknowledgeDisconnect { ack })
            &&& actor.teardown_actions(
                actions.take(actions.len() - 1),
                ErrorView::ReadError(
                    IoErrorView {
                        kind: IoErrorKind::ConnectionAborted,
                        message: "connection closed"@,
                        raw_os_error: None,
                    },
                ),
            )
        },
{
    if actions.len() >= 1 {
        assert(actions.drop_last() =~= actions.take(actions.len() - 1));
    }
}

/// What follows a connection attempt. A socket that was opened is published as the next
/// generation; then the command is acknowledged, or the request goes on as any request
/// does that finds an open socket. A failed attempt changes nothing: the command is
/// acknowledged with the error, and the request is answered with it, as are those that
/// are queued behind it.
pub proof fn attempts_to_connect_are_followed_up(
    actor: ActorView,
    ack: u64,
    cmd: CommandView,
    error: ErrorView,
    now: Instant,
)
    requires
        actor.status.generation < u64::MAX,
    ensures
        ({
            let open = ActorView {
                status: crate::tcp::status::ConnectionStatus {
                    connected: true,
                    generation: (actor.status.generation + 1) as u64,
                },
                ..actor
            };
            let for_command = DialingView::ForCommand { ack };
            let for_request = DialingView::ForRequest(cmd);
            &&& actor.opened() == open
            &&& actor.after_dialing(for_command, Ok(()), now) == open
            &&& actor.dialed_actions(for_command, Ok(()), now) == seq![
                ActionView::Publish(open.status),
                ActionView::AcknowledgeConnect { ack, result: Ok(()) },
            ]
            &&& actor.after_dialing(for_request, Ok(()), now) == open.dispatched(cmd, now)
            &&& actor.dialed_actions(for_request, Ok(()), now) == seq![
                ActionView::Publish(open.status),
                open.dispatch_action(cmd, now),
            ]
            &&& actor.after_dialing(for_command, Err(error), now) == actor
            &&& actor.dialed_actions(for_command, Err(error), now) == seq![
                ActionView::AcknowledgeConnect { ack, result: Err(error) },
            ]
            &&& actor.after_dialing(for_request, Err(error), now) == actor
            &&& actor.dialed_actions(for_request, Err(error), now) == seq![
                ActionView::Answer { waiter: cmd.waiter, outcome: Err(error) },
                ActionView::FailBacklog(error),
            ]
        }),
{
}

/// The errors that the actor makes itself, by category and message. None of them comes
/// from the operating system.
pub proof fn errors_of_the_actor()
    ensures
        actor::connection_closed() == ErrorView::ReadError(
            IoErrorView {
                kind: IoErrorKind::ConnectionAborted,
                message: "connection closed"@,
                raw_os_error: None,
            },
        ),
        actor::peer_closed() == ErrorView::ReadError(
            IoErrorView {
                kind: IoErrorKind::UnexpectedEof,
                message: "peer closed connection"@,
                raw_os_error: None,
            },
        ),
        actor::connection_not_open() == ErrorView::ReadError(
            IoErrorView {
                kind: IoErrorKind::NotConnected,
                message: "connection not open"@,
                raw_os_error: None,
            },
        ),
        tcp_connection::actor_terminated() == ErrorView::ReadError(
            IoErrorView {
                kind: IoErrorKind::ConnectionAborted,
                message: "reader task terminated"@,
                raw_os_error: None,
            },
        ),
{
}

/// A failure of the socket reaches the caller as it is: on the writing side as one of
/// writing, on the reading side as one of reading. What the codec found wrong reaches
/// the caller unchanged on the reading side; on the writing side its message does.
pub proof fn failures_of_the_socket_are_passed_on(io: IoErrorView, error: ErrorView)
    ensures
        actor::write_error(CodecErrorView::Io(io)) == ErrorView::WriteError(io),
        actor::write_error(CodecErrorView::Modbus(ErrorView::WriteError(io)))
            == ErrorView::WriteError(io),
        !(error is WriteError) ==> actor::write_error(CodecErrorView::Modbus(error))
            == ErrorView::WriteError(
            IoErrorView { kind: IoErrorKind::Other, message: error.text(), raw_os_error: None },
        ),
        actor::read_error(CodecErrorView::Io(io)) == ErrorView::ReadError(io),
        actor::read_error(CodecErrorView::Modbus(error)) == error,
{
}

/// Every policy tries again after a failure of the connection: one that was closed, by
/// whichever side, one that is not open, one whose owner is gone, and one on which
/// reading or writing failed.
pub proof fn lost_connections_are_tried_again(
    retry: ModbusTcpRetry,
    io: IoErrorView,
    error: CodecErrorView,
)
    ensures
        retry.retries(actor::connection_closed()),
        retry.retries(actor::peer_closed()),
        retry.retries(actor::connection_not_open()),
        retry.retries(tcp_connection::actor_terminated()),
        retry.retries(actor::read_error(CodecErrorView::Io(io))),
        retry.retries(actor::write_error(error)),
        retry.retries(ErrorView::ConnectError(io)),
        retry.retries(ErrorView::ConnectTimeout),
        retry.retries(ErrorView::WriteTimeout),
        retry.retries(ErrorView::ReadTimeout),
        retry.retries(ErrorView::QueueTimeout),
{
}

/// A teardown answers every pending request with an error after which every policy tries
/// again, whether the connection was closed here, by the peer, or by a failure to read.
pub proof fn torn_down_requests_are_tried_again(
    actor: ActorView,
    actions: Seq<ActionView>,
    io: IoErrorView,
    retry: ModbusTcpRetry,
    i: int,
)
    requires
        actor.teardown_actions(actions, actor::connection_closed()) || actor.teardown_actions(
            actions,
            actor::peer_closed(),
        ) || actor.teardown_actions(actions, actor::read_error(CodecErrorView::Io(io))),
        0 <= i < actions.len(),
    ensures
        actions[i] matches ActionView::Answer { outcome, .. } ==> (outcome matches Err(error)
            && retry.retries(error)),
{
    let closing = if actor.status.connected {
        2int
    } else {
        0int
    };
    let error = if actor.teardown_actions(actions, actor::connection_closed()) {
        actor::connection_closed()
    } else if actor.teardown_actions(actions, actor::peer_closed()) {
        actor::peer_closed()
    } else {
        actor::read_error(CodecErrorView::Io(io))
    };
    teardown_tells_the_error_to_those_who_wait(actor, actions, error, closing, i, 0);
}

/// The model of an actor shows all of it.
pub proof fn actor_model_is_complete(actor: Actor)
    ensures
        actor@.host == actor.host@,
        actor@.port == actor.port,
        actor@.timeouts == actor.timeouts,
        actor@.flow == actor.flow,
        actor@.status == actor.status,
        actor@.pending == actor.pending@,
        actor@.quarantined == actor.quarantined@,
        actor@.next_tid == actor.next_tid,
        actor@.ctrl_closed == actor.ctrl_closed,
        actor@.req_closed == actor.req_closed,
{
}

/// The models of a request command and of an attempt to connect show all of them.
pub proof fn command_models_are_complete(cmd: RequestCommand, ack: u64)
    ensures
        cmd@.unit_id == cmd.unit_id,
        cmd@.pdu == cmd.pdu@,
        cmd@.waiter == cmd.waiter,
        cmd@.queue_deadline == cmd.queue_deadline,
        (Dialing::ForCommand { ack })@ == (DialingView::ForCommand { ack }),
        Dialing::ForRequest(cmd)@ == DialingView::ForRequest(cmd@),
{
}

/// The model of an action shows its kind and everything that it carries, and the model
/// of a list of actions shows each of them in its place.
pub proof fn action_models_are_complete(actions: Seq<Action>, i: int)
    requires
        0 <= i < actions.len(),
    ensures
        actor::all(actions).len() == actions.len(),
        match actions[i] {
            Action::CloseSocket => actor::all(actions)[i] is CloseSocket,
            Action::Publish(status) => actor::all(actions)[i] == ActionView::Publish(status),
            Action::Answer { waiter, outcome: Ok(frame) } => actor::all(actions)[i] == (
            ActionView::Answer { waiter, outcome: Ok(frame@) }),
            Action::Answer { waiter, outcome: Err(error) } => actor::all(actions)[i] == (
            ActionView::Answer { waiter, outcome: Err(error@) }),
            Action::AcknowledgeConnect { ack, result: Ok(()) } => actor::all(actions)[i] == (
            ActionView::AcknowledgeConnect { ack, result: Ok(()) }),
            Action::AcknowledgeConnect { ack, result: Err(error) } => actor::all(actions)[i] == (
            ActionView::AcknowledgeConnect { ack, result: Err(error@) }),
            Action::AcknowledgeDisconnect { ack } => actor::all(actions)[i] == (
            ActionView::AcknowledgeDisconnect { ack }),
            Action::Dial(dialing) => actor::all(actions)[i] == ActionView::Dial(dialing@),
            Action::Send { tid, waiter, adu } => actor::all(actions)[i] == (ActionView::Send {
                tid,
                waiter,
                adu: adu@,
            }),
            Action::FailBacklog(error) => actor::all(actions)[i] == ActionView::FailBacklog(
                error@,
            ),
        },
{
}

/// The models of an answer and of the result of an attempt are that answer and result.
pub proof fn outcome_models_are_complete(frame: Vec<u8>, error: ModbusError)
    ensures
        actor::answer(Ok(frame)) == Ok::<Seq<u8>, ErrorView>(frame@),
        actor::answer(Err(error)) == Err::<Seq<u8>, ErrorView>(error@),
        actor::dial_result(Ok(())) == Ok::<(), ErrorView>(()),
        actor::dial_result(Err(error)) == Err::<(), ErrorView>(error@),
{
}

} // verus!
