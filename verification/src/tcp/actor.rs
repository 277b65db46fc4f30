//! Rules of the single owner of a Modbus TCP connection.
//!
//! The actor owns the socket, the transaction ids and the pending response map.
//! What it decides is stated here, from its state and one event to its next state
//! and the actions that follow; the caller performs the actions. A caller that
//! waits for a response is known by a number, its waiter, and so is one that waits
//! for the acknowledgement of a control command.

use std::collections::HashMap;
use std::sync::Arc;

use vstd::prelude::*;

use crate::big_endian::{self, word_of_be};
use crate::error::{ErrorView, IoError, IoErrorKind, IoErrorView, ModbusError};
use crate::request::{ModbusRequest, RequestView};
use crate::tcp::adu::{self, build_modbus_tcp_adu_from_pdu_bytes};
use crate::tcp::codec::{CodecErrorView, MbapCodecError};
use crate::tcp::flow::ModbusTcpFlowControl;
use crate::tcp::pending::{self, next_transaction_id, transaction_ids};
use crate::tcp::status::ConnectionStatus;
use crate::tcp::timeouts::ModbusTcpTimeouts;
use crate::time::{Duration, Instant};

verus! {

/// Capacity of the channel of control commands.
pub const CONTROL_CHANNEL_CAPACITY: usize = 8;

/// Most transaction ids that one allocation tries: all of them.
pub const MAX_TID_PROBES: u32 = 0x1_0000;

/// Nanoseconds after which a pending request is looked at for cancellation.
pub const CANCELLATION_POLL_NANOS: u128 = 10_000_000;

/// Small control-channel capacity used by connection handles.
pub fn control_channel_capacity() -> (capacity: usize)
    ensures
        capacity == CONTROL_CHANNEL_CAPACITY,
{
    CONTROL_CHANNEL_CAPACITY
}

/// Lifecycle command sent from connection handles to the owning actor.
#[derive(Debug, Clone, Copy, PartialEq, Eq, Structural)]
pub enum ControlCommand {
    /// Eagerly connect and acknowledge the result.
    Connect {
        /// Who waits for the acknowledgement.
        ack: u64,
    },
    /// Drop the current socket and fail pending waiters.
    Disconnect {
        /// Who waits for the acknowledgement.
        ack: u64,
    },
}

/// Request command sent from connection handles to the owning actor.
#[derive(Debug)]
pub struct RequestCommand {
    /// Unit that the request is for.
    pub unit_id: u8,
    /// The request.
    pub pdu: ModbusRequest,
    /// Who waits for the response.
    pub waiter: u64,
    /// Absolute queue deadline anchored when the handle submits the request.
    pub queue_deadline: Instant,
}

/// Pending response waiter and timeout metadata for one transaction id.
#[derive(Debug, Clone, Copy, PartialEq, Eq, Structural)]
pub struct PendingEntry {
    /// Who waits for the response.
    pub waiter: u64,
    /// Absolute response deadline anchored after the frame is written to the socket.
    pub response_deadline: Instant,
}

/// What a connection attempt is for.
#[derive(Debug)]
pub enum Dialing {
    /// A control command asked for it.
    ForCommand {
        /// Who waits for the acknowledgement.
        ack: u64,
    },
    /// A request needs it.
    ForRequest(RequestCommand),
}

/// How writing a frame ended.
#[derive(Debug)]
pub enum WriteOutcome {
    /// The frame was written.
    Written,
    /// The socket failed.
    Failed(MbapCodecError),
    /// The write timeout passed.
    TimedOut,
}

/// Something that the actor's caller has to do.
#[derive(Debug)]
pub enum Action {
    /// Close the socket.
    CloseSocket,
    /// Publish the status to its subscribers.
    Publish(ConnectionStatus),
    /// Answer the caller that waits for a response.
    Answer {
        /// Who waits.
        waiter: u64,
        /// The response frame, or why there is none.
        outcome: Result<Vec<u8>, ModbusError>,
    },
    /// Acknowledge a connect command.
    AcknowledgeConnect {
        /// Who waits.
        ack: u64,
        /// Whether a socket is open.
        result: Result<(), ModbusError>,
    },
    /// Acknowledge a disconnect command.
    AcknowledgeDisconnect {
        /// Who waits.
        ack: u64,
    },
    /// Open a socket to the actor's host and port within its connect timeout, and
    /// report to [`Actor::dialed`].
    Dial(Dialing),
    /// Write a frame within the actor's write timeout, and report to [`Actor::sent`].
    Send {
        /// Transaction id of the frame.
        tid: u16,
        /// Who waits for the response.
        waiter: u64,
        /// The frame.
        adu: Vec<u8>,
    },
    /// Take the requests that are queued now, and fail them by [`Actor::fail_backlog`].
    FailBacklog(ModbusError),
}

/// Something that happened to the actor.
#[derive(Debug)]
pub enum Event {
    /// A control command arrived.
    Control(ControlCommand),
    /// No control command can arrive any more.
    ControlClosed,
    /// A request arrived.
    Request(RequestCommand),
    /// No request can arrive any more.
    RequestsClosed,
    /// A frame arrived.
    Frame(Vec<u8>),
    /// The stream failed.
    StreamFailed(MbapCodecError),
    /// The peer closed the stream.
    StreamEnded,
    /// The point in time that the actor waited for has come.
    Woken,
}

/// What the actor does next.
#[derive(Debug, Clone, Copy, PartialEq, Eq, Structural)]
pub enum Step {
    /// It is done.
    Stop,
    /// The request with this transaction id was given up by its caller.
    Cancel(u16),
    /// It waits for one of several events.
    Wait {
        /// Whether control commands are taken.
        control: bool,
        /// Whether requests are taken.
        requests: bool,
        /// Whether frames are read.
        frames: bool,
        /// When it wakes up by itself.
        wake: Option<Instant>,
    },
}

/// Owner of the TCP socket, transaction ids, and pending response map.
#[derive(Debug)]
pub struct Actor {
    /// Host that is dialed.
    pub host: String,
    /// Port that is dialed.
    pub port: u16,
    /// Time limits.
    pub timeouts: ModbusTcpTimeouts,
    /// Flow control.
    pub flow: ModbusTcpFlowControl,
    /// Whether a socket is open, and how many were.
    pub status: ConnectionStatus,
    /// Requests on the wire.
    pub pending: HashMap<u16, PendingEntry>,
    /// Transaction ids that stay reserved, and until when.
    pub quarantined: HashMap<u16, Instant>,
    /// Transaction id that is tried first.
    pub next_tid: u16,
    /// Whether no control command can arrive any more.
    pub ctrl_closed: bool,
    /// Whether no request can arrive any more.
    pub req_closed: bool,
}

/// Model of a [`RequestCommand`].
pub ghost struct CommandView {
    pub unit_id: u8,
    pub pdu: RequestView,
    pub waiter: u64,
    pub queue_deadline: Instant,
}

impl View for RequestCommand {
    type V = CommandView;

    open spec fn view(&self) -> CommandView {
        CommandView {
            unit_id: self.unit_id,
            pdu: self.pdu@,
            waiter: self.waiter,
            queue_deadline: self.queue_deadline,
        }
    }
}

/// Model of a [`Dialing`].
pub ghost enum DialingView {
    ForCommand { ack: u64 },
    ForRequest(CommandView),
}

impl View for Dialing {
    type V = DialingView;

    open spec fn view(&self) -> DialingView {
        match self {
            Dialing::ForCommand { ack } => DialingView::ForCommand { ack: *ack },
            Dialing::ForRequest(cmd) => DialingView::ForRequest(cmd@),
        }
    }
}

/// Model of the answer to a request.
pub open spec fn answer(outcome: Result<Vec<u8>, ModbusError>) -> Result<Seq<u8>, ErrorView> {
    match outcome {
        Ok(frame) => Ok(frame@),
        Err(e) => Err(e@),
    }
}

/// Model of the result of a connection attempt.
pub open spec fn dial_result(result: Result<(), ModbusError>) -> Result<(), ErrorView> {
    match result {
        Ok(()) => Ok(()),
        Err(e) => Err(e@),
    }
}

/// Model of an [`Action`].
pub ghost enum ActionView {
    CloseSocket,
    Publish(ConnectionStatus),
    Answer { waiter: u64, outcome: Result<Seq<u8>, ErrorView> },
    AcknowledgeConnect { ack: u64, result: Result<(), ErrorView> },
    AcknowledgeDisconnect { ack: u64 },
    Dial(DialingView),
    Send { tid: u16, waiter: u64, adu: Seq<u8> },
    FailBacklog(ErrorView),
}

impl View for Action {
    type V = ActionView;

    open spec fn view(&self) -> ActionView {
        match self {
            Action::CloseSocket => ActionView::CloseSocket,
            Action::Publish(status) => ActionView::Publish(*status),
            Action::Answer { waiter, outcome } => ActionView::Answer {
                waiter: *waiter,
                outcome: answer(*outcome),
            },
            Action::AcknowledgeConnect { ack, result } => ActionView::AcknowledgeConnect {
                ack: *ack,
                result: dial_result(*result),
            },
            Action::AcknowledgeDisconnect { ack } => ActionView::AcknowledgeDisconnect {
                ack: *ack,
            },
            Action::Dial(dialing) => ActionView::Dial(dialing@),
            Action::Send { tid, waiter, adu } => ActionView::Send {
                tid: *tid,
                waiter: *waiter,
                adu: adu@,
            },
            Action::FailBacklog(error) => ActionView::FailBacklog(error@),
        }
    }
}

/// Models of a list of actions.
pub open spec fn all(actions: Seq<Action>) -> Seq<ActionView> {
    Seq::new(actions.len(), |i: int| actions[i]@)
}

/// Model of an [`Actor`].
pub ghost struct ActorView {
    pub host: Seq<char>,
    pub port: u16,
    pub timeouts: ModbusTcpTimeouts,
    pub flow: ModbusTcpFlowControl,
    pub status: ConnectionStatus,
    pub pending: Map<u16, PendingEntry>,
    pub quarantined: Map<u16, Instant>,
    pub next_tid: u16,
    pub ctrl_closed: bool,
    pub req_closed: bool,
}

impl View for Actor {
    type V = ActorView;

    open spec fn view(&self) -> ActorView {
        ActorView {
            host: self.host@,
            port: self.port,
            timeouts: self.timeouts,
            flow: self.flow,
            status: self.status,
            pending: self.pending@,
            quarantined: self.quarantined@,
            next_tid: self.next_tid,
            ctrl_closed: self.ctrl_closed,
            req_closed: self.req_closed,
        }
    }
}

/// The error of requests whose connection is closed.
pub open spec fn connection_closed() -> ErrorView {
    ErrorView::ReadError(IoErrorView::new(IoErrorKind::ConnectionAborted, "connection closed"@))
}

/// The error of requests whose connection the peer closed.
pub open spec fn peer_closed() -> ErrorView {
    ErrorView::ReadError(IoErrorView::new(IoErrorKind::UnexpectedEof, "peer closed connection"@))
}

/// The error of a request that reaches the wire without a connection.
pub open spec fn connection_not_open() -> ErrorView {
    ErrorView::ReadError(IoErrorView::new(IoErrorKind::NotConnected, "connection not open"@))
}

/// How a caller learns of an error on the writing side.
pub open spec fn write_error(error: CodecErrorView) -> ErrorView {
    match error {
        CodecErrorView::Io(e) => ErrorView::WriteError(e),
        CodecErrorView::Modbus(ErrorView::WriteError(e)) => ErrorView::WriteError(e),
        CodecErrorView::Modbus(other) => ErrorView::WriteError(
            IoErrorView::new(IoErrorKind::Other, other.text()),
        ),
    }
}

/// How a caller learns of an error on the reading side.
pub open spec fn read_error(error: CodecErrorView) -> ErrorView {
    match error {
        CodecErrorView::Io(e) => ErrorView::ReadError(e),
        CodecErrorView::Modbus(e) => e,
    }
}

/// `actions` answer the waiters of the transaction ids in `tids`, each of them
/// exactly once and with `outcome`, in some order.
pub open spec fn answers(
    actions: Seq<ActionView>,
    pending: Map<u16, PendingEntry>,
    tids: Set<u16>,
    outcome: Result<Seq<u8>, ErrorView>,
) -> bool {
    exists|order: Seq<u16>| #[trigger]
        pending::lists(order, tids) && actions == answers_in_order(order, pending, outcome)
}

/// The answers to the waiters of the transaction ids in `order`.
pub open spec fn answers_in_order(
    order: Seq<u16>,
    pending: Map<u16, PendingEntry>,
    outcome: Result<Seq<u8>, ErrorView>,
) -> Seq<ActionView> {
    Seq::new(
        order.len(),
        |i: int| ActionView::Answer { waiter: pending[order[i]].waiter, outcome },
    )
}

impl ActorView {
    /// What an actor keeps to: no transaction id is on the wire and reserved at once.
    pub open spec fn wf(self) -> bool {
        self.pending.dom().disjoint(self.quarantined.dom())
    }

    /// The transaction ids that no new request may use.
    pub open spec fn taken(self) -> Set<u16> {
        self.pending.dom().union(self.quarantined.dom())
    }

    /// Whether the actor is done: nothing can arrive and nothing is on the wire.
    pub open spec fn finished(self) -> bool {
        self.ctrl_closed && self.req_closed && self.pending.dom().len() == 0
    }

    /// Whether a request may be taken.
    pub open spec fn has_room(self) -> bool {
        self.pending.dom().len() < self.flow.max_in_flight && !self.req_closed
    }

    /// The reserved ids whose time has not passed.
    pub open spec fn still_reserved(self, now: Instant) -> Set<u16> {
        self.quarantined.dom().filter(|tid: u16| !now.spec_reached(self.quarantined[tid]))
    }

    /// The id `tid` is reserved until `until`.
    pub open spec fn reserves(self, tid: u16, until: Instant) -> bool {
        self.quarantined.contains_key(tid) && self.quarantined[tid] == until
    }

    /// The actor once the reserved ids whose time has passed are free again.
    pub open spec fn reclaimed(self, now: Instant) -> ActorView {
        ActorView { quarantined: self.quarantined.restrict(self.still_reserved(now)), ..self }
    }

    /// The transaction id that the next request gets.
    pub open spec fn allocation(self, now: Instant) -> Option<u16> {
        pending::first_free(self.reclaimed(now).taken(), self.next_tid, MAX_TID_PROBES as nat)
    }

    /// The actor once the next transaction id was given out.
    pub open spec fn allocated(self, now: Instant) -> ActorView {
        ActorView {
            next_tid: pending::counter_after(
                self.next_tid,
                MAX_TID_PROBES as nat,
                self.allocation(now),
            ),
            ..self.reclaimed(now)
        }
    }

    /// What becomes of a request that is to be written.
    pub open spec fn write_action(self, cmd: CommandView, now: Instant) -> ActionView {
        match self.allocation(now) {
            None => ActionView::Answer {
                waiter: cmd.waiter,
                outcome: Err(ErrorView::NoFreeTransactionId),
            },
            Some(tid) => if !cmd.pdu.valid() {
                ActionView::Answer { waiter: cmd.waiter, outcome: Err(cmd.pdu.limit_error()) }
            } else if !self.status.connected {
                ActionView::Answer { waiter: cmd.waiter, outcome: Err(connection_not_open()) }
            } else {
                ActionView::Send {
                    tid,
                    waiter: cmd.waiter,
                    adu: adu::framed(tid, 0, cmd.unit_id, cmd.pdu.encoded()),
                }
            },
        }
    }

    /// The answer to a request that waited too long.
    pub open spec fn queue_timeout_answer(cmd: CommandView) -> ActionView {
        ActionView::Answer { waiter: cmd.waiter, outcome: Err(ErrorView::QueueTimeout) }
    }

    /// What becomes of a request that was taken.
    pub open spec fn dispatch_action(self, cmd: CommandView, now: Instant) -> ActionView {
        if now.spec_reached(cmd.queue_deadline) {
            ActorView::queue_timeout_answer(cmd)
        } else if !self.status.connected {
            ActionView::Dial(DialingView::ForRequest(cmd))
        } else {
            self.write_action(cmd, now)
        }
    }

    /// The actor once a request was taken.
    pub open spec fn dispatched(self, cmd: CommandView, now: Instant) -> ActorView {
        if now.spec_reached(cmd.queue_deadline) || !self.status.connected {
            self
        } else {
            self.allocated(now)
        }
    }

    /// The actor once a socket was opened.
    pub open spec fn opened(self) -> ActorView {
        ActorView { status: self.status.spec_opened(), ..self }
    }

    /// The actor once its socket was closed and nothing is pending.
    pub open spec fn torn_down(self) -> ActorView {
        ActorView { status: self.status.spec_closed(), pending: Map::empty(), ..self }
    }

    /// What a teardown does before it answers: it closes the socket and says so,
    /// where there is one.
    pub open spec fn closing_actions(self) -> Seq<ActionView> {
        if self.status.connected {
            seq![ActionView::CloseSocket, ActionView::Publish(self.status.spec_closed())]
        } else {
            Seq::empty()
        }
    }

    /// `actions` are those of a teardown: those that close the socket, and then an
    /// answer with `error` to every pending request.
    pub open spec fn teardown_actions(self, actions: Seq<ActionView>, error: ErrorView) -> bool {
        let closing = self.closing_actions().len() as int;
        &&& actions.len() >= closing
        &&& actions.take(closing) == self.closing_actions()
        &&& answers(actions.skip(closing), self.pending, self.pending.dom(), Err(error))
    }

    /// The pending ids whose waiters are in `closed`.
    pub open spec fn given_up(self, closed: Seq<u64>) -> Set<u16> {
        self.pending.dom().filter(|tid: u16| closed.contains(self.pending[tid].waiter))
    }

    /// None of the callers in `closed` has a request on the wire.
    pub open spec fn all_callers_wait(self, closed: Seq<u64>) -> bool {
        forall|tid: u16| !#[trigger] self.given_up(closed).contains(tid)
    }

    /// The pending ids whose deadlines have passed.
    pub open spec fn expired(self, now: Instant) -> Set<u16> {
        self.pending.dom().filter(
            |tid: u16| now.spec_reached(self.pending[tid].response_deadline),
        )
    }

    /// The actor once the requests in `tids` were taken off the wire and their ids
    /// reserved.
    pub open spec fn quarantining(self, tids: Set<u16>, now: Instant) -> ActorView {
        ActorView {
            pending: self.pending.remove_keys(tids),
            quarantined: self.quarantined.union_prefer_right(
                Map::new(
                    |tid: u16| tids.contains(tid),
                    |tid: u16| now.spec_plus(self.flow.quarantine_ttl),
                ),
            ),
            ..self
        }
    }

    /// Whether a look at the deadlines takes any request off the wire.
    pub open spec fn must_sweep(self, now: Instant, closed: Seq<u64>) -> bool {
        exists|tid: u16| #[trigger]
            self.pending.contains_key(tid) && (self.given_up(closed).contains(tid) || self.expired(
                now,
            ).contains(tid))
    }

    /// The actor once deadlines were looked at.
    pub open spec fn swept(self, now: Instant, closed: Seq<u64>) -> ActorView {
        self.quarantining(self.given_up(closed).union(self.expired(now)), now).reclaimed(now)
    }

    /// The actor once the frame with the transaction id `tid` arrived.
    pub open spec fn routed(self, tid: u16) -> ActorView {
        if self.pending.contains_key(tid) {
            ActorView { pending: self.pending.remove(tid), ..self }
        } else {
            ActorView { quarantined: self.quarantined.remove(tid), ..self }
        }
    }

    /// What becomes of the frame that arrived.
    pub open spec fn route_actions(self, frame: Seq<u8>) -> Seq<ActionView> {
        let tid = big_endian::be_word(frame[0], frame[1]);
        if self.pending.contains_key(tid) {
            seq![ActionView::Answer { waiter: self.pending[tid].waiter, outcome: Ok(frame) }]
        } else {
            Seq::empty()
        }
    }

    /// Whether the actor has a reason to wake up at `at`: a deadline, the end of a
    /// reservation, or the next look at requests that may have been given up.
    pub open spec fn may_wake_at(self, now: Instant, at: Instant) -> bool {
        ||| exists|tid: u16| #[trigger]
            self.pending.contains_key(tid) && self.pending[tid].response_deadline == at
        ||| exists|tid: u16| #[trigger]
            self.quarantined.contains_key(tid) && self.quarantined[tid] == at
        ||| self.pending.dom().len() > 0 && at == now.spec_plus(
            Duration { nanos: CANCELLATION_POLL_NANOS },
        )
    }

    /// `wake` is the earliest point at which the actor has a reason to wake up.
    pub open spec fn is_earliest_wake(self, now: Instant, wake: Option<Instant>) -> bool {
        match wake {
            Some(at) => self.may_wake_at(now, at) && forall|other: Instant| #[trigger]
                self.may_wake_at(now, other) ==> at.nanos <= other.nanos,
            None => forall|other: Instant| !#[trigger] self.may_wake_at(now, other),
        }
    }
}

/// One more item of a list is either among those before it or the item itself.
proof fn take_grows<T>(list: Seq<T>, i: int)
    requires
        0 <= i < list.len(),
    ensures
        forall|x: T| #[trigger]
            list.take(i + 1).contains(x) <==> list.take(i).contains(x) || x == list[i],
        list.no_duplicates() ==> !list.take(i).contains(list[i]),
{
    assert(list.take(i + 1) =~= list.take(i).push(list[i]));
    assert forall|x: T| #[trigger] list.take(i + 1).contains(x) <==> list.take(i).contains(x) || x
        == list[i] by {
        if list.take(i).contains(x) {
            let k = choose|k: int| 0 <= k < i && list.take(i)[k] == x;
            assert(list.take(i + 1)[k] == x);
        }
        assert(list.take(i + 1)[i] == list[i]);
    }
}

/// A list that was extended holds what it held and the new item.
proof fn push_grows<T>(list: Seq<T>, item: T)
    ensures
        forall|x: T| #[trigger] list.push(item).contains(x) <==> list.contains(x) || x == item,
        list.no_duplicates() && !list.contains(item) ==> list.push(item).no_duplicates(),
{
    assert forall|x: T| #[trigger] list.push(item).contains(x) <==> list.contains(x) || x
        == item by {
        if list.contains(x) {
            let k = choose|k: int| 0 <= k < list.len() && list[k] == x;
            assert(list.push(item)[k] == x);
        }
        assert(list.push(item)[list.len() as int] == item);
    }
}

/// Whether `closed` holds `waiter`.
fn is_closed(closed: &[u64], waiter: u64) -> (found: bool)
    ensures
        found == closed@.contains(waiter),
{
    let mut i: usize = 0;
    while i < closed.len()
        invariant
            i <= closed@.len(),
            forall|k: int| 0 <= k < i ==> closed@[k] != waiter,
        decreases closed@.len() - i,
    {
        if closed[i] == waiter {
            return true;
        }
        i = i + 1;
    }
    false
}

/// The pending ids whose waiters are in `closed`.
fn ids_given_up(pending: &HashMap<u16, PendingEntry>, closed: &[u64]) -> (ids: Vec<u16>)
    ensures
        pending::lists(
            ids@,
            pending@.dom().filter(|tid: u16| closed@.contains(pending@[tid].waiter)),
        ),
{
    let tids = transaction_ids(pending);
    let ghost wanted = pending@.dom().filter(
        |tid: u16| closed@.contains(pending@[tid].waiter),
    );
    let mut ids: Vec<u16> = Vec::new();
    let mut i: usize = 0;
    while i < tids.len()
        invariant
            i <= tids@.len(),
            pending::lists(tids@, pending@.dom()),
            wanted == pending@.dom().filter(
                |tid: u16| closed@.contains(pending@[tid].waiter),
            ),
            ids@.no_duplicates(),
            forall|tid: u16| #[trigger]
                ids@.contains(tid) <==> tids@.take(i as int).contains(tid) && wanted.contains(tid),
        decreases tids@.len() - i,
    {
        let tid: u16 = tids[i];
        proof {
            take_grows(tids@, i as int);
            push_grows(ids@, tid);
            assert(tids@.to_set().contains(tid));
        }
        if let Some(entry) = pending.get(&tid) {
            if is_closed(closed, entry.waiter) {
                ids.push(tid);
            }
        }
        i = i + 1;
    }
    assert(tids@.take(i as int) =~= tids@);
    assert forall|tid: u16| ids@.to_set().contains(tid) <==> wanted.contains(tid) by {
        assert(ids@.contains(tid) <==> tids@.contains(tid) && wanted.contains(tid));
        assert(tids@.to_set().contains(tid) <==> tids@.contains(tid));
    }
    assert(ids@.to_set() =~= wanted);
    ids
}

/// The pending ids whose deadlines have passed.
fn ids_expired(pending: &HashMap<u16, PendingEntry>, now: Instant) -> (ids: Vec<u16>)
    ensures
        pending::lists(
            ids@,
            pending@.dom().filter(|tid: u16| now.spec_reached(pending@[tid].response_deadline)),
        ),
{
    let tids = transaction_ids(pending);
    let ghost wanted = pending@.dom().filter(
        |tid: u16| now.spec_reached(pending@[tid].response_deadline),
    );
    let mut ids: Vec<u16> = Vec::new();
    let mut i: usize = 0;
    while i < tids.len()
        invariant
            i <= tids@.len(),
            pending::lists(tids@, pending@.dom()),
            wanted == pending@.dom().filter(
                |tid: u16| now.spec_reached(pending@[tid].response_deadline),
            ),
            ids@.no_duplicates(),
            forall|tid: u16| #[trigger]
                ids@.contains(tid) <==> tids@.take(i as int).contains(tid) && wanted.contains(tid),
        decreases tids@.len() - i,
    {
        let tid: u16 = tids[i];
        proof {
            take_grows(tids@, i as int);
            push_grows(ids@, tid);
            assert(tids@.to_set().contains(tid));
        }
        if let Some(entry) = pending.get(&tid) {
            if now.reached(entry.response_deadline) {
                ids.push(tid);
            }
        }
        i = i + 1;
    }
    assert(tids@.take(i as int) =~= tids@);
    assert forall|tid: u16| ids@.to_set().contains(tid) <==> wanted.contains(tid) by {
        assert(ids@.contains(tid) <==> tids@.contains(tid) && wanted.contains(tid));
        assert(tids@.to_set().contains(tid) <==> tids@.contains(tid));
    }
    assert(ids@.to_set() =~= wanted);
    ids
}

/// Forgets the reservations whose time has passed.
fn release_reached(quarantined: &mut HashMap<u16, Instant>, now: Instant)
    ensures
        final(quarantined)@ == old(quarantined)@.restrict(
            old(quarantined)@.dom().filter(
                |tid: u16| !now.spec_reached(old(quarantined)@[tid]),
            ),
        ),
{
    let tids = transaction_ids(quarantined);
    let ghost before = quarantined@;
    let mut i: usize = 0;
    while i < tids.len()
        invariant
            i <= tids@.len(),
            before == old(quarantined)@,
            pending::lists(tids@, before.dom()),
            forall|tid: u16| #[trigger]
                quarantined@.contains_key(tid) <==> before.contains_key(tid) && !(tids@.take(
                    i as int,
                ).contains(tid) && now.spec_reached(before[tid])),
            forall|tid: u16| #[trigger]
                quarantined@.contains_key(tid) ==> quarantined@[tid] == before[tid],
        decreases tids@.len() - i,
    {
        let tid: u16 = tids[i];
        proof {
            take_grows(tids@, i as int);
            assert(tids@.to_set().contains(tid));
            assert(before.contains_key(tid));
        }
        let reached: bool = match quarantined.get(&tid) {
            Some(until) => now.reached(*until),
            None => false,
        };
        if reached {
            quarantined.remove(&tid);
        }
        i = i + 1;
    }
    assert(tids@.take(i as int) =~= tids@);
    assert forall|tid: u16| before.contains_key(tid) implies tids@.contains(tid) by {
        assert(tids@.to_set().contains(tid));
    }
    assert(quarantined@ =~= before.restrict(
        before.dom().filter(|tid: u16| !now.spec_reached(before[tid])),
    ));
}

/// Takes the requests in `ids` off the wire and reserves their ids until `until`.
fn quarantine(
    pending: &mut HashMap<u16, PendingEntry>,
    quarantined: &mut HashMap<u16, Instant>,
    ids: &Vec<u16>,
    until: Instant,
)
    requires
        ids@.to_set().subset_of(old(pending)@.dom()),
    ensures
        final(pending)@ == old(pending)@.remove_keys(ids@.to_set()),
        final(quarantined)@ == old(quarantined)@.union_prefer_right(
            Map::new(|tid: u16| ids@.to_set().contains(tid), |tid: u16| until),
        ),
{
    let ghost pending_before = pending@;
    let ghost quarantined_before = quarantined@;
    let mut i: usize = 0;
    while i < ids.len()
        invariant
            i <= ids@.len(),
            forall|tid: u16| #[trigger]
                pending@.contains_key(tid) <==> pending_before.contains_key(tid) && !ids@.take(
                    i as int,
                ).contains(tid),
            forall|tid: u16| #[trigger]
                pending@.contains_key(tid) ==> pending@[tid] == pending_before[tid],
            forall|tid: u16| #[trigger]
                quarantined@.contains_key(tid) <==> quarantined_before.contains_key(tid)
                    || ids@.take(i as int).contains(tid),
            forall|tid: u16| #[trigger]
                quarantined@.contains_key(tid) ==> quarantined@[tid] == if ids@.take(
                    i as int,
                ).contains(tid) {
                    until
                } else {
                    quarantined_before[tid]
                },
        decreases ids@.len() - i,
    {
        let tid: u16 = ids[i];
        proof {
            take_grows(ids@, i as int);
        }
        pending.remove(&tid);
        quarantined.insert(tid, until);
        i = i + 1;
    }
    assert(ids@.take(i as int) =~= ids@);
    assert forall|tid: u16| ids@.to_set().contains(tid) <==> ids@.contains(tid) by {}
    assert(pending@ =~= pending_before.remove_keys(ids@.to_set()));
    assert(quarantined@ =~= quarantined_before.union_prefer_right(
        Map::new(|tid: u16| ids@.to_set().contains(tid), |tid: u16| until),
    ));
}

/// Appends an answer with `error` to the waiter of each of `ids`.
fn answer_each(
    actions: &mut Vec<Action>,
    pending: &HashMap<u16, PendingEntry>,
    ids: &Vec<u16>,
    error: &ModbusError,
)
    requires
        ids@.to_set().subset_of(pending@.dom()),
    ensures
        all(final(actions)@) == all(old(actions)@) + answers_in_order(
            ids@,
            pending@,
            Err(error@),
        ),
{
    let ghost before = all(actions@);
    let ghost wanted = answers_in_order(ids@, pending@, Err::<Seq<u8>, ErrorView>(error@));
    let mut i: usize = 0;
    assert(before =~= before + wanted.take(0));
    while i < ids.len()
        invariant
            i <= ids@.len(),
            ids@.to_set().subset_of(pending@.dom()),
            wanted == answers_in_order(ids@, pending@, Err::<Seq<u8>, ErrorView>(error@)),
            all(actions@) == before + wanted.take(i as int),
        decreases ids@.len() - i,
    {
        let tid: u16 = ids[i];
        assert(ids@.to_set().contains(tid));
        assert(pending@.contains_key(tid));
        if let Some(entry) = pending.get(&tid) {
            let ghost so_far = actions@;
            actions.push(Action::Answer { waiter: entry.waiter, outcome: Err(error.clone()) });
            assert(all(actions@) =~= all(so_far).push(wanted[i as int]));
            assert(wanted.take(i + 1) =~= wanted.take(i as int).push(wanted[i as int]));
            assert(all(actions@) =~= before + wanted.take(i + 1));
        }
        i = i + 1;
    }
    assert(wanted.take(i as int) =~= wanted);
}

/// The error of requests whose connection is closed.
pub fn default_teardown_error() -> (error: ModbusError)
    ensures
        error@ == connection_closed(),
{
    ModbusError::ReadError(
        Arc::new(IoError::new(IoErrorKind::ConnectionAborted, "connection closed")),
    )
}

/// How a caller learns of an error on the writing side.
pub fn write_error_from_sink(error: MbapCodecError) -> (mapped: ModbusError)
    ensures
        mapped@ == write_error(error@),
{
    match error {
        MbapCodecError::Io(error) => ModbusError::WriteError(Arc::new(error)),
        MbapCodecError::Modbus(ModbusError::WriteError(error)) => ModbusError::WriteError(error),
        MbapCodecError::Modbus(other) => ModbusError::WriteError(
            Arc::new(IoError::with_message(IoErrorKind::Other, other.to_string())),
        ),
    }
}

/// How a caller learns of an error on the reading side.
pub fn read_error_from_stream(error: MbapCodecError) -> (mapped: ModbusError)
    ensures
        mapped@ == read_error(error@),
{
    match error {
        MbapCodecError::Io(error) => ModbusError::ReadError(Arc::new(error)),
        MbapCodecError::Modbus(error) => error,
    }
}

impl Actor {
    /// An actor without a socket, whose first transaction id is `transaction_id`.
    pub fn new(
        host: String,
        port: u16,
        timeouts: ModbusTcpTimeouts,
        flow: ModbusTcpFlowControl,
        transaction_id: u16,
    ) -> (actor: Actor)
        ensures
            actor@ == (ActorView {
                host: host@,
                port,
                timeouts,
                flow,
                status: ConnectionStatus { connected: false, generation: 0 },
                pending: Map::empty(),
                quarantined: Map::empty(),
                next_tid: transaction_id,
                ctrl_closed: false,
                req_closed: false,
            }),
            actor@.wf(),
    {
        Actor {
            host,
            port,
            timeouts,
            flow,
            status: ConnectionStatus::disconnected(),
            pending: HashMap::new(),
            quarantined: HashMap::new(),
            next_tid: transaction_id,
            ctrl_closed: false,
            req_closed: false,
        }
    }

    /// Whether the actor is done: both command channels are closed and no requests
    /// are pending.
    pub fn is_finished(&self) -> (finished: bool)
        ensures
            finished == self@.finished(),
    {
        self.ctrl_closed && self.req_closed && self.pending.len() == 0
    }

    /// Whether a request may be taken.
    pub fn window_has_room(&self) -> (room: bool)
        ensures
            room == self@.has_room(),
    {
        self.pending.len() < self.flow.max_in_flight && !self.req_closed
    }

    /// A pending request whose waiter is in `closed`.
    pub fn cancelled_tid(&self, closed: &[u64]) -> (cancelled: Option<u16>)
        ensures
            match cancelled {
                Some(tid) => self@.given_up(closed@).contains(tid),
                None => forall|tid: u16| !#[trigger] self@.given_up(closed@).contains(tid),
            },
    {
        let ids = ids_given_up(&self.pending, closed);
        assert(ids@.to_set() =~= self@.given_up(closed@));
        if ids.len() > 0 {
            assert(ids@.to_set().contains(ids@[0]));
            Some(ids[0])
        } else {
            assert forall|tid: u16| !#[trigger] self@.given_up(closed@).contains(tid) by {
                assert(!ids@.to_set().contains(tid));
            }
            None
        }
    }

    /// The earliest point at which the actor has a reason to wake up: a response
    /// deadline, the end of a reservation or, while requests are pending, the next
    /// look at those that may have been given up.
    pub fn earliest_wake(&self, now: Instant) -> (wake: Option<Instant>)
        requires
            self@.pending.dom().len() > 0 ==> now.can_add(
                Duration { nanos: CANCELLATION_POLL_NANOS },
            ),
        ensures
            self@.is_earliest_wake(now, wake),
    {
        let mut wake: Option<Instant> = None;
        if self.pending.len() > 0 {
            wake = Some(now.plus(Duration { nanos: CANCELLATION_POLL_NANOS }));
        }
        let ghost poll = now.spec_plus(Duration { nanos: CANCELLATION_POLL_NANOS });
        let tids = transaction_ids(&self.pending);
        let mut i: usize = 0;
        while i < tids.len()
            invariant
                i <= tids@.len(),
                poll == now.spec_plus(Duration { nanos: CANCELLATION_POLL_NANOS }),
                pending::lists(tids@, self@.pending.dom()),
                wake is None ==> self@.pending.dom().len() == 0 && i == 0,
                wake matches Some(at) ==> self@.may_wake_at(now, at),
                wake matches Some(at) ==> (self@.pending.dom().len() > 0 ==> at.nanos
                    <= poll.nanos),
                wake matches Some(at) ==> forall|k: int|
                    0 <= k < i ==> at.nanos
                        <= self@.pending[#[trigger] tids@[k]].response_deadline.nanos,
                tids@.len() == self@.pending.dom().len(),
            decreases tids@.len() - i,
        {
            let tid: u16 = tids[i];
            assert(tids@.to_set().contains(tid));
            assert(self@.pending.contains_key(tid));
            if let Some(entry) = self.pending.get(&tid) {
                let at: Instant = entry.response_deadline;
                assert(self@.may_wake_at(now, at));
                wake = earlier(wake, at);
            }
            i = i + 1;
        }
        let ghost after_pending = wake;
        let reserved = transaction_ids(&self.quarantined);
        let mut j: usize = 0;
        while j < reserved.len()
            invariant
                j <= reserved@.len(),
                pending::lists(reserved@, self@.quarantined.dom()),
                wake matches Some(at) ==> self@.may_wake_at(now, at),
                after_pending matches Some(first) ==> (wake matches Some(at) && at.nanos
                    <= first.nanos),
                j > 0 ==> wake is Some,
                j == 0 ==> wake == after_pending,
                wake matches Some(at) ==> forall|k: int|
                    0 <= k < j ==> at.nanos <= self@.quarantined[#[trigger] reserved@[k]].nanos,
            decreases reserved@.len() - j,
        {
            let tid: u16 = reserved[j];
            assert(reserved@.to_set().contains(tid));
            assert(self@.quarantined.contains_key(tid));
            if let Some(until) = self.quarantined.get(&tid) {
                let at: Instant = *until;
                assert(self@.may_wake_at(now, at));
                wake = earlier(wake, at);
            }
            j = j + 1;
        }
        assert forall|other: Instant| #[trigger] self@.may_wake_at(now, other) implies (
        wake matches Some(at) && at.nanos <= other.nanos) by {
            if exists|tid: u16| #[trigger]
                self@.pending.contains_key(tid) && self@.pending[tid].response_deadline == other {
                let tid = choose|tid: u16| #[trigger]
                    self@.pending.contains_key(tid) && self@.pending[tid].response_deadline
                        == other;
                assert(tids@.to_set().contains(tid));
                let k = choose|k: int| 0 <= k < tids@.len() && tids@[k] == tid;
                assert(self@.pending[tids@[k]].response_deadline == other);
            } else if exists|tid: u16| #[trigger]
                self@.quarantined.contains_key(tid) && self@.quarantined[tid] == other {
                let tid = choose|tid: u16| #[trigger]
                    self@.quarantined.contains_key(tid) && self@.quarantined[tid] == other;
                assert(reserved@.to_set().contains(tid));
                let k = choose|k: int| 0 <= k < reserved@.len() && reserved@[k] == tid;
                assert(self@.quarantined[reserved@[k]] == other);
            }
        }
        wake
    }

    /// What the actor does next, where the waiters in `closed` have been given up.
    ///
    /// A request that was given up comes before everything but the end. Control
    /// commands are taken as long as there can be any, requests only while there is
    /// room on the wire, and frames while a socket is open.
    pub fn next_step(&self, now: Instant, closed: &[u64]) -> (step: Step)
        requires
            self@.pending.dom().len() > 0 ==> now.can_add(
                Duration { nanos: CANCELLATION_POLL_NANOS },
            ),
        ensures
            self@.finished() <==> step is Stop,
            !self@.finished() && (exists|tid: u16| #[trigger]
                self@.given_up(closed@).contains(tid)) <==> step is Cancel,
            step matches Step::Cancel(tid) ==> self@.given_up(closed@).contains(tid),
            step is Wait ==> self@.all_callers_wait(closed@),
            step matches Step::Wait { control, requests, frames, wake } ==> {
                &&& control == !self@.ctrl_closed
                &&& requests == self@.has_room()
                &&& frames == self@.status.connected
                &&& self@.is_earliest_wake(now, wake)
            },
    {
        if self.is_finished() {
            return Step::Stop;
        }
        if let Some(tid) = self.cancelled_tid(closed) {
            return Step::Cancel(tid);
        }
        Step::Wait {
            control: !self.ctrl_closed,
            requests: self.window_has_room(),
            frames: self.status.connected,
            wake: self.earliest_wake(now),
        }
    }

    /// Frees the reserved ids whose time has passed.
    pub fn reclaim_quarantine(&mut self, now: Instant)
        ensures
            final(self)@ == old(self)@.reclaimed(now),
    {
        release_reached(&mut self.quarantined, now);
    }

    /// Gives out the next transaction id that is neither pending nor reserved.
    ///
    /// # Errors
    ///
    /// Returns [`ModbusError::NoFreeTransactionId`] when every id is taken.
    pub fn allocate_tid(&mut self, now: Instant) -> (result: Result<u16, ModbusError>)
        ensures
            final(self)@ == old(self)@.allocated(now),
            match old(self)@.allocation(now) {
                Some(tid) => result == Ok::<u16, ModbusError>(tid),
                None => result matches Err(e) && e@ == ErrorView::NoFreeTransactionId,
            },
    {
        self.reclaim_quarantine(now);
        let ghost reclaimed = self@;
        let ghost start = self.next_tid;
        let ghost taken = reclaimed.taken();
        let mut probed: u32 = 0;
        while probed < MAX_TID_PROBES
            invariant
                probed <= MAX_TID_PROBES,
                reclaimed == old(self)@.reclaimed(now),
                start == old(self)@.next_tid,
                taken == reclaimed.taken(),
                self@ == (ActorView { next_tid: self.next_tid, ..reclaimed }),
                self.next_tid == pending::tid_after(start, probed as int),
                pending::first_free(taken, start, MAX_TID_PROBES as nat) == pending::first_free(
                    taken,
                    self.next_tid,
                    (MAX_TID_PROBES - probed) as nat,
                ),
            decreases MAX_TID_PROBES - probed,
        {
            let tid: u16 = self.next_tid;
            self.next_tid = next_transaction_id(tid);
            if !self.pending.contains_key(&tid) && !self.quarantined.contains_key(&tid) {
                return Ok(tid);
            }
            probed = probed + 1;
        }
        Err(ModbusError::NoFreeTransactionId)
    }

    /// Decides what becomes of a request that is to be written.
    ///
    /// It gets the next transaction id and becomes a frame, unless there is no id,
    /// the request does not keep to the limits, or no socket is open.
    pub fn write_on_wire(&mut self, cmd: RequestCommand, now: Instant) -> (action: Action)
        ensures
            final(self)@ == old(self)@.allocated(now),
            action@ == old(self)@.write_action(cmd@, now),
    {
        let tid: u16 = match self.allocate_tid(now) {
            Ok(tid) => tid,
            Err(error) => return Action::Answer { waiter: cmd.waiter, outcome: Err(error) },
        };
        let pdu = match cmd.pdu.serialize() {
            Ok(pdu) => pdu,
            Err(error) => return Action::Answer { waiter: cmd.waiter, outcome: Err(error) },
        };
        proof {
            crate::request::valid_request_fits(cmd.pdu);
        }
        let adu = match build_modbus_tcp_adu_from_pdu_bytes(tid, cmd.unit_id, &pdu) {
            Ok(adu) => adu,
            Err(error) => return Action::Answer { waiter: cmd.waiter, outcome: Err(error) },
        };
        if !self.status.connected {
            return Action::Answer {
                waiter: cmd.waiter,
                outcome: Err(
                    ModbusError::ReadError(
                        Arc::new(IoError::new(IoErrorKind::NotConnected, "connection not open")),
                    ),
                ),
            };
        }
        Action::Send { tid, waiter: cmd.waiter, adu }
    }

    /// Decides what becomes of a request that was taken from the queue.
    ///
    /// One that waited too long is answered at once. Without a socket, one is dialed
    /// first.
    pub fn dispatch(&mut self, cmd: RequestCommand, now: Instant) -> (action: Action)
        ensures
            final(self)@ == old(self)@.dispatched(cmd@, now),
            action@ == old(self)@.dispatch_action(cmd@, now),
    {
        if now.reached(cmd.queue_deadline) {
            return Action::Answer {
                waiter: cmd.waiter,
                outcome: Err(ModbusError::QueueTimeout),
            };
        }
        if !self.status.connected {
            return Action::Dial(Dialing::ForRequest(cmd));
        }
        self.write_on_wire(cmd, now)
    }

    /// The answers to the requests `commands`, which were queued when a connection
    /// attempt failed with `error`.
    pub fn fail_backlog(&self, commands: &Vec<RequestCommand>, error: &ModbusError) -> (actions:
        Vec<Action>)
        ensures
            actions@.len() == commands@.len(),
            forall|i: int|
                0 <= i < actions@.len() ==> #[trigger] actions@[i]@ == (ActionView::Answer {
                    waiter: commands@[i].waiter,
                    outcome: Err(error@),
                }),
    {
        let mut actions: Vec<Action> = Vec::new();
        let mut i: usize = 0;
        while i < commands.len()
            invariant
                i <= commands@.len(),
                actions@.len() == i,
                forall|k: int|
                    0 <= k < i ==> #[trigger] actions@[k]@ == (ActionView::Answer {
                        waiter: commands@[k].waiter,
                        outcome: Err(error@),
                    }),
            decreases commands@.len() - i,
        {
            actions.push(
                Action::Answer { waiter: commands[i].waiter, outcome: Err(error.clone()) },
            );
            i = i + 1;
        }
        actions
    }

    /// Decides what becomes of a frame that arrived: it answers the request with its
    /// transaction id, if there is one. A late response frees the id that was
    /// reserved for it.
    pub fn route_frame(&mut self, frame: Vec<u8>) -> (actions: Vec<Action>)
        requires
            frame@.len() >= 2,
        ensures
            final(self)@ == old(self)@.routed(big_endian::be_word(frame@[0], frame@[1])),
            all(actions@) == old(self)@.route_actions(frame@),
    {
        let tid: u16 = word_of_be(frame[0], frame[1]);
        let mut actions: Vec<Action> = Vec::new();
        match self.pending.remove(&tid) {
            Some(entry) => {
                actions.push(Action::Answer { waiter: entry.waiter, outcome: Ok(frame) });
            },
            None => {
                self.quarantined.remove(&tid);
                assert(self.pending@ =~= old(self)@.pending);
            },
        }
        assert(all(actions@) =~= old(self)@.route_actions(frame@));
        actions
    }

    /// Takes the request with the transaction id `tid` off the wire, if there is one,
    /// and reserves its id.
    pub fn cancel_in_flight(&mut self, tid: u16, now: Instant)
        requires
            old(self)@.pending.contains_key(tid) ==> now.can_add(old(self).flow.quarantine_ttl),
        ensures
            final(self)@ == if old(self)@.pending.contains_key(tid) {
                old(self)@.quarantining(set![tid], now)
            } else {
                old(self)@
            },
    {
        if self.pending.remove(&tid).is_some() {
            self.quarantined.insert(tid, now.plus(self.flow.quarantine_ttl));
            assert(self.pending@ =~= old(self)@.quarantining(set![tid], now).pending);
            assert(self.quarantined@ =~= old(self)@.quarantining(set![tid], now).quarantined);
        } else {
            assert(self.pending@ =~= old(self)@.pending);
        }
    }

    /// Looks at the deadlines: requests that were given up or whose time has passed
    /// are taken off the wire and their ids reserved, those whose time has passed are
    /// answered, and reserved ids whose time has passed are free again. The socket
    /// stays open.
    pub fn handle_deadlines(&mut self, now: Instant, closed: &[u64]) -> (actions: Vec<Action>)
        requires
            old(self)@.must_sweep(now, closed@) ==> now.can_add(old(self).flow.quarantine_ttl),
        ensures
            final(self)@ == old(self)@.swept(now, closed@),
            answers(
                all(actions@),
                old(self)@.pending,
                old(self)@.expired(now).difference(old(self)@.given_up(closed@)),
                Err(ErrorView::ReadTimeout),
            ),
    {
        let ghost before = self@;
        let cancelled = ids_given_up(&self.pending, closed);
        assert(cancelled@.to_set() =~= before.given_up(closed@));
        proof {
            if cancelled@.len() > 0 {
                assert(cancelled@.to_set().contains(cancelled@[0]));
                assert(before.pending.contains_key(cancelled@[0]));
            }
        }
        self.quarantine_all(&cancelled, now);
        let ghost between = self@;
        let expired = ids_expired(&self.pending, now);
        let ghost late = before.expired(now).difference(before.given_up(closed@));
        assert(expired@.to_set() =~= late);
        let mut actions: Vec<Action> = Vec::new();
        answer_each(&mut actions, &self.pending, &expired, &ModbusError::ReadTimeout);
        proof {
            let outcome = Err::<Seq<u8>, ErrorView>(ErrorView::ReadTimeout);
            assert forall|i: int| 0 <= i < expired@.len() implies between.pending[#[trigger]
            expired@[i]] == before.pending[expired@[i]] by {
                assert(expired@.to_set().contains(expired@[i]));
            }
            assert(answers_in_order(expired@, between.pending, outcome) =~= answers_in_order(
                expired@,
                before.pending,
                outcome,
            ));
            assert(all(actions@) =~= answers_in_order(expired@, before.pending, outcome));
            assert(pending::lists(expired@, late));
            if expired@.len() > 0 {
                assert(expired@.to_set().contains(expired@[0]));
                assert(before.pending.contains_key(expired@[0]));
            }
        }
        self.quarantine_all(&expired, now);
        proof {
            let gone = before.given_up(closed@).union(before.expired(now));
            assert(self.pending@ =~= before.quarantining(gone, now).pending);
            assert(self.quarantined@ =~= before.quarantining(gone, now).quarantined);
        }
        self.reclaim_quarantine(now);
        actions
    }

    /// Takes the requests in `ids` off the wire and reserves their ids.
    fn quarantine_all(&mut self, ids: &Vec<u16>, now: Instant)
        requires
            ids@.to_set().subset_of(old(self)@.pending.dom()),
            ids@.len() > 0 ==> now.can_add(old(self).flow.quarantine_ttl),
        ensures
            final(self)@ == old(self)@.quarantining(ids@.to_set(), now),
    {
        if ids.len() > 0 {
            let until: Instant = now.plus(self.flow.quarantine_ttl);
            quarantine(&mut self.pending, &mut self.quarantined, ids, until);
            assert(self.quarantined@ =~= old(self)@.quarantining(ids@.to_set(), now).quarantined);
        } else {
            assert(self.pending@ =~= old(self)@.quarantining(ids@.to_set(), now).pending);
            assert(self.quarantined@ =~= old(self)@.quarantining(ids@.to_set(), now).quarantined);
        }
    }

    /// Closes the socket, if one is open, and fails every pending request with
    /// `reason`, or with the error of a closed connection where there is none.
    pub fn teardown(&mut self, reason: Option<ModbusError>) -> (actions: Vec<Action>)
        ensures
            final(self)@ == old(self)@.torn_down(),
            old(self)@.teardown_actions(
                all(actions@),
                match reason {
                    Some(error) => error@,
                    None => connection_closed(),
                },
            ),
    {
        let ghost before = self@;
        let error: ModbusError = match reason {
            Some(error) => error,
            None => default_teardown_error(),
        };
        let mut actions: Vec<Action> = Vec::new();
        if self.status.connected {
            self.status = self.status.closed();
            actions.push(Action::CloseSocket);
            actions.push(Action::Publish(self.status));
        }
        assert(all(actions@) =~= before.closing_actions());
        let ids = transaction_ids(&self.pending);
        answer_each(&mut actions, &self.pending, &ids, &error);
        proof {
            let closing = before.closing_actions();
            let answering = answers_in_order(
                ids@,
                before.pending,
                Err::<Seq<u8>, ErrorView>(error@),
            );
            assert(all(actions@) == closing + answering);
            assert(all(actions@).take(closing.len() as int) =~= closing);
            assert(all(actions@).skip(closing.len() as int) =~= answering);
            assert(pending::lists(ids@, before.pending.dom()));
        }
        self.pending.clear();
        actions
    }
}

/// The earlier of a point in time and another, if there is another.
fn earlier(first: Option<Instant>, second: Instant) -> (least: Option<Instant>)
    ensures
        match first {
            Some(at) => least == Some(if second.nanos < at.nanos { second } else { at }),
            None => least == Some(second),
        },
{
    match first {
        Some(at) => if second.nanos < at.nanos {
            Some(second)
        } else {
            Some(at)
        },
        None => Some(second),
    }
}

impl ActorView {
    /// `actions` follow the event that a connection attempt ended with `result`.
    pub open spec fn dialed_actions(
        self,
        dialing: DialingView,
        result: Result<(), ErrorView>,
        now: Instant,
    ) -> Seq<ActionView> {
        match (dialing, result) {
            (DialingView::ForCommand { ack }, Ok(())) => seq![
                ActionView::Publish(self.status.spec_opened()),
                ActionView::AcknowledgeConnect { ack, result: Ok(()) },
            ],
            (DialingView::ForCommand { ack }, Err(e)) => seq![
                ActionView::AcknowledgeConnect { ack, result: Err(e) },
            ],
            (DialingView::ForRequest(cmd), Ok(())) => seq![
                ActionView::Publish(self.status.spec_opened()),
                self.opened().dispatch_action(cmd, now),
            ],
            (DialingView::ForRequest(cmd), Err(e)) => seq![
                ActionView::Answer { waiter: cmd.waiter, outcome: Err(e) },
                ActionView::FailBacklog(e),
            ],
        }
    }

    /// The actor once a connection attempt ended with `result`.
    pub open spec fn after_dialing(
        self,
        dialing: DialingView,
        result: Result<(), ErrorView>,
        now: Instant,
    ) -> ActorView {
        match (dialing, result) {
            (DialingView::ForCommand { .. }, Ok(())) => self.opened(),
            (DialingView::ForRequest(cmd), Ok(())) => self.opened().dispatched(cmd, now),
            (_, Err(_)) => self,
        }
    }

    /// The actor once the frame of the request with the transaction id `tid` was
    /// written.
    pub open spec fn on_the_wire(self, tid: u16, waiter: u64, now: Instant) -> ActorView {
        ActorView {
            pending: self.pending.insert(
                tid,
                PendingEntry {
                    waiter,
                    response_deadline: now.spec_plus(self.timeouts.response_timeout),
                },
            ),
            ..self
        }
    }

    /// `actions` follow a write that failed: the request is answered with `error`,
    /// and the connection is torn down.
    pub open spec fn failed_write_actions(
        self,
        actions: Seq<ActionView>,
        waiter: u64,
        error: ErrorView,
    ) -> bool {
        &&& actions.len() >= 1
        &&& actions[0] == ActionView::Answer { waiter, outcome: Err(error) }
        &&& self.teardown_actions(actions.skip(1), connection_closed())
    }

    /// `actions` follow a disconnect command: the connection is torn down, and the
    /// command is acknowledged.
    pub open spec fn disconnect_actions(self, actions: Seq<ActionView>, ack: u64) -> bool {
        &&& actions.len() >= 1
        &&& actions.last() == ActionView::AcknowledgeDisconnect { ack }
        &&& self.teardown_actions(actions.drop_last(), connection_closed())
    }
}

impl Actor {
    /// Whether a socket has to be dialed before anything can be written.
    pub fn needs_connection(&self) -> (needed: bool)
        ensures
            needed == !self@.status.connected,
    {
        !self.status.connected
    }

    /// Decides what follows a connection attempt.
    ///
    /// A socket that was opened starts a new generation, which is published. A request
    /// that waited for it goes on, or is answered if it waited too long by then. After a
    /// failed attempt nothing changes: the request is answered with the error, and with
    /// it the requests that are queued behind it.
    pub fn dialed(&mut self, dialing: Dialing, result: Result<(), ModbusError>, now: Instant) -> (
    actions: Vec<Action>)
        requires
            result is Ok ==> old(self).status.generation < u64::MAX,
        ensures
            final(self)@ == old(self)@.after_dialing(dialing@, dial_result(result), now),
            all(actions@) == old(self)@.dialed_actions(dialing@, dial_result(result), now),
    {
        let ghost before = self@;
        let ghost expected = before.dialed_actions(dialing@, dial_result(result), now);
        let mut actions: Vec<Action> = Vec::new();
        match result {
            Ok(()) => {
                self.status = self.status.opened();
                actions.push(Action::Publish(self.status));
                match dialing {
                    Dialing::ForCommand { ack } => {
                        actions.push(Action::AcknowledgeConnect { ack, result: Ok(()) });
                    },
                    Dialing::ForRequest(cmd) => {
                        actions.push(self.dispatch(cmd, now));
                    },
                }
            },
            Err(error) => match dialing {
                Dialing::ForCommand { ack } => {
                    actions.push(Action::AcknowledgeConnect { ack, result: Err(error) });
                },
                Dialing::ForRequest(cmd) => {
                    actions.push(
                        Action::Answer { waiter: cmd.waiter, outcome: Err(error.clone()) },
                    );
                    actions.push(Action::FailBacklog(error));
                },
            },
        }
        assert(all(actions@) =~= expected);
        actions
    }

    /// Decides what follows the write of a frame.
    ///
    /// A request whose frame was written is pending until its response deadline. Where
    /// writing failed or took too long, the request is answered with that, and the
    /// connection is torn down.
    pub fn sent(&mut self, tid: u16, waiter: u64, outcome: WriteOutcome, now: Instant) -> (actions:
        Vec<Action>)
        requires
            outcome is Written ==> now.can_add(old(self).timeouts.response_timeout),
        ensures
            match outcome {
                WriteOutcome::Written => {
                    &&& final(self)@ == old(self)@.on_the_wire(tid, waiter, now)
                    &&& all(actions@) == Seq::<ActionView>::empty()
                },
                WriteOutcome::Failed(error) => {
                    &&& final(self)@ == old(self)@.torn_down()
                    &&& old(self)@.failed_write_actions(all(actions@), waiter, write_error(error@))
                },
                WriteOutcome::TimedOut => {
                    &&& final(self)@ == old(self)@.torn_down()
                    &&& old(self)@.failed_write_actions(
                        all(actions@),
                        waiter,
                        ErrorView::WriteTimeout,
                    )
                },
            },
    {
        let error = match outcome {
            WriteOutcome::Written => {
                let response_deadline: Instant = now.plus(self.timeouts.response_timeout);
                self.pending.insert(tid, PendingEntry { waiter, response_deadline });
                let actions: Vec<Action> = Vec::new();
                assert(all(actions@) =~= Seq::<ActionView>::empty());
                return actions;
            },
            WriteOutcome::Failed(error) => write_error_from_sink(error),
            WriteOutcome::TimedOut => ModbusError::WriteTimeout,
        };
        let mut actions: Vec<Action> = Vec::new();
        actions.push(Action::Answer { waiter, outcome: Err(error) });
        let mut closing = self.teardown(Some(default_teardown_error()));
        let ghost closing_view = all(closing@);
        actions.append(&mut closing);
        assert(all(actions@).skip(1) =~= closing_view);
        actions
    }

    /// Decides what follows a control command.
    ///
    /// A connect command is acknowledged at once where a socket is open already. A
    /// disconnect command tears the connection down, and is acknowledged in any case.
    pub fn control(&mut self, command: ControlCommand) -> (actions: Vec<Action>)
        ensures
            match command {
                ControlCommand::Connect { ack } => {
                    &&& final(self)@ == old(self)@
                    &&& all(actions@) == if old(self)@.status.connected {
                        seq![ActionView::AcknowledgeConnect { ack, result: Ok(()) }]
                    } else {
                        seq![ActionView::Dial(DialingView::ForCommand { ack })]
                    }
                },
                ControlCommand::Disconnect { ack } => {
                    &&& final(self)@ == old(self)@.torn_down()
                    &&& old(self)@.disconnect_actions(all(actions@), ack)
                },
            },
    {
        match command {
            ControlCommand::Connect { ack } => {
                let mut actions: Vec<Action> = Vec::new();
                if self.needs_connection() {
                    actions.push(Action::Dial(Dialing::ForCommand { ack }));
                    assert(all(actions@) =~= seq![
                        ActionView::Dial(DialingView::ForCommand { ack }),
                    ]);
                } else {
                    actions.push(Action::AcknowledgeConnect { ack, result: Ok(()) });
                    assert(all(actions@) =~= seq![
                        ActionView::AcknowledgeConnect { ack, result: Ok(()) },
                    ]);
                }
                actions
            },
            ControlCommand::Disconnect { ack } => {
                let mut actions = self.teardown(Some(default_teardown_error()));
                let ghost closing = all(actions@);
                actions.push(Action::AcknowledgeDisconnect { ack });
                assert(all(actions@).drop_last() =~= closing);
                actions
            },
        }
    }

    /// Decides what follows an event: the actor's next state and the actions.
    ///
    /// `closed` are the waiters that have been given up.
    pub fn handle(&mut self, event: Event, now: Instant, closed: &[u64]) -> (actions: Vec<Action>)
        requires
            event matches Event::Frame(frame) ==> frame@.len() >= 2,
            event is Woken && old(self)@.must_sweep(now, closed@) ==> now.can_add(
                old(self).flow.quarantine_ttl,
            ),
        ensures
            match event {
                Event::Control(ControlCommand::Connect { ack }) => {
                    &&& final(self)@ == old(self)@
                    &&& all(actions@) == if old(self)@.status.connected {
                        seq![ActionView::AcknowledgeConnect { ack, result: Ok(()) }]
                    } else {
                        seq![ActionView::Dial(DialingView::ForCommand { ack })]
                    }
                },
                Event::Control(ControlCommand::Disconnect { ack }) => {
                    &&& final(self)@ == old(self)@.torn_down()
                    &&& old(self)@.disconnect_actions(all(actions@), ack)
                },
                Event::ControlClosed => {
                    &&& final(self)@ == (ActorView { ctrl_closed: true, ..old(self)@ })
                    &&& all(actions@) == Seq::<ActionView>::empty()
                },
                Event::Request(cmd) => {
                    &&& final(self)@ == old(self)@.dispatched(cmd@, now)
                    &&& all(actions@) == seq![old(self)@.dispatch_action(cmd@, now)]
                },
                Event::RequestsClosed => {
                    &&& final(self)@ == (ActorView { req_closed: true, ..old(self)@ })
                    &&& all(actions@) == Seq::<ActionView>::empty()
                },
                Event::Frame(frame) => {
                    &&& final(self)@ == old(self)@.routed(
                        big_endian::be_word(frame@[0], frame@[1]),
                    )
                    &&& all(actions@) == old(self)@.route_actions(frame@)
                },
                Event::StreamFailed(error) => {
                    &&& final(self)@ == old(self)@.torn_down()
                    &&& old(self)@.teardown_actions(all(actions@), read_error(error@))
                },
                Event::StreamEnded => {
                    &&& final(self)@ == old(self)@.torn_down()
                    &&& old(self)@.teardown_actions(all(actions@), peer_closed())
                },
                Event::Woken => {
                    &&& final(self)@ == old(self)@.swept(now, closed@)
                    &&& answers(
                        all(actions@),
                        old(self)@.pending,
                        old(self)@.expired(now).difference(old(self)@.given_up(closed@)),
                        Err(ErrorView::ReadTimeout),
                    )
                },
            },
    {
        match event {
            Event::Control(command) => self.control(command),
            Event::ControlClosed => {
                self.ctrl_closed = true;
                let actions: Vec<Action> = Vec::new();
                assert(all(actions@) =~= Seq::<ActionView>::empty());
                actions
            },
            Event::Request(cmd) => {
                let mut actions: Vec<Action> = Vec::new();
                actions.push(self.dispatch(cmd, now));
                assert(all(actions@) =~= seq![old(self)@.dispatch_action(cmd@, now)]);
                actions
            },
            Event::RequestsClosed => {
                self.req_closed = true;
                let actions: Vec<Action> = Vec::new();
                assert(all(actions@) =~= Seq::<ActionView>::empty());
                actions
            },
            Event::Frame(frame) => self.route_frame(frame),
            Event::StreamFailed(error) => self.teardown(Some(read_error_from_stream(error))),
            Event::StreamEnded => self.teardown(
                Some(
                    ModbusError::ReadError(
                        Arc::new(
                            IoError::new(IoErrorKind::UnexpectedEof, "peer closed connection"),
                        ),
                    ),
                ),
            ),
            Event::Woken => self.handle_deadlines(now, closed),
        }
    }
}

} // verus!
