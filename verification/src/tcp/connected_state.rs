//! Rules of the task that reads responses from one established socket.
//!
//! The reader asks for bytes, first those of a header and then those of the body
//! that the header announces, and completes the caller that waits for the frame.
//! When it ends, every caller that still waits learns why.

use std::collections::HashMap;
use std::sync::Arc;

use vstd::prelude::*;

use crate::big_endian::{self, word_of_be};
use crate::error::{ErrorView, IoError, IoErrorKind, IoErrorView, ModbusError};
use crate::tcp::adu;
use crate::tcp::frame::{
    self, response_body_len_from_header, MAX_MODBUS_TCP_FRAME, MBAP_HEADER_LEN,
};
use crate::tcp::pending::{self, transaction_ids};
use crate::text::{self, push_boolean, push_decimal};

verus! {

/// What the reader waits for.
#[derive(Debug, Clone, Copy)]
pub enum ReaderState {
    /// The header of the next frame.
    Header,
    /// The body of a frame whose header was read.
    Body {
        /// The header.
        header: [u8; MBAP_HEADER_LEN],
        /// The number of bytes after it.
        body_len: usize,
    },
}

/// What the reader does with what it read.
#[derive(Debug)]
pub enum ReaderStep {
    /// It goes on with the body of the frame.
    ReadBody,
    /// It completes the caller that waits for the frame, and goes on.
    Deliver {
        /// Who waits.
        waiter: u64,
        /// The whole frame.
        frame: Vec<u8>,
    },
    /// Nobody waits for the frame; it goes on.
    Ignore,
    /// It ends.
    Stop(ModbusError),
}

/// How the reader ended.
#[derive(Debug)]
pub enum ReaderEnd {
    /// It stopped with an error.
    Failed(ModbusError),
    /// It panicked.
    Panicked,
}

/// What a caller that still waits is told.
#[derive(Debug)]
pub struct Failure {
    /// Who waits.
    pub waiter: u64,
    /// Why there will be no response.
    pub error: ModbusError,
}

/// Model of a [`ReaderState`].
pub ghost enum ReaderStateView {
    Header,
    Body { header: Seq<u8>, body_len: nat },
}

impl View for ReaderState {
    type V = ReaderStateView;

    open spec fn view(&self) -> ReaderStateView {
        match self {
            ReaderState::Header => ReaderStateView::Header,
            ReaderState::Body { header, body_len } => ReaderStateView::Body {
                header: header@,
                body_len: *body_len as nat,
            },
        }
    }
}

/// Model of a [`ReaderStep`].
pub ghost enum ReaderStepView {
    ReadBody,
    Deliver { waiter: u64, frame: Seq<u8> },
    Ignore,
    Stop(ErrorView),
}

impl View for ReaderStep {
    type V = ReaderStepView;

    open spec fn view(&self) -> ReaderStepView {
        match self {
            ReaderStep::ReadBody => ReaderStepView::ReadBody,
            ReaderStep::Deliver { waiter, frame } => ReaderStepView::Deliver {
                waiter: *waiter,
                frame: frame@,
            },
            ReaderStep::Ignore => ReaderStepView::Ignore,
            ReaderStep::Stop(error) => ReaderStepView::Stop(error@),
        }
    }
}

impl ReaderStateView {
    /// The number of bytes that the reader waits for.
    pub open spec fn wanted(self) -> nat {
        match self {
            ReaderStateView::Header => MBAP_HEADER_LEN as nat,
            ReaderStateView::Body { body_len, .. } => body_len,
        }
    }

    /// A header that was read is whole, and announced the body that is waited for.
    pub open spec fn wf(self) -> bool {
        self matches ReaderStateView::Body { header, body_len } ==> header.len() == MBAP_HEADER_LEN
            && frame::body_len_of(header) == Ok::<nat, ErrorView>(body_len)
    }

    /// The reader once it read `bytes`.
    pub open spec fn after(self, bytes: Seq<u8>) -> ReaderStateView {
        match self {
            ReaderStateView::Header => match frame::body_len_of(bytes) {
                Ok(body_len) => ReaderStateView::Body { header: bytes, body_len },
                Err(_) => self,
            },
            ReaderStateView::Body { .. } => ReaderStateView::Header,
        }
    }

    /// What the reader does with `bytes`.
    pub open spec fn step(self, bytes: Seq<u8>, pending: Map<u16, u64>) -> ReaderStepView {
        match self {
            ReaderStateView::Header => match frame::body_len_of(bytes) {
                Ok(_) => ReaderStepView::ReadBody,
                Err(error) => ReaderStepView::Stop(
                    ErrorView::MalformedResponse("invalid MBAP header: "@ + error.text()),
                ),
            },
            ReaderStateView::Body { header, .. } => {
                let tid = big_endian::be_word(header[0], header[1]);
                if pending.contains_key(tid) {
                    ReaderStepView::Deliver { waiter: pending[tid], frame: header + bytes }
                } else {
                    ReaderStepView::Ignore
                }
            },
        }
    }

    /// The pending map once the reader read a whole body.
    pub open spec fn pending_after(self, pending: Map<u16, u64>) -> Map<u16, u64> {
        match self {
            ReaderStateView::Header => pending,
            ReaderStateView::Body { header, .. } => pending.remove(
                big_endian::be_word(header[0], header[1]),
            ),
        }
    }
}

impl ReaderState {
    /// The number of bytes that the reader waits for.
    pub fn bytes_wanted(&self) -> (wanted: usize)
        ensures
            wanted == self@.wanted(),
    {
        match self {
            ReaderState::Header => MBAP_HEADER_LEN,
            ReaderState::Body { body_len, .. } => *body_len,
        }
    }

    /// Decides what the reader does with what it read: as many bytes as it waited
    /// for, or an I/O error.
    pub fn run_reader_loop(
        &mut self,
        pending: &mut HashMap<u16, u64>,
        read: Result<Vec<u8>, IoError>,
    ) -> (step: ReaderStep)
        requires
            old(self)@.wf(),
            read matches Ok(bytes) ==> bytes@.len() == old(self)@.wanted(),
        ensures
            final(self)@.wf(),
            match read {
                Ok(bytes) => {
                    &&& final(self)@ == old(self)@.after(bytes@)
                    &&& step@ == old(self)@.step(bytes@, old(pending)@)
                    &&& final(pending)@ == old(self)@.pending_after(old(pending)@)
                },
                Err(error) => {
                    &&& final(self)@ == old(self)@
                    &&& step@ == ReaderStepView::Stop(ErrorView::ReadError(error@))
                    &&& final(pending)@ == old(pending)@
                },
            },
    {
        let bytes = match read {
            Ok(bytes) => bytes,
            Err(error) => return ReaderStep::Stop(ModbusError::ReadError(Arc::new(error))),
        };
        match *self {
            ReaderState::Header => {
                let header = [
                    bytes[0],
                    bytes[1],
                    bytes[2],
                    bytes[3],
                    bytes[4],
                    bytes[5],
                    bytes[6],
                ];
                assert(header@ =~= bytes@);
                match response_body_len_from_header(header) {
                    Ok(body_len) => {
                        *self = ReaderState::Body { header, body_len };
                        ReaderStep::ReadBody
                    },
                    Err(error) => {
                        let mut message = "invalid MBAP header: ".to_owned();
                        message.append(error.to_string().as_str());
                        ReaderStep::Stop(ModbusError::MalformedResponse(message))
                    },
                }
            },
            ReaderState::Body { header, .. } => {
                *self = ReaderState::Header;
                let mut frame: Vec<u8> = Vec::new();
                frame.extend_from_slice(&header);
                frame.extend_from_slice(&bytes);
                assert(frame@ =~= header@ + bytes@);
                let tid: u16 = word_of_be(header[0], header[1]);
                match pending.remove(&tid) {
                    Some(waiter) => ReaderStep::Deliver { waiter, frame },
                    None => ReaderStep::Ignore,
                }
            },
        }
    }
}

/// The category and the message by which callers that still wait learn that the
/// reader ended with `error`.
pub open spec fn drain_cause(error: ErrorView) -> (IoErrorKind, Seq<char>) {
    match error {
        ErrorView::ReadError(e) => (e.kind, "reader task terminated"@),
        ErrorView::MalformedResponse(_) => (
            IoErrorKind::InvalidData,
            "reader task received malformed response"@,
        ),
        _ => (IoErrorKind::Other, "reader task terminated"@),
    }
}

/// The error with which the reader ended.
pub open spec fn end_error(end: ReaderEnd) -> ErrorView {
    match end {
        ReaderEnd::Failed(error) => error@,
        ReaderEnd::Panicked => ErrorView::ReadError(
            IoErrorView::new(IoErrorKind::Other, "reader task panicked"@),
        ),
    }
}

/// `failures` tell every waiter of `pending` of the failure `error`, each of them
/// exactly once, in some order.
pub open spec fn drained(
    failures: Seq<Failure>,
    pending: Map<u16, u64>,
    error: IoErrorView,
) -> bool {
    exists|order: Seq<u16>| #[trigger]
        pending::lists(order, pending.dom()) && failures.len() == order.len() && forall|i: int|
            0 <= i < order.len() ==> (#[trigger] failures[i]).waiter == pending[order[i]]
                && failures[i].error@ == ErrorView::ReadError(error)
}

/// Takes all in-flight request waiters out of the map, each with a transport error.
pub fn drain_pending(pending: &mut HashMap<u16, u64>, kind: IoErrorKind, reason: &str) -> (failures:
    Vec<Failure>)
    ensures
        final(pending)@ == Map::<u16, u64>::empty(),
        drained(failures@, old(pending)@, IoErrorView::new(kind, reason@)),
{
    let ghost before = pending@;
    let tids = transaction_ids(pending);
    let mut failures: Vec<Failure> = Vec::new();
    let mut i: usize = 0;
    while i < tids.len()
        invariant
            i <= tids@.len(),
            before == pending@,
            pending::lists(tids@, before.dom()),
            failures@.len() == i,
            forall|k: int|
                0 <= k < i ==> (#[trigger] failures@[k]).waiter == before[tids@[k]]
                    && failures@[k].error@ == ErrorView::ReadError(
                    IoErrorView::new(kind, reason@),
                ),
        decreases tids@.len() - i,
    {
        let tid: u16 = tids[i];
        assert(tids@.to_set().contains(tid));
        assert(before.contains_key(tid));
        if let Some(waiter) = pending.get(&tid) {
            failures.push(
                Failure {
                    waiter: *waiter,
                    error: ModbusError::ReadError(Arc::new(IoError::new(kind, reason))),
                },
            );
        }
        i = i + 1;
    }
    pending.clear();
    failures
}

/// Takes all in-flight request waiters out of the map when the reader has ended.
pub fn reader_loop(pending: &mut HashMap<u16, u64>, end: ReaderEnd) -> (failures: Vec<Failure>)
    ensures
        final(pending)@ == Map::<u16, u64>::empty(),
        ({
            let cause = drain_cause(end_error(end));
            drained(failures@, old(pending)@, IoErrorView::new(cause.0, cause.1))
        }),
{
    let error = match end {
        ReaderEnd::Failed(error) => error,
        ReaderEnd::Panicked => ModbusError::ReadError(
            Arc::new(IoError::new(IoErrorKind::Other, "reader task panicked")),
        ),
    };
    match error {
        ModbusError::ReadError(error) => drain_pending(
            pending,
            error.kind(),
            "reader task terminated",
        ),
        ModbusError::MalformedResponse(_) => drain_pending(
            pending,
            IoErrorKind::InvalidData,
            "reader task received malformed response",
        ),
        _ => drain_pending(pending, IoErrorKind::Other, "reader task terminated"),
    }
}

/// Takes all in-flight request waiters out of the map when the connection's state
/// is replaced or dropped.
pub fn drop_state(pending: &mut HashMap<u16, u64>) -> (failures: Vec<Failure>)
    ensures
        final(pending)@ == Map::<u16, u64>::empty(),
        drained(
            failures@,
            old(pending)@,
            IoErrorView::new(
                IoErrorKind::ConnectionAborted,
                "connection state replaced or dropped"@,
            ),
        ),
{
    drain_pending(pending, IoErrorKind::ConnectionAborted, "connection state replaced or dropped")
}

/// The state of a connection as text: its generation, and whether its reader has
/// ended.
pub fn state_text(generation: u64, reader_finished: bool) -> (rendered: String)
    ensures
        rendered@ == "ConnectedState { generation: "@ + text::decimal(generation as nat)
            + ", reader_finished: "@ + text::boolean(reader_finished) + ", .. }"@,
{
    let mut rendered = "ConnectedState { generation: ".to_owned();
    push_decimal(&mut rendered, generation);
    rendered.append(", reader_finished: ");
    push_boolean(&mut rendered, reader_finished);
    rendered.append(", .. }");
    rendered
}

/// A frame that is read in its two parts is delivered, whole, to the caller whose
/// transaction id it carries, and to nobody else.
pub proof fn frame_reaches_its_waiter(
    transaction_id: u16,
    protocol_id: u16,
    unit_id: u8,
    pdu: Seq<u8>,
    pending: Map<u16, u64>,
)
    requires
        1 <= pdu.len() <= MAX_MODBUS_TCP_FRAME - MBAP_HEADER_LEN,
        pending.contains_key(transaction_id),
    ensures
        ({
            let adu = adu::framed(transaction_id, protocol_id, unit_id, pdu);
            let header = adu.take(MBAP_HEADER_LEN as int);
            let waiting = ReaderStateView::Header.after(header);
            &&& ReaderStateView::Header.step(header, pending) is ReadBody
            &&& waiting.wanted() == pdu.len()
            &&& waiting.step(pdu, pending) == (ReaderStepView::Deliver {
                waiter: pending[transaction_id],
                frame: adu,
            })
            &&& waiting.pending_after(pending) == pending.remove(transaction_id)
            &&& waiting.after(pdu) is Header
        }),
{
    let adu = adu::framed(transaction_id, protocol_id, unit_id, pdu);
    adu::header_fields_read_back(transaction_id, protocol_id, unit_id, pdu);
    assert(adu.take(MBAP_HEADER_LEN as int) + pdu =~= adu);
}

/// The reader asks for the seven bytes of a header, and then for as many bytes as the
/// length field counts, but for the unit identifier that the header ends with. A length
/// field that no frame can have ends it.
pub proof fn reader_follows_the_length_field(header: Seq<u8>, pending: Map<u16, u64>)
    requires
        header.len() == 7,
    ensures
        ({
            let length = 256 * header[4] + header[5];
            let reader = ReaderStateView::Header;
            &&& reader.wanted() == 7
            &&& reader.pending_after(pending) == pending
            &&& 2 <= length <= 254 ==> {
                &&& reader.step(header, pending) is ReadBody
                &&& reader.after(header) == (ReaderStateView::Body {
                    header,
                    body_len: (length - 1) as nat,
                })
                &&& reader.after(header).wanted() == length - 1
            }
            &&& length < 2 || length > 254 ==> {
                &&& reader.step(header, pending) matches ReaderStepView::Stop(error)
                &&& error is MalformedResponse
                &&& reader.after(header) == reader
            }
        }),
{
}

/// The reader that ends for want of a valid header says what is wrong with it.
pub proof fn reader_says_what_is_wrong(header: Seq<u8>, pending: Map<u16, u64>)
    requires
        header.len() == 7,
        frame::body_len_of(header) is Err,
    ensures
        ReaderStateView::Header.step(header, pending) == ReaderStepView::Stop(
            ErrorView::MalformedResponse(
                "invalid MBAP header: "@ + frame::body_len_of(header)->Err_0.text(),
            ),
        ),
{
}

/// A frame goes to the caller that waits for the identifier in its first two bytes, as
/// a whole, and that caller then waits no more. Every other caller goes on waiting, and
/// a frame that nobody waits for goes nowhere.
pub proof fn frames_go_to_their_callers(
    header: Seq<u8>,
    body: Seq<u8>,
    pending: Map<u16, u64>,
    tid: u16,
    other: u16,
)
    requires
        header.len() == 7,
        tid == 256 * header[0] + header[1],
        other != tid,
    ensures
        ({
            let reader = ReaderStateView::Body { header, body_len: body.len() };
            &&& reader.wanted() == body.len()
            &&& reader.after(body) is Header
            &&& pending.contains_key(tid) ==> reader.step(body, pending) == (
            ReaderStepView::Deliver { waiter: pending[tid], frame: header + body })
            &&& !pending.contains_key(tid) ==> reader.step(body, pending) is Ignore
            &&& !reader.pending_after(pending).contains_key(tid)
            &&& reader.pending_after(pending).contains_key(other) == pending.contains_key(other)
            &&& pending.contains_key(other) ==> reader.pending_after(pending)[other]
                == pending[other]
        }),
{
}

/// What callers are told when the reader ends: the category of the failed read, that
/// the data was invalid, or none in particular.
pub proof fn end_of_the_reader_is_told(error: ModbusError)
    ensures
        drain_cause(error@) == match error {
            ModbusError::ReadError(e) => (e.kind, "reader task terminated"@),
            ModbusError::MalformedResponse(_) => (
                IoErrorKind::InvalidData,
                "reader task received malformed response"@,
            ),
            _ => (IoErrorKind::Other, "reader task terminated"@),
        },
        end_error(ReaderEnd::Failed(error)) == error@,
        end_error(ReaderEnd::Panicked) matches ErrorView::ReadError(e) && e.kind
            == IoErrorKind::Other && e.message == "reader task panicked"@ && e.raw_os_error is None,
{
}

/// A caller is told of the end of the reader by an error that may be tried again, and
/// so is every other one: as many callers as there were, each of them once.
pub proof fn everyone_is_told_once(
    failures: Seq<Failure>,
    pending: Map<u16, u64>,
    error: IoErrorView,
    i: int,
    tid: u16,
)
    requires
        drained(failures, pending, error),
    ensures
        failures.len() == pending.dom().len(),
        0 <= i < failures.len() ==> {
            &&& failures[i].error@ == ErrorView::ReadError(error)
            &&& failures[i].error@.transient()
            &&& exists|id: u16| #[trigger]
                pending.contains_key(id) && pending[id] == failures[i].waiter
        },
        pending.contains_key(tid) ==> exists|k: int|
            0 <= k < failures.len() && (#[trigger] failures[k]).waiter == pending[tid],
{
    let order = choose|order: Seq<u16>| #[trigger]
        pending::lists(order, pending.dom()) && failures.len() == order.len() && forall|i: int|
            0 <= i < order.len() ==> (#[trigger] failures[i]).waiter == pending[order[i]]
                && failures[i].error@ == ErrorView::ReadError(error);
    order.unique_seq_to_set();
    if 0 <= i < failures.len() {
        assert(order.to_set().contains(order[i]));
        assert(pending.contains_key(order[i]));
    }
    if pending.contains_key(tid) {
        assert(order.to_set().contains(tid));
        let k = choose|k: int| 0 <= k < order.len() && order[k] == tid;
        assert(failures[k].waiter == pending[tid]);
    }
}

/// The models of a reader and of its steps show all of them.
pub proof fn reader_models_are_complete(state: ReaderState, step: ReaderStep)
    ensures
        match state {
            ReaderState::Header => state@ is Header,
            ReaderState::Body { header, body_len } => state@ == (ReaderStateView::Body {
                header: header@,
                body_len: body_len as nat,
            }),
        },
        match step {
            ReaderStep::ReadBody => step@ is ReadBody,
            ReaderStep::Deliver { waiter, frame } => step@ == (ReaderStepView::Deliver {
                waiter,
                frame: frame@,
            }),
            ReaderStep::Ignore => step@ is Ignore,
            ReaderStep::Stop(error) => step@ == ReaderStepView::Stop(error@),
        },
{
}

} // verus!
