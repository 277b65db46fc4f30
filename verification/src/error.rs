//! Error types.

use std::sync::Arc;

use vstd::prelude::*;
use vstd::std_specs::cmp::PartialEqSpec;

use crate::text::{push_decimal, push_hex};

verus! {

/// Category of a transport I/O failure.
#[derive(Debug, Clone, Copy, PartialEq, Eq, Structural)]
pub enum IoErrorKind {
    /// An entity was not found.
    NotFound,
    /// The operation lacked the necessary privileges.
    PermissionDenied,
    /// The remote end refused the connection.
    ConnectionRefused,
    /// The remote end reset the connection.
    ConnectionReset,
    /// The remote host is not reachable.
    HostUnreachable,
    /// The network of the remote host is not reachable.
    NetworkUnreachable,
    /// The connection was aborted.
    ConnectionAborted,
    /// There is no connection.
    NotConnected,
    /// The socket address is already in use.
    AddrInUse,
    /// The socket address is not available.
    AddrNotAvailable,
    /// The network is down.
    NetworkDown,
    /// A pipe was closed at its other end.
    BrokenPipe,
    /// An entity already exists.
    AlreadyExists,
    /// The operation would have to block.
    WouldBlock,
    /// A parameter was incorrect.
    InvalidInput,
    /// The data was not valid for the operation.
    InvalidData,
    /// The operation's own time limit passed.
    TimedOut,
    /// A write accepted no byte.
    WriteZero,
    /// A resource is busy.
    ResourceBusy,
    /// The operation was interrupted.
    Interrupted,
    /// A network file handle is stale.
    StaleNetworkFileHandle,
    /// A path does not name a directory.
    NotADirectory,
    /// A path names a directory.
    IsADirectory,
    /// A directory is not empty.
    DirectoryNotEmpty,
    /// The file system is read-only.
    ReadOnlyFilesystem,
    /// The storage is full.
    StorageFull,
    /// The stream cannot be repositioned.
    NotSeekable,
    /// A quota was exceeded.
    QuotaExceeded,
    /// A file is too large.
    FileTooLarge,
    /// An executable file is in use.
    ExecutableFileBusy,
    /// The operation would deadlock.
    Deadlock,
    /// The operation crosses devices.
    CrossesDevices,
    /// There are too many links.
    TooManyLinks,
    /// A file name is not valid.
    InvalidFilename,
    /// An argument list is too long.
    ArgumentListTooLong,
    /// The operation is not supported.
    Unsupported,
    /// The end of the stream came too early.
    UnexpectedEof,
    /// There was not enough memory.
    OutOfMemory,
    /// A failure reported by the application.
    Other,
    /// A failure that has none of the categories above.
    Uncategorized,
}

/// A transport I/O failure: its category, its message and, where the operating
/// system reported it, the system's own code.
#[derive(Debug)]
pub struct IoError {
    /// Category of the failure.
    pub kind: IoErrorKind,
    /// Message of the failure.
    pub message: String,
    /// Code that the operating system gave.
    pub raw_os_error: Option<i32>,
}

/// Model of an [`IoError`].
pub ghost struct IoErrorView {
    pub kind: IoErrorKind,
    pub message: Seq<char>,
    pub raw_os_error: Option<i32>,
}

impl View for IoError {
    type V = IoErrorView;

    open spec fn view(&self) -> IoErrorView {
        IoErrorView {
            kind: self.kind,
            message: self.message@,
            raw_os_error: self.raw_os_error,
        }
    }
}

impl IoErrorView {
    /// The failure of category `kind` with the message `message`, which no
    /// operating system reported.
    pub open spec fn new(kind: IoErrorKind, message: Seq<char>) -> IoErrorView {
        IoErrorView { kind, message, raw_os_error: None }
    }

    /// What two failures are compared by: the category and the message.
    pub open spec fn compared(self) -> (IoErrorKind, Seq<char>) {
        (self.kind, self.message)
    }
}

impl IoError {
    /// A failure that no operating system reported.
    pub fn new(kind: IoErrorKind, message: &str) -> (error: IoError)
        ensures
            error@ == IoErrorView::new(kind, message@),
    {
        IoError { kind, message: message.to_owned(), raw_os_error: None }
    }

    /// A failure that no operating system reported, with an owned message.
    pub fn with_message(kind: IoErrorKind, message: String) -> (error: IoError)
        ensures
            error@ == IoErrorView::new(kind, message@),
    {
        IoError { kind, message, raw_os_error: None }
    }

    /// Category of the failure.
    pub fn kind(&self) -> (kind: IoErrorKind)
        ensures
            kind == self@.kind,
    {
        self.kind
    }

    /// Message of the failure.
    pub fn to_string(&self) -> (message: String)
        ensures
            message@ == self@.message,
    {
        self.message.clone()
    }
}

impl Clone for IoError {
    fn clone(&self) -> (copy: IoError)
        ensures
            copy@ == self@,
    {
        IoError {
            kind: self.kind,
            message: self.message.clone(),
            raw_os_error: self.raw_os_error,
        }
    }
}

/// Custom error type for the Modbus library.
///
/// Transport I/O variants store the [`IoError`] behind an [`Arc`].
#[derive(Debug)]
#[allow(inconsistent_fields)]
pub enum ModbusError {
    /// TCP connection establishment failed.
    ConnectError(Arc<IoError>),
    /// TCP connection establishment exceeded the configured timeout.
    ConnectTimeout,
    /// Writing bytes to the TCP stream failed.
    WriteError(Arc<IoError>),
    /// Writing a frame exceeded the configured timeout.
    WriteTimeout,
    /// Reading bytes from the TCP stream failed.
    ReadError(Arc<IoError>),
    /// Reading a frame exceeded the configured timeout.
    ReadTimeout,
    /// A request waited longer than the configured queue timeout before reaching the wire.
    QueueTimeout,
    /// A Modbus TCP response frame was structurally invalid.
    MalformedResponse(String),
    /// A Modbus PDU could not be decoded.
    DeserializationError(String),
    /// A slave returned a Modbus exception response.
    ExceptionResponse {
        /// Exception function code, including the high exception bit.
        function: u8,
        /// Modbus exception code.
        code: u8,
    },
    /// The response transaction identifier did not match the request.
    ///
    /// This is unreachable in normal operation and indicates internal response
    /// routing corruption or a reader bug.
    TransactionIdMismatch {
        /// Transaction identifier sent in the request.
        expected: u16,
        /// Transaction identifier received in the response.
        actual: u16,
    },
    /// The response protocol identifier was not Modbus TCP protocol id 0.
    ProtocolIdMismatch {
        /// Protocol identifier received in the response.
        actual: u16,
    },
    /// All candidate Modbus transaction identifiers are already in flight.
    NoFreeTransactionId,
    /// The response unit identifier did not match the request.
    UnitIdMismatch {
        /// Unit identifier sent in the request.
        expected: u8,
        /// Unit identifier received in the response.
        actual: u8,
    },
    /// The decoded response PDU did not match the request PDU.
    RequestResponseMismatch(String),
    /// A request failed protocol limit validation.
    ValidationError(String),
}

/// Model of a [`ModbusError`].
#[allow(inconsistent_fields)]
pub ghost enum ErrorView {
    ConnectError(IoErrorView),
    ConnectTimeout,
    WriteError(IoErrorView),
    WriteTimeout,
    ReadError(IoErrorView),
    ReadTimeout,
    QueueTimeout,
    MalformedResponse(Seq<char>),
    DeserializationError(Seq<char>),
    ExceptionResponse { function: u8, code: u8 },
    TransactionIdMismatch { expected: u16, actual: u16 },
    ProtocolIdMismatch { actual: u16 },
    NoFreeTransactionId,
    UnitIdMismatch { expected: u8, actual: u8 },
    RequestResponseMismatch(Seq<char>),
    ValidationError(Seq<char>),
}

impl View for ModbusError {
    type V = ErrorView;

    open spec fn view(&self) -> ErrorView {
        match self {
            ModbusError::ConnectError(e) => ErrorView::ConnectError(e@),
            ModbusError::ConnectTimeout => ErrorView::ConnectTimeout,
            ModbusError::WriteError(e) => ErrorView::WriteError(e@),
            ModbusError::WriteTimeout => ErrorView::WriteTimeout,
            ModbusError::ReadError(e) => ErrorView::ReadError(e@),
            ModbusError::ReadTimeout => ErrorView::ReadTimeout,
            ModbusError::QueueTimeout => ErrorView::QueueTimeout,
            ModbusError::MalformedResponse(m) => ErrorView::MalformedResponse(m@),
            ModbusError::DeserializationError(m) => ErrorView::DeserializationError(m@),
            ModbusError::ExceptionResponse { function, code } => ErrorView::ExceptionResponse {
                function: *function,
                code: *code,
            },
            ModbusError::TransactionIdMismatch { expected, actual } => {
                ErrorView::TransactionIdMismatch { expected: *expected, actual: *actual }
            },
            ModbusError::ProtocolIdMismatch { actual } => ErrorView::ProtocolIdMismatch {
                actual: *actual,
            },
            ModbusError::NoFreeTransactionId => ErrorView::NoFreeTransactionId,
            ModbusError::UnitIdMismatch { expected, actual } => ErrorView::UnitIdMismatch {
                expected: *expected,
                actual: *actual,
            },
            ModbusError::RequestResponseMismatch(m) => ErrorView::RequestResponseMismatch(m@),
            ModbusError::ValidationError(m) => ErrorView::ValidationError(m@),
        }
    }
}

impl ErrorView {
    /// The error with the operating system's code taken out of it.
    pub open spec fn without_os_code(self) -> ErrorView {
        match self {
            ErrorView::ConnectError(e) => ErrorView::ConnectError(
                IoErrorView { raw_os_error: None, ..e },
            ),
            ErrorView::WriteError(e) => ErrorView::WriteError(
                IoErrorView { raw_os_error: None, ..e },
            ),
            ErrorView::ReadError(e) => ErrorView::ReadError(
                IoErrorView { raw_os_error: None, ..e },
            ),
            other => other,
        }
    }

    /// A failure of the transport, which a fresh attempt may overcome.
    pub open spec fn transient(self) -> bool {
        ||| self is ConnectError
        ||| self is ConnectTimeout
        ||| self is WriteError
        ||| self is WriteTimeout
        ||| self is ReadError
        ||| self is ReadTimeout
        ||| self is QueueTimeout
        ||| self is MalformedResponse
    }

    /// An exception response by which a gateway or slave says that it is busy.
    pub open spec fn gateway_busy(self) -> bool {
        self matches ErrorView::ExceptionResponse { code, .. } && (code == 0x05 || code == 0x06
            || code == 0x0A || code == 0x0B)
    }

    /// The error's message.
    pub open spec fn text(self) -> Seq<char> {
        match self {
            ErrorView::ConnectError(e) => "TCP connect error: "@ + e.message,
            ErrorView::ConnectTimeout => "TCP connect timed out"@,
            ErrorView::WriteError(e) => "TCP write error: "@ + e.message,
            ErrorView::WriteTimeout => "TCP write timed out"@,
            ErrorView::ReadError(e) => "TCP read error: "@ + e.message,
            ErrorView::ReadTimeout => "TCP read timed out"@,
            ErrorView::QueueTimeout => "Modbus request queue timed out"@,
            ErrorView::MalformedResponse(m) => "Malformed response: "@ + m,
            ErrorView::DeserializationError(m) => "Deserialization error: "@ + m,
            ErrorView::ExceptionResponse { function, code } => {
                "Modbus exception response: function 0x"@ + crate::text::hex(function as nat, 2)
                    + ", code 0x"@ + crate::text::hex(code as nat, 2)
            },
            ErrorView::TransactionIdMismatch { expected, actual } => {
                "Transaction ID mismatch: sent "@ + crate::text::decimal(expected as nat)
                    + ", received "@ + crate::text::decimal(actual as nat)
            },
            ErrorView::ProtocolIdMismatch { actual } => {
                "Protocol ID mismatch: expected 0, received "@ + crate::text::decimal(actual as nat)
            },
            ErrorView::NoFreeTransactionId => "no free Modbus transaction id available"@,
            ErrorView::UnitIdMismatch { expected, actual } => {
                "Unit ID mismatch: expected "@ + crate::text::decimal(expected as nat)
                    + ", received "@ + crate::text::decimal(actual as nat)
            },
            ErrorView::RequestResponseMismatch(m) => "Request/response mismatch: "@ + m,
            ErrorView::ValidationError(m) => "Validation error: "@ + m,
        }
    }
}

/// Whether two I/O failures have the same category and the same message.
pub fn io_errors_equal(lhs: &IoError, rhs: &IoError) -> (equal: bool)
    ensures
        equal == (lhs@.compared() == rhs@.compared()),
{
    lhs.kind == rhs.kind && lhs.message == rhs.message
}

impl vstd::std_specs::cmp::PartialEqSpecImpl for ModbusError {
    open spec fn obeys_eq_spec() -> bool {
        true
    }

    open spec fn eq_spec(&self, other: &ModbusError) -> bool {
        self@.without_os_code() == other@.without_os_code()
    }
}

impl PartialEq for ModbusError {
    fn eq(&self, other: &ModbusError) -> (equal: bool) {
        match (self, other) {
            (ModbusError::ConnectError(lhs), ModbusError::ConnectError(rhs)) => io_errors_equal(
                lhs,
                rhs,
            ),
            (ModbusError::WriteError(lhs), ModbusError::WriteError(rhs)) => io_errors_equal(
                lhs,
                rhs,
            ),
            (ModbusError::ReadError(lhs), ModbusError::ReadError(rhs)) => io_errors_equal(lhs, rhs),
            (ModbusError::ConnectTimeout, ModbusError::ConnectTimeout) => true,
            (ModbusError::WriteTimeout, ModbusError::WriteTimeout) => true,
            (ModbusError::ReadTimeout, ModbusError::ReadTimeout) => true,
            (ModbusError::QueueTimeout, ModbusError::QueueTimeout) => true,
            (ModbusError::NoFreeTransactionId, ModbusError::NoFreeTransactionId) => true,
            (ModbusError::MalformedResponse(lhs), ModbusError::MalformedResponse(rhs)) => *lhs == *rhs,
            (ModbusError::DeserializationError(lhs), ModbusError::DeserializationError(rhs)) => *lhs == *rhs,
            (
                ModbusError::RequestResponseMismatch(lhs),
                ModbusError::RequestResponseMismatch(rhs),
            ) => *lhs == *rhs,
            (ModbusError::ValidationError(lhs), ModbusError::ValidationError(rhs)) => *lhs == *rhs,
            (
                ModbusError::ExceptionResponse { function: lhs_function, code: lhs_code },
                ModbusError::ExceptionResponse { function: rhs_function, code: rhs_code },
            ) => *lhs_function == *rhs_function && *lhs_code == *rhs_code,
            (
                ModbusError::TransactionIdMismatch { expected: lhs_expected, actual: lhs_actual },
                ModbusError::TransactionIdMismatch { expected: rhs_expected, actual: rhs_actual },
            ) => *lhs_expected == *rhs_expected && *lhs_actual == *rhs_actual,
            (
                ModbusError::ProtocolIdMismatch { actual: lhs_actual },
                ModbusError::ProtocolIdMismatch { actual: rhs_actual },
            ) => *lhs_actual == *rhs_actual,
            (
                ModbusError::UnitIdMismatch { expected: lhs_expected, actual: lhs_actual },
                ModbusError::UnitIdMismatch { expected: rhs_expected, actual: rhs_actual },
            ) => *lhs_expected == *rhs_expected && *lhs_actual == *rhs_actual,
            _ => false,
        }
    }
}

impl Clone for ModbusError {
    fn clone(&self) -> (copy: ModbusError)
        ensures
            copy@ == self@,
    {
        match self {
            ModbusError::ConnectError(e) => ModbusError::ConnectError(e.clone()),
            ModbusError::ConnectTimeout => ModbusError::ConnectTimeout,
            ModbusError::WriteError(e) => ModbusError::WriteError(e.clone()),
            ModbusError::WriteTimeout => ModbusError::WriteTimeout,
            ModbusError::ReadError(e) => ModbusError::ReadError(e.clone()),
            ModbusError::ReadTimeout => ModbusError::ReadTimeout,
            ModbusError::QueueTimeout => ModbusError::QueueTimeout,
            ModbusError::MalformedResponse(m) => ModbusError::MalformedResponse(m.clone()),
            ModbusError::DeserializationError(m) => ModbusError::DeserializationError(m.clone()),
            ModbusError::ExceptionResponse { function, code } => ModbusError::ExceptionResponse {
                function: *function,
                code: *code,
            },
            ModbusError::TransactionIdMismatch { expected, actual } => {
                ModbusError::TransactionIdMismatch { expected: *expected, actual: *actual }
            },
            ModbusError::ProtocolIdMismatch { actual } => ModbusError::ProtocolIdMismatch {
                actual: *actual,
            },
            ModbusError::NoFreeTransactionId => ModbusError::NoFreeTransactionId,
            ModbusError::UnitIdMismatch { expected, actual } => ModbusError::UnitIdMismatch {
                expected: *expected,
                actual: *actual,
            },
            ModbusError::RequestResponseMismatch(m) => ModbusError::RequestResponseMismatch(
                m.clone(),
            ),
            ModbusError::ValidationError(m) => ModbusError::ValidationError(m.clone()),
        }
    }
}

impl ModbusError {
    /// Returns `true` if this error represents a transient transport failure
    /// that callers may safely retry (connect, read, or write I/O failures,
    /// malformed TCP response frames, and their associated timeouts).
    ///
    /// Malformed TCP response frames are treated as transient because a corrupt or
    /// desynchronized stream can often be recovered by reconnecting and retrying
    /// on a fresh socket. Protocol-level and validation errors are considered
    /// permanent.
    #[must_use]
    pub fn is_transient(&self) -> (transient: bool)
        ensures
            transient == self@.transient(),
    {
        match self {
            ModbusError::ConnectError(_) => true,
            ModbusError::ConnectTimeout => true,
            ModbusError::WriteError(_) => true,
            ModbusError::WriteTimeout => true,
            ModbusError::ReadError(_) => true,
            ModbusError::ReadTimeout => true,
            ModbusError::QueueTimeout => true,
            ModbusError::MalformedResponse(_) => true,
            _ => false,
        }
    }

    /// Returns true for Modbus exception codes that indicate temporary gateway/slave busy states.
    #[must_use]
    pub fn is_gateway_busy(&self) -> (busy: bool)
        ensures
            busy == self@.gateway_busy(),
    {
        match self {
            ModbusError::ExceptionResponse { code, .. } => *code == 0x05 || *code == 0x06 || *code
                == 0x0A || *code == 0x0B,
            _ => false,
        }
    }

    /// The error's message.
    pub fn to_string(&self) -> (text: String)
        ensures
            text@ == self@.text(),
    {
        match self {
            ModbusError::ConnectError(e) => with_detail("TCP connect error: ", &e.message),
            ModbusError::ConnectTimeout => "TCP connect timed out".to_owned(),
            ModbusError::WriteError(e) => with_detail("TCP write error: ", &e.message),
            ModbusError::WriteTimeout => "TCP write timed out".to_owned(),
            ModbusError::ReadError(e) => with_detail("TCP read error: ", &e.message),
            ModbusError::ReadTimeout => "TCP read timed out".to_owned(),
            ModbusError::QueueTimeout => "Modbus request queue timed out".to_owned(),
            ModbusError::MalformedResponse(m) => with_detail("Malformed response: ", m),
            ModbusError::DeserializationError(m) => with_detail("Deserialization error: ", m),
            ModbusError::ExceptionResponse { function, code } => {
                let mut text = "Modbus exception response: function 0x".to_owned();
                push_hex(&mut text, *function as u64, 2);
                text.append(", code 0x");
                push_hex(&mut text, *code as u64, 2);
                text
            },
            ModbusError::TransactionIdMismatch { expected, actual } => {
                let mut text = "Transaction ID mismatch: sent ".to_owned();
                push_decimal(&mut text, *expected as u64);
                text.append(", received ");
                push_decimal(&mut text, *actual as u64);
                text
            },
            ModbusError::ProtocolIdMismatch { actual } => {
                let mut text = "Protocol ID mismatch: expected 0, received ".to_owned();
                push_decimal(&mut text, *actual as u64);
                text
            },
            ModbusError::NoFreeTransactionId => "no free Modbus transaction id available".to_owned(),
            ModbusError::UnitIdMismatch { expected, actual } => {
                let mut text = "Unit ID mismatch: expected ".to_owned();
                push_decimal(&mut text, *expected as u64);
                text.append(", received ");
                push_decimal(&mut text, *actual as u64);
                text
            },
            ModbusError::RequestResponseMismatch(m) => with_detail(
                "Request/response mismatch: ",
                m,
            ),
            ModbusError::ValidationError(m) => with_detail("Validation error: ", m),
        }
    }
}

/// `head` followed by `detail`.
fn with_detail(head: &str, detail: &String) -> (text: String)
    ensures
        text@ == head@ + detail@,
{
    let mut text = head.to_owned();
    text.append(detail.as_str());
    text
}

/// No error is both transient and a busy gateway: the two reasons for trying a
/// request again exclude each other.
pub proof fn transient_and_busy_exclude_each_other(error: ModbusError)
    ensures
        !(error@.transient() && error@.gateway_busy()),
{
}

/// Two errors that compare equal have the same message and the same
/// classification.
pub proof fn equal_errors_are_alike(lhs: ModbusError, rhs: ModbusError)
    requires
        PartialEqSpec::eq_spec(&lhs, &rhs),
    ensures
        lhs@.text() == rhs@.text(),
        lhs@.transient() == rhs@.transient(),
        lhs@.gateway_busy() == rhs@.gateway_busy(),
{
}

/// Every failure of the transport is transient, by whichever of its names it goes,
/// and nothing else is: not what a device answered, not what the request was, and
/// not a response that belongs to something else.
pub proof fn transport_failures_are_transient(error: ModbusError)
    ensures
        error@.transient() == match error {
            ModbusError::ConnectError(_) => true,
            ModbusError::ConnectTimeout => true,
            ModbusError::WriteError(_) => true,
            ModbusError::WriteTimeout => true,
            ModbusError::ReadError(_) => true,
            ModbusError::ReadTimeout => true,
            ModbusError::QueueTimeout => true,
            ModbusError::MalformedResponse(_) => true,
            ModbusError::DeserializationError(_) => false,
            ModbusError::ExceptionResponse { .. } => false,
            ModbusError::TransactionIdMismatch { .. } => false,
            ModbusError::ProtocolIdMismatch { .. } => false,
            ModbusError::NoFreeTransactionId => false,
            ModbusError::UnitIdMismatch { .. } => false,
            ModbusError::RequestResponseMismatch(_) => false,
            ModbusError::ValidationError(_) => false,
        },
{
}

/// A gateway is busy where the exception code is that of an acknowledged but
/// unfinished request, a busy device, a gateway without a path, or a device that
/// does not answer the gateway; the function does not matter.
pub proof fn busy_codes_are_those_four(error: ModbusError)
    ensures
        error@.gateway_busy() <==> (error matches ModbusError::ExceptionResponse { code, .. } && (
        code == 5 || code == 6 || code == 10 || code == 11)),
{
}

/// Two errors are equal where they are of one kind and say the same: the same
/// message, the same numbers, and for I/O failures the same category and message.
/// The code of the operating system does not count.
pub proof fn equality_compares_what_errors_say(lhs: ModbusError, rhs: ModbusError)
    ensures
        <ModbusError as PartialEqSpec>::obeys_eq_spec(),
        lhs.eq_spec(&rhs) == match (lhs, rhs) {
            (ModbusError::ConnectError(a), ModbusError::ConnectError(b)) => a.kind == b.kind
                && a.message@ == b.message@,
            (ModbusError::WriteError(a), ModbusError::WriteError(b)) => a.kind == b.kind
                && a.message@ == b.message@,
            (ModbusError::ReadError(a), ModbusError::ReadError(b)) => a.kind == b.kind && a.message@
                == b.message@,
            (ModbusError::ConnectTimeout, ModbusError::ConnectTimeout) => true,
            (ModbusError::WriteTimeout, ModbusError::WriteTimeout) => true,
            (ModbusError::ReadTimeout, ModbusError::ReadTimeout) => true,
            (ModbusError::QueueTimeout, ModbusError::QueueTimeout) => true,
            (ModbusError::NoFreeTransactionId, ModbusError::NoFreeTransactionId) => true,
            (ModbusError::MalformedResponse(a), ModbusError::MalformedResponse(b)) => a@ == b@,
            (ModbusError::DeserializationError(a), ModbusError::DeserializationError(b)) => a@
                == b@,
            (
                ModbusError::RequestResponseMismatch(a),
                ModbusError::RequestResponseMismatch(b),
            ) => a@ == b@,
            (ModbusError::ValidationError(a), ModbusError::ValidationError(b)) => a@ == b@,
            (
                ModbusError::ExceptionResponse { function: a, code: c },
                ModbusError::ExceptionResponse { function: b, code: d },
            ) => a == b && c == d,
            (
                ModbusError::TransactionIdMismatch { expected: a, actual: c },
                ModbusError::TransactionIdMismatch { expected: b, actual: d },
            ) => a == b && c == d,
            (
                ModbusError::ProtocolIdMismatch { actual: a },
                ModbusError::ProtocolIdMismatch { actual: b },
            ) => a == b,
            (
                ModbusError::UnitIdMismatch { expected: a, actual: c },
                ModbusError::UnitIdMismatch { expected: b, actual: d },
            ) => a == b && c == d,
            _ => false,
        },
        lhs.eq_spec(&rhs) == rhs.eq_spec(&lhs),
        lhs.eq_spec(&lhs),
{
}

/// Two I/O failures are compared by category and message alone.
pub proof fn io_failures_are_compared_by_category_and_message(lhs: IoError, rhs: IoError)
    ensures
        lhs@.compared() == rhs@.compared() <==> lhs.kind == rhs.kind && lhs.message@
            == rhs.message@,
{
}

/// The model of an I/O failure shows all of it, and one that the library makes
/// itself has no code of the operating system.
pub proof fn io_failure_model_is_complete(error: IoError, kind: IoErrorKind, message: Seq<char>)
    ensures
        error@.kind == error.kind,
        error@.message == error.message@,
        error@.raw_os_error == error.raw_os_error,
        IoErrorView::new(kind, message).kind == kind,
        IoErrorView::new(kind, message).message == message,
        IoErrorView::new(kind, message).raw_os_error is None,
{
}

/// The model of an error shows its kind and everything that it carries.
pub proof fn error_model_is_complete(error: ModbusError)
    ensures
        match error {
            ModbusError::ConnectError(e) => error@ == ErrorView::ConnectError(e@),
            ModbusError::ConnectTimeout => error@ is ConnectTimeout,
            ModbusError::WriteError(e) => error@ == ErrorView::WriteError(e@),
            ModbusError::WriteTimeout => error@ is WriteTimeout,
            ModbusError::ReadError(e) => error@ == ErrorView::ReadError(e@),
            ModbusError::ReadTimeout => error@ is ReadTimeout,
            ModbusError::QueueTimeout => error@ is QueueTimeout,
            ModbusError::MalformedResponse(m) => error@ == ErrorView::MalformedResponse(m@),
            ModbusError::DeserializationError(m) => error@ == ErrorView::DeserializationError(m@),
            ModbusError::ExceptionResponse { function, code } => error@ == (
            ErrorView::ExceptionResponse { function, code }),
            ModbusError::TransactionIdMismatch { expected, actual } => error@ == (
            ErrorView::TransactionIdMismatch { expected, actual }),
            ModbusError::ProtocolIdMismatch { actual } => error@ == (
            ErrorView::ProtocolIdMismatch { actual }),
            ModbusError::NoFreeTransactionId => error@ is NoFreeTransactionId,
            ModbusError::UnitIdMismatch { expected, actual } => error@ == (
            ErrorView::UnitIdMismatch { expected, actual }),
            ModbusError::RequestResponseMismatch(m) => error@ == ErrorView::RequestResponseMismatch(
                m@,
            ),
            ModbusError::ValidationError(m) => error@ == ErrorView::ValidationError(m@),
        },
{
}

/// What a failure carries, its message says: the cause of an I/O failure and the
/// detail of a rejection stand at the end of the message, as they are.
pub proof fn message_ends_with_its_detail(error: ModbusError)
    ensures
        match error {
            ModbusError::ConnectError(e) => error@.text() == "TCP connect error: "@ + e.message@,
            ModbusError::WriteError(e) => error@.text() == "TCP write error: "@ + e.message@,
            ModbusError::ReadError(e) => error@.text() == "TCP read error: "@ + e.message@,
            ModbusError::MalformedResponse(m) => error@.text() == "Malformed response: "@ + m@,
            ModbusError::DeserializationError(m) => error@.text() == "Deserialization error: "@
                + m@,
            ModbusError::RequestResponseMismatch(m) => error@.text()
                == "Request/response mismatch: "@ + m@,
            ModbusError::ValidationError(m) => error@.text() == "Validation error: "@ + m@,
            _ => true,
        },
{
}

/// A message about identifiers names both of them in decimal, first the one that
/// was sent; one about an exception names function and code in hexadecimal.
pub proof fn message_names_its_numbers(error: ModbusError)
    ensures
        match error {
            ModbusError::ExceptionResponse { function, code } => error@.text()
                == "Modbus exception response: function 0x"@ + crate::text::hex(function as nat, 2)
                + ", code 0x"@ + crate::text::hex(code as nat, 2),
            ModbusError::TransactionIdMismatch { expected, actual } => error@.text()
                == "Transaction ID mismatch: sent "@ + crate::text::decimal(expected as nat)
                + ", received "@ + crate::text::decimal(actual as nat),
            ModbusError::ProtocolIdMismatch { actual } => error@.text()
                == "Protocol ID mismatch: expected 0, received "@ + crate::text::decimal(
                actual as nat,
            ),
            ModbusError::UnitIdMismatch { expected, actual } => error@.text()
                == "Unit ID mismatch: expected "@ + crate::text::decimal(expected as nat)
                + ", received "@ + crate::text::decimal(actual as nat),
            ModbusError::ConnectTimeout => error@.text() == "TCP connect timed out"@,
            ModbusError::WriteTimeout => error@.text() == "TCP write timed out"@,
            ModbusError::ReadTimeout => error@.text() == "TCP read timed out"@,
            ModbusError::QueueTimeout => error@.text() == "Modbus request queue timed out"@,
            ModbusError::NoFreeTransactionId => error@.text()
                == "no free Modbus transaction id available"@,
            _ => true,
        },
{
}

} // verus!
