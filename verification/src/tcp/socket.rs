//! Configurable Modbus TCP socket phase.

use vstd::prelude::*;

use crate::error::{ErrorView, ModbusError};
use crate::tcp::actor::{Actor, ActorView};
use crate::tcp::flow::ModbusTcpFlowControl;
use crate::tcp::retry::ModbusTcpRetry;
use crate::tcp::status::ConnectionStatus;
use crate::tcp::tcp_connection::ModbusTcpConnection;
use crate::tcp::timeouts::ModbusTcpTimeouts;

verus! {

/// Configurable Modbus TCP connection phase.
///
/// A socket stores construction-time settings as plain configuration. Creating
/// or modifying a socket does not start an actor, resolve `host`, or open a TCP
/// connection.
#[derive(Debug)]
pub struct ModbusTcpSocket {
    /// Host that is dialed.
    pub host: String,
    /// Port that is dialed.
    pub port: u16,
    /// Default unit id.
    pub unit_id: u8,
    /// First transaction id.
    pub transaction_id: u16,
    /// Time limits.
    pub timeouts: ModbusTcpTimeouts,
    /// Flow control.
    pub flow_control: ModbusTcpFlowControl,
    /// Retry policy, if any.
    pub retry: Option<ModbusTcpRetry>,
}

/// Model of a [`ModbusTcpSocket`].
pub ghost struct SocketView {
    pub host: Seq<char>,
    pub port: u16,
    pub unit_id: u8,
    pub transaction_id: u16,
    pub timeouts: ModbusTcpTimeouts,
    pub flow_control: ModbusTcpFlowControl,
    pub retry: Option<ModbusTcpRetry>,
}

impl View for ModbusTcpSocket {
    type V = SocketView;

    open spec fn view(&self) -> SocketView {
        SocketView {
            host: self.host@,
            port: self.port,
            unit_id: self.unit_id,
            transaction_id: self.transaction_id,
            timeouts: self.timeouts,
            flow_control: self.flow_control,
            retry: self.retry,
        }
    }
}

impl SocketView {
    /// The actor that the settings ask for.
    pub open spec fn actor(self) -> ActorView {
        ActorView {
            host: self.host,
            port: self.port,
            timeouts: self.timeouts,
            flow: self.flow_control,
            status: ConnectionStatus { connected: false, generation: 0 },
            pending: Map::empty(),
            quarantined: Map::empty(),
            next_tid: self.transaction_id,
            ctrl_closed: false,
            req_closed: false,
        }
    }

    /// The handle that the settings ask for.
    pub open spec fn connection(self) -> ModbusTcpConnection {
        ModbusTcpConnection {
            unit_id: self.unit_id,
            queue_timeout: self.flow_control.queue_timeout,
            retry: self.retry,
        }
    }
}

impl Clone for ModbusTcpSocket {
    fn clone(&self) -> (copy: ModbusTcpSocket)
        ensures
            copy@ == self@,
    {
        ModbusTcpSocket {
            host: self.host.clone(),
            port: self.port,
            unit_id: self.unit_id,
            transaction_id: self.transaction_id,
            timeouts: self.timeouts,
            flow_control: self.flow_control,
            retry: self.retry,
        }
    }
}

impl ModbusTcpSocket {
    /// Creates a configurable socket with default construction settings.
    ///
    /// `host` may be a DNS name or numeric IP address and is not resolved here.
    /// `port` is the TCP port used for every dial, and `unit_id` is the default
    /// Modbus unit id used by the live connection. The initial transaction-id seed
    /// defaults to `1`; timeouts, flow control, and retry use their documented
    /// defaults.
    #[must_use]
    pub fn new(host: &str, port: u16, unit_id: u8) -> (socket: ModbusTcpSocket)
        ensures
            socket@.host == host@,
            socket@.port == port,
            socket@.unit_id == unit_id,
            socket@.transaction_id == 1,
            socket@.timeouts.is_default(),
            socket@.flow_control.is_default_with(16),
            socket@.retry matches Some(retry) && retry.is_default(),
    {
        ModbusTcpSocket {
            host: host.to_owned(),
            port,
            unit_id,
            transaction_id: 1,
            timeouts: ModbusTcpTimeouts::default(),
            flow_control: ModbusTcpFlowControl::default(),
            retry: Some(ModbusTcpRetry::default()),
        }
    }

    /// Overrides the connect, write, and response timeouts used by the actor.
    #[must_use]
    pub fn with_timeouts(self, timeouts: ModbusTcpTimeouts) -> (socket: ModbusTcpSocket)
        ensures
            socket@ == (SocketView { timeouts, ..self@ }),
    {
        ModbusTcpSocket { timeouts, ..self }
    }

    /// Overrides the actor flow-control settings.
    ///
    /// `flow_control` configures queue depth, in-flight request capacity, queue
    /// timeout, and quarantine lifetime. It is validated by [`Self::connect`].
    #[must_use]
    pub fn with_flow_control(self, flow_control: ModbusTcpFlowControl) -> (socket: ModbusTcpSocket)
        ensures
            socket@ == (SocketView { flow_control, ..self@ }),
    {
        ModbusTcpSocket { flow_control, ..self }
    }

    /// Overrides the same-call retry policy used by the live connection.
    ///
    /// Pass `None` to disable retry for sends through that handle.
    #[must_use]
    pub fn with_retry(self, retry: Option<ModbusTcpRetry>) -> (socket: ModbusTcpSocket)
        ensures
            socket@ == (SocketView { retry, ..self@ }),
    {
        ModbusTcpSocket { retry, ..self }
    }

    /// Overrides the MBAP transaction-id counter seed.
    ///
    /// `transaction_id` is the id used by the first request after connection,
    /// with subsequent requests incrementing from it with wrap-around.
    #[must_use]
    pub fn with_initial_transaction_id(self, transaction_id: u16) -> (socket: ModbusTcpSocket)
        ensures
            socket@ == (SocketView { transaction_id, ..self@ }),
    {
        ModbusTcpSocket { transaction_id, ..self }
    }

    /// The actor and the handle that the settings ask for, without a look at flow
    /// control.
    pub fn spawn_actor(self) -> (parts: (Actor, ModbusTcpConnection))
        ensures
            parts.0@ == self@.actor(),
            parts.1 == self@.connection(),
    {
        let connection = ModbusTcpConnection::from_actor_parts(
            self.unit_id,
            self.flow_control.queue_timeout,
            self.retry,
        );
        let actor = Actor::new(
            self.host,
            self.port,
            self.timeouts,
            self.flow_control,
            self.transaction_id,
        );
        (actor, connection)
    }

    /// Validates flow control, and gives the actor and the handle that the settings
    /// ask for. The caller hands the actor a connect command before it hands out the
    /// handle.
    ///
    /// # Errors
    ///
    /// Returns [`ModbusError::ValidationError`] if flow-control settings are invalid.
    pub fn connect(self) -> (result: Result<(Actor, ModbusTcpConnection), ModbusError>)
        ensures
            match self@.flow_control.problem() {
                None => result matches Ok((actor, connection)) && actor@ == self@.actor()
                    && connection == self@.connection(),
                Some(message) => result matches Err(e) && e@ == ErrorView::ValidationError(message),
            },
    {
        match self.flow_control.validate() {
            Ok(()) => Ok(self.spawn_actor()),
            Err(e) => Err(e),
        }
    }
}

/// The actor and the handle take every setting over as it is, and an actor starts
/// without a socket, in generation zero, with nothing on the wire and nothing reserved.
pub proof fn settings_are_taken_over(socket: ModbusTcpSocket)
    ensures
        ({
            let actor = socket@.actor();
            &&& actor.host == socket.host@
            &&& actor.port == socket.port
            &&& actor.timeouts == socket.timeouts
            &&& actor.flow == socket.flow_control
            &&& actor.next_tid == socket.transaction_id
            &&& !actor.status.connected
            &&& actor.status.generation == 0
            &&& forall|tid: u16| !#[trigger] actor.pending.contains_key(tid)
            &&& forall|tid: u16| !#[trigger] actor.quarantined.contains_key(tid)
            &&& !actor.ctrl_closed
            &&& !actor.req_closed
        }),
        socket@.connection().unit_id == socket.unit_id,
        socket@.connection().queue_timeout == socket.flow_control.queue_timeout,
        socket@.connection().retry == socket.retry,
{
}

/// The model of a socket shows every setting.
pub proof fn socket_model_is_complete(socket: ModbusTcpSocket)
    ensures
        socket@.host == socket.host@,
        socket@.port == socket.port,
        socket@.unit_id == socket.unit_id,
        socket@.transaction_id == socket.transaction_id,
        socket@.timeouts == socket.timeouts,
        socket@.flow_control == socket.flow_control,
        socket@.retry == socket.retry,
{
}

} // verus!
