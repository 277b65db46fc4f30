//! Modbus TCP framing and the rules of the transport.

/// MBAP header constants and response frame length validation.
pub mod frame;

/// Application data units.
pub mod adu;

/// MBAP codec.
pub mod codec;

/// Timeouts of operations.
pub mod timeouts;

/// Flow control of the actor.
pub mod flow;

/// Observable connection state.
pub mod status;

/// Retry policy.
pub mod retry;

/// Pending requests and transaction ids.
pub mod pending;

/// Rules of the owner of a connection.
pub mod actor;

/// Settings and rules of connection handles.
pub mod tcp_connection;

/// Configurable socket phase.
pub mod socket;

/// Rules of the response reader of one socket.
pub mod connected_state;

/// What follows the write of a frame.
pub mod writer;

/// What holds of the transport as a whole.
pub mod laws;

/// What each event does to the actor.
pub mod effects;

/// What callers of the transport may rely on.
pub mod promises;

pub use flow::ModbusTcpFlowControl;
pub use retry::ModbusTcpRetry;
pub use socket::ModbusTcpSocket;
pub use status::ConnectionStatus;
pub use tcp_connection::ModbusTcpConnection;
pub use timeouts::ModbusTcpTimeouts;
