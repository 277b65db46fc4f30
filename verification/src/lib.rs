//! Typed Modbus requests and responses, and the rules of a Modbus TCP client.
//!
//! The crate is organized around typed PDUs:
//! - [`ModbusRequest`] for building requests
//! - [`ModbusResponse`] for parsing responses
//! - [`tcp`] for framing them and for the rules of the transport
//!
//! Every function states in its contract what it returns or changes. Input and
//! output are left to the caller: where the transport has to dial, write, read or
//! wait, the library says so and is told what came of it.

/// Rendering of numbers, booleans and lists as text.
pub mod text;

/// Sixteen-bit words as bytes.
pub mod big_endian;

/// Spans of time and points in time.
pub mod time;

/// Error types returned by this crate.
pub mod error;
pub use error::ModbusError;

/// Typed Modbus request PDUs and serialization.
pub mod request;
pub use request::ModbusRequest;

/// Typed Modbus response PDUs and deserialization.
pub mod response;
pub use response::ModbusResponse;

/// What requests and responses are on the wire, byte by byte.
pub mod wire;

/// Word order of scalars that span several registers.
pub mod word_order;
pub use word_order::{WordOrder, WordOrderError};

/// Modbus TCP framing and the rules of the transport.
pub mod tcp;

/// What callers may rely on.
pub mod promises;

/// Frames of a mock server.
pub mod test_support;
