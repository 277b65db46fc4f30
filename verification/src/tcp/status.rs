//! Observable connection state published by the Modbus TCP actor.

use vstd::prelude::*;

verus! {

/// Observable connection state of the actor owning the socket.
///
/// A value of this type is published by the actor on every socket
/// establishment and every teardown that closes an open socket.
#[derive(Clone, Copy, Debug, PartialEq, Eq, Structural)]
pub struct ConnectionStatus {
    /// Whether a socket is currently open.
    pub connected: bool,
    /// Counts successful socket establishments on this actor.
    ///
    /// Starts at `0` before the first connect and increments by one each time a
    /// socket is opened, including reconnects after a teardown and explicit
    /// connects following a disconnect. It never decreases, a teardown leaves it
    /// unchanged, and a failed connect attempt leaves it unchanged.
    ///
    /// A changed `generation` therefore means the socket was replaced,
    /// regardless of how many drop/reconnect cycles happened in between and
    /// regardless of when the observer sampled. Callers that negotiate device
    /// state over a connection (word order, scaling calibration, a device-side
    /// watchdog) should cache the generation alongside that state and
    /// invalidate it when the value moves.
    pub generation: u64,
}

impl ConnectionStatus {
    /// State published before the first socket is opened.
    pub fn disconnected() -> (status: ConnectionStatus)
        ensures
            !status.connected,
            status.generation == 0,
    {
        ConnectionStatus { connected: false, generation: 0 }
    }

    /// The status once a socket was opened.
    pub open spec fn spec_opened(self) -> ConnectionStatus {
        ConnectionStatus { connected: true, generation: (self.generation + 1) as u64 }
    }

    /// The status once a socket was opened.
    pub fn opened(self) -> (status: ConnectionStatus)
        requires
            self.generation < u64::MAX,
        ensures
            status == self.spec_opened(),
    {
        ConnectionStatus { connected: true, generation: self.generation + 1 }
    }

    /// The status once the socket was closed.
    pub open spec fn spec_closed(self) -> ConnectionStatus {
        ConnectionStatus { connected: false, generation: self.generation }
    }

    /// The status once the socket was closed.
    pub fn closed(self) -> (status: ConnectionStatus)
        ensures
            status == self.spec_closed(),
    {
        ConnectionStatus { connected: false, generation: self.generation }
    }
}

/// Opening a socket adds one to the generation, and closing it changes nothing of it.
pub proof fn generation_moves_with_opening_alone(status: ConnectionStatus)
    requires
        status.generation < u64::MAX,
    ensures
        status.spec_opened().connected,
        status.spec_opened().generation == status.generation + 1,
        !status.spec_closed().connected,
        status.spec_closed().generation == status.generation,
{
}

} // verus!
