//! Timeout configuration for Modbus TCP operations.

use vstd::prelude::*;

use crate::time::Duration;

verus! {

/// Seconds that each operation may take by default.
pub const DEFAULT_TIMEOUT_SECS: u64 = 5;

/// Per-operation time limits of a connection.
#[derive(Clone, Copy, Debug, PartialEq, Eq, Structural)]
pub struct ModbusTcpTimeouts {
    /// Maximum time allowed to establish a TCP connection.
    pub connect_timeout: Duration,
    /// Maximum time allowed to write one Modbus TCP frame.
    pub write_timeout: Duration,
    /// Maximum time allowed to receive one Modbus TCP response after its frame is written.
    pub response_timeout: Duration,
}

impl ModbusTcpTimeouts {
    /// Every operation has five seconds.
    pub open spec fn is_default(self) -> bool {
        &&& self.connect_timeout.nanos == 5_000_000_000
        &&& self.write_timeout.nanos == 5_000_000_000
        &&& self.response_timeout.nanos == 5_000_000_000
    }
}

impl Default for ModbusTcpTimeouts {
    fn default() -> (timeouts: ModbusTcpTimeouts)
        ensures
            timeouts.is_default(),
    {
        ModbusTcpTimeouts {
            connect_timeout: Duration::from_secs(DEFAULT_TIMEOUT_SECS),
            write_timeout: Duration::from_secs(DEFAULT_TIMEOUT_SECS),
            response_timeout: Duration::from_secs(DEFAULT_TIMEOUT_SECS),
        }
    }
}

/// By default each of the three operations has five seconds, counted one by one.
pub proof fn default_is_five_seconds_each(timeouts: ModbusTcpTimeouts)
    ensures
        timeouts.is_default() <==> {
            &&& timeouts.connect_timeout.nanos == 5 * 1_000_000_000
            &&& timeouts.write_timeout.nanos == 5 * 1_000_000_000
            &&& timeouts.response_timeout.nanos == 5 * 1_000_000_000
        },
{
}

} // verus!
