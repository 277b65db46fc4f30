//! Application-layer flow control for Modbus TCP actors.

use vstd::prelude::*;

use crate::error::{ErrorView, ModbusError};
use crate::time::Duration;

verus! {

/// Default bounded request capacity used to apply backpressure under burst load.
pub const COMMAND_CHANNEL_CAPACITY: usize = 128;

/// Application-layer flow control for one Modbus TCP transport actor.
#[derive(Clone, Copy, Debug, PartialEq, Eq, Structural)]
pub struct ModbusTcpFlowControl {
    /// Maximum number of transactions on the wire at once. Must be >= 1.
    pub max_in_flight: usize,
    /// Maximum number of admitted-but-not-yet-on-wire requests buffered in the actor.
    pub max_queue_depth: usize,
    /// Maximum time a request may wait between submission and reaching the wire.
    pub queue_timeout: Duration,
    /// Time a timed-out/cancelled transaction id remains reserved.
    pub quarantine_ttl: Duration,
}

impl ModbusTcpFlowControl {
    /// The default settings, but for the number of transactions on the wire.
    pub open spec fn is_default_with(self, max_in_flight: usize) -> bool {
        &&& self.max_in_flight == max_in_flight
        &&& self.max_queue_depth == COMMAND_CHANNEL_CAPACITY
        &&& self.queue_timeout.nanos == 5_000_000_000
        &&& self.quarantine_ttl.nanos == 10_000_000_000
    }

    /// What is wrong with the settings, if anything: the first bound that is zero.
    pub open spec fn problem(self) -> Option<Seq<char>> {
        if self.max_in_flight == 0 {
            Some("flow_control max_in_flight must be >= 1"@)
        } else if self.max_queue_depth == 0 {
            Some("flow_control max_queue_depth must be >= 1"@)
        } else if self.queue_timeout.nanos == 0 {
            Some("flow_control queue_timeout must be > 0"@)
        } else if self.quarantine_ttl.nanos == 0 {
            Some("flow_control quarantine_ttl must be > 0"@)
        } else {
            None
        }
    }

    /// Preset for serial-backed gateways where the downstream bus is sequential.
    #[must_use]
    pub fn serial_gateway() -> (flow: ModbusTcpFlowControl)
        ensures
            flow.is_default_with(1),
    {
        ModbusTcpFlowControl { max_in_flight: 1, ..ModbusTcpFlowControl::default() }
    }

    /// Validates flow-control invariants.
    ///
    /// # Errors
    ///
    /// Returns [`ModbusError::ValidationError`] if any numeric bound is zero.
    pub fn validate(&self) -> (result: Result<(), ModbusError>)
        ensures
            match self.problem() {
                None => result is Ok,
                Some(message) => result matches Err(e) && e@ == ErrorView::ValidationError(message),
            },
    {
        if self.max_in_flight == 0 {
            return Err(
                ModbusError::ValidationError("flow_control max_in_flight must be >= 1".to_owned()),
            );
        }
        if self.max_queue_depth == 0 {
            return Err(
                ModbusError::ValidationError("flow_control max_queue_depth must be >= 1".to_owned()),
            );
        }
        if self.queue_timeout.is_zero() {
            return Err(
                ModbusError::ValidationError("flow_control queue_timeout must be > 0".to_owned()),
            );
        }
        if self.quarantine_ttl.is_zero() {
            return Err(
                ModbusError::ValidationError("flow_control quarantine_ttl must be > 0".to_owned()),
            );
        }
        Ok(())
    }
}

impl Default for ModbusTcpFlowControl {
    fn default() -> (flow: ModbusTcpFlowControl)
        ensures
            flow.is_default_with(16),
    {
        ModbusTcpFlowControl {
            max_in_flight: 16,
            max_queue_depth: COMMAND_CHANNEL_CAPACITY,
            queue_timeout: Duration::from_secs(5),
            quarantine_ttl: Duration::from_secs(10),
        }
    }
}

/// The default settings and the serial preset pass validation.
pub proof fn presets_are_valid(flow: ModbusTcpFlowControl)
    requires
        flow.is_default_with(16) || flow.is_default_with(1),
    ensures
        flow.problem() is None,
{
}

/// Settings are accepted where every bound is at least one, and only there; what is
/// refused is named, in the order of the fields.
pub proof fn every_bound_must_be_positive(flow: ModbusTcpFlowControl)
    ensures
        flow.problem() is None <==> flow.max_in_flight >= 1 && flow.max_queue_depth >= 1
            && flow.queue_timeout.nanos >= 1 && flow.quarantine_ttl.nanos >= 1,
        flow.max_in_flight == 0 ==> flow.problem() == Some(
            "flow_control max_in_flight must be >= 1"@,
        ),
        flow.max_in_flight >= 1 && flow.max_queue_depth == 0 ==> flow.problem() == Some(
            "flow_control max_queue_depth must be >= 1"@,
        ),
        flow.max_in_flight >= 1 && flow.max_queue_depth >= 1 && flow.queue_timeout.nanos == 0
            ==> flow.problem() == Some("flow_control queue_timeout must be > 0"@),
        flow.max_in_flight >= 1 && flow.max_queue_depth >= 1 && flow.queue_timeout.nanos >= 1
            && flow.quarantine_ttl.nanos == 0 ==> flow.problem() == Some(
            "flow_control quarantine_ttl must be > 0"@,
        ),
{
}

/// By default 128 requests may be queued, each for five seconds, and an id stays
/// reserved for ten seconds, twice the time that a response may take.
pub proof fn default_bounds(flow: ModbusTcpFlowControl, max_in_flight: usize)
    ensures
        flow.is_default_with(max_in_flight) <==> {
            &&& flow.max_in_flight == max_in_flight
            &&& flow.max_queue_depth == 128
            &&& flow.queue_timeout.nanos == 5 * 1_000_000_000
            &&& flow.quarantine_ttl.nanos == 10 * 1_000_000_000
        },
{
}

} // verus!
