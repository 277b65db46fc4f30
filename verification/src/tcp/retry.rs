//! Retry configuration for Modbus TCP send operations.

use vstd::prelude::*;
use vstd::std_specs::cmp::PartialEqSpec;

use crate::error::{ErrorView, ModbusError};
use crate::time::Duration;
use crate::word_order::Float32;

verus! {

/// Bit pattern of the multiplier `1.0`.
pub const MULTIPLIER_ONE: u32 = 0x3F80_0000;

/// Bit pattern of the multiplier `1.5`.
pub const MULTIPLIER_DEFAULT: u32 = 0x3FC0_0000;

/// Bit pattern of infinity, the smallest one that is not finite.
pub const MULTIPLIER_INFINITY: u32 = 0x7F80_0000;

/// Exponential retry policy of a connection.
///
/// The policy applies to one send call. Each retry performs a fresh
/// connect/write/read attempt after the connection has been invalidated by the
/// transient failure that triggered the retry.
///
/// The [`Default::default`] policy starts at 500 ms, multiplies delays by
/// 1.5, adds jitter, and retries until 2 s of total retry delay has elapsed.
/// Set [`Self::max_times`] when you also need to cap the number of retry
/// attempts.
///
/// # Retried errors
///
/// Errors classified as transient by [`ModbusError::is_transient`] are retried,
/// and where [`Self::retry_gateway_busy`] is set those that say that the gateway
/// is busy. Invalid retry configuration, request validation failures, protocol
/// mismatches, other Modbus exception responses, and request/response mismatches
/// are returned immediately.
#[derive(Clone, Copy, Debug)]
pub struct ModbusTcpRetry {
    /// Initial delay before the first retry attempt, in wall-clock time.
    ///
    /// Must be greater than zero.
    pub initial_delay: Duration,
    /// Optional maximum delay for an individual retry sleep, in wall-clock time.
    ///
    /// When set, this must be greater than or equal to [`Self::initial_delay`].
    pub max_delay: Option<Duration>,
    /// Multiplier applied to each subsequent retry delay.
    ///
    /// Must be finite and greater than or equal to `1.0`.
    pub multiplier: Float32,
    /// Maximum total retry delay for one send call, in wall-clock time.
    ///
    /// Must be greater than or equal to [`Self::initial_delay`].
    pub max_elapsed: Duration,
    /// Optional cap on the number of retries within one send call.
    ///
    /// When set, this must be greater than or equal to `1`. `None` means retry
    /// count is unbounded and governed only by [`Self::max_elapsed`].
    pub max_times: Option<usize>,
    /// Whether to add jitter to retry sleeps.
    pub jitter: bool,
    /// Whether exception responses of a busy gateway are retried too.
    pub retry_gateway_busy: bool,
}

/// How the delays between the attempts of one send call grow.
#[derive(Clone, Copy, Debug)]
pub struct BackoffPlan {
    /// Delay before the first retry.
    pub min_delay: Duration,
    /// Factor from one delay to the next.
    pub factor: Float32,
    /// Cap on one delay; `None` leaves the cap that the delays have by themselves.
    pub max_delay: Option<Duration>,
    /// Cap on the sum of the delays.
    pub total_delay: Option<Duration>,
    /// Cap on the number of retries; `None` is no cap.
    pub max_times: Option<usize>,
    /// Whether delays are randomized.
    pub jitter: bool,
}

/// Whether two optional spans are equal.
fn same_span(lhs: Option<Duration>, rhs: Option<Duration>) -> (equal: bool)
    ensures
        equal == (lhs == rhs),
{
    match (lhs, rhs) {
        (Some(lhs), Some(rhs)) => lhs == rhs,
        (None, None) => true,
        _ => false,
    }
}

/// Whether two optional counts are equal.
fn same_count(lhs: Option<usize>, rhs: Option<usize>) -> (equal: bool)
    ensures
        equal == (lhs == rhs),
{
    match (lhs, rhs) {
        (Some(lhs), Some(rhs)) => lhs == rhs,
        (None, None) => true,
        _ => false,
    }
}

impl vstd::std_specs::cmp::PartialEqSpecImpl for ModbusTcpRetry {
    open spec fn obeys_eq_spec() -> bool {
        true
    }

    open spec fn eq_spec(&self, other: &ModbusTcpRetry) -> bool {
        &&& self.initial_delay == other.initial_delay
        &&& self.max_delay == other.max_delay
        &&& self.multiplier.same(other.multiplier)
        &&& self.max_elapsed == other.max_elapsed
        &&& self.max_times == other.max_times
        &&& self.jitter == other.jitter
        &&& self.retry_gateway_busy == other.retry_gateway_busy
    }
}

impl PartialEq for ModbusTcpRetry {
    fn eq(&self, other: &ModbusTcpRetry) -> (equal: bool) {
        self.initial_delay == other.initial_delay && same_span(self.max_delay, other.max_delay)
            && self.multiplier == other.multiplier && self.max_elapsed == other.max_elapsed
            && same_count(self.max_times, other.max_times) && self.jitter == other.jitter
            && self.retry_gateway_busy == other.retry_gateway_busy
    }
}

impl vstd::std_specs::cmp::PartialEqSpecImpl for BackoffPlan {
    open spec fn obeys_eq_spec() -> bool {
        true
    }

    open spec fn eq_spec(&self, other: &BackoffPlan) -> bool {
        &&& self.min_delay == other.min_delay
        &&& self.factor.same(other.factor)
        &&& self.max_delay == other.max_delay
        &&& self.total_delay == other.total_delay
        &&& self.max_times == other.max_times
        &&& self.jitter == other.jitter
    }
}

impl PartialEq for BackoffPlan {
    fn eq(&self, other: &BackoffPlan) -> (equal: bool) {
        self.min_delay == other.min_delay && self.factor == other.factor && same_span(
            self.max_delay,
            other.max_delay,
        ) && same_span(self.total_delay, other.total_delay) && same_count(
            self.max_times,
            other.max_times,
        ) && self.jitter == other.jitter
    }
}

impl ModbusTcpRetry {
    /// What is wrong with the policy, if anything: the first field that violates
    /// its documented invariant.
    pub open spec fn problem(self) -> Option<Seq<char>> {
        if self.initial_delay.nanos == 0 {
            Some("retry initial_delay must be > 0"@)
        } else if self.max_delay matches Some(max) && max.nanos < self.initial_delay.nanos {
            Some("retry max_delay must be >= initial_delay"@)
        } else if !(MULTIPLIER_ONE <= self.multiplier.bits < MULTIPLIER_INFINITY) {
            Some("retry multiplier must be finite and >= 1.0"@)
        } else if self.max_elapsed.nanos < self.initial_delay.nanos {
            Some("retry max_elapsed must be >= initial_delay"@)
        } else if self.max_times == Some(0usize) {
            Some("retry max_times must be >= 1"@)
        } else {
            None
        }
    }

    /// The delays of the policy.
    pub open spec fn plan(self) -> BackoffPlan {
        BackoffPlan {
            min_delay: self.initial_delay,
            factor: self.multiplier,
            max_delay: self.max_delay,
            total_delay: Some(self.max_elapsed),
            max_times: self.max_times,
            jitter: self.jitter,
        }
    }

    /// Whether the policy tries again after `error`.
    pub open spec fn retries(self, error: ErrorView) -> bool {
        error.transient() || (self.retry_gateway_busy && error.gateway_busy())
    }

    /// Validates this retry policy without starting a send operation.
    ///
    /// # Errors
    ///
    /// Returns [`ModbusError::ValidationError`] when any field violates its
    /// documented invariant.
    pub fn validate(&self) -> (result: Result<(), ModbusError>)
        ensures
            match self.problem() {
                None => result is Ok,
                Some(message) => result matches Err(e) && e@ == ErrorView::ValidationError(message),
            },
    {
        if self.initial_delay.is_zero() {
            return Err(ModbusError::ValidationError("retry initial_delay must be > 0".to_owned()));
        }
        if let Some(max_delay) = self.max_delay {
            if max_delay.nanos < self.initial_delay.nanos {
                return Err(
                    ModbusError::ValidationError(
                        "retry max_delay must be >= initial_delay".to_owned(),
                    ),
                );
            }
        }
        if self.multiplier.bits < MULTIPLIER_ONE || self.multiplier.bits >= MULTIPLIER_INFINITY {
            return Err(
                ModbusError::ValidationError(
                    "retry multiplier must be finite and >= 1.0".to_owned(),
                ),
            );
        }
        if self.max_elapsed.nanos < self.initial_delay.nanos {
            return Err(
                ModbusError::ValidationError(
                    "retry max_elapsed must be >= initial_delay".to_owned(),
                ),
            );
        }
        if let Some(max_times) = self.max_times {
            if max_times < 1 {
                return Err(ModbusError::ValidationError("retry max_times must be >= 1".to_owned()));
            }
        }
        Ok(())
    }

    /// Converts this policy to the delays of the send path.
    ///
    /// # Errors
    ///
    /// Returns [`ModbusError::ValidationError`] when any field violates its
    /// documented invariant.
    pub fn to_backoff(self) -> (result: Result<BackoffPlan, ModbusError>)
        ensures
            match self.problem() {
                None => result matches Ok(plan) && plan == self.plan(),
                Some(message) => result matches Err(e) && e@ == ErrorView::ValidationError(message),
            },
    {
        match self.validate() {
            Ok(()) => Ok(
                BackoffPlan {
                    min_delay: self.initial_delay,
                    factor: self.multiplier,
                    max_delay: self.max_delay,
                    total_delay: Some(self.max_elapsed),
                    max_times: self.max_times,
                    jitter: self.jitter,
                },
            ),
            Err(e) => Err(e),
        }
    }

    /// Whether the policy tries again after `error`.
    pub fn should_retry(&self, error: &ModbusError) -> (retry: bool)
        ensures
            retry == self.retries(error@),
    {
        error.is_transient() || (self.retry_gateway_busy && error.is_gateway_busy())
    }

    /// The documented default policy.
    pub open spec fn is_default(self) -> bool {
        &&& self.initial_delay.nanos == 500_000_000
        &&& self.max_delay is None
        &&& self.multiplier.bits == MULTIPLIER_DEFAULT
        &&& self.max_elapsed.nanos == 2_000_000_000
        &&& self.max_times is None
        &&& self.jitter
        &&& !self.retry_gateway_busy
    }
}

impl Default for ModbusTcpRetry {
    fn default() -> (retry: ModbusTcpRetry)
        ensures
            retry.is_default(),
    {
        ModbusTcpRetry {
            initial_delay: Duration::from_millis(500),
            max_delay: None,
            multiplier: Float32::from_bits(MULTIPLIER_DEFAULT),
            max_elapsed: Duration::from_secs(2),
            max_times: None,
            jitter: true,
            retry_gateway_busy: false,
        }
    }
}

/// A policy that passes validation equals itself; one whose multiplier is not a
/// number does not, and never passes.
pub proof fn valid_policy_equals_itself(retry: ModbusTcpRetry)
    ensures
        retry.problem() is None ==> PartialEqSpec::eq_spec(&retry, &retry),
        retry.multiplier.is_nan() ==> retry.problem() is Some
            && !PartialEqSpec::eq_spec(&retry, &retry),
{
}

/// The default policy passes validation.
pub proof fn default_policy_is_valid(retry: ModbusTcpRetry)
    requires
        retry.is_default(),
    ensures
        retry.problem() is None,
{
}

/// No policy tries again after an error that another attempt cannot mend: a
/// request or a configuration that is not valid, a response that does not belong
/// to the request, a mismatch of identifiers, or an exception response other
/// than that of a busy gateway.
pub proof fn permanent_errors_are_not_retried(retry: ModbusTcpRetry, error: ErrorView)
    requires
        error is ValidationError || error is RequestResponseMismatch || error is UnitIdMismatch
            || error is ProtocolIdMismatch || error is TransactionIdMismatch
            || error is DeserializationError || error is NoFreeTransactionId || (
        error is ExceptionResponse && !error.gateway_busy()),
    ensures
        !retry.retries(error),
{
}

/// Every failure of the transport is retried by every policy, by whichever of its names
/// it goes. What a busy gateway answered is retried where the policy says so, and
/// nothing else ever is.
pub proof fn transport_failures_are_retried(retry: ModbusTcpRetry, error: ModbusError)
    ensures
        retry.retries(error@) == match error {
            ModbusError::ConnectError(_) => true,
            ModbusError::ConnectTimeout => true,
            ModbusError::WriteError(_) => true,
            ModbusError::WriteTimeout => true,
            ModbusError::ReadError(_) => true,
            ModbusError::ReadTimeout => true,
            ModbusError::QueueTimeout => true,
            ModbusError::MalformedResponse(_) => true,
            ModbusError::ExceptionResponse { code, .. } => retry.retry_gateway_busy && (code == 5
                || code == 6 || code == 10 || code == 11),
            _ => false,
        },
{
}

/// A policy is accepted where every field keeps to what is documented of it, and only
/// there: a first delay, caps that are not below it, a finite multiplier of at least
/// one, and at least one retry where retries are counted.
pub proof fn accepted_policies(retry: ModbusTcpRetry)
    ensures
        retry.problem() is None <==> {
            &&& retry.initial_delay.nanos > 0
            &&& retry.max_delay matches Some(max) ==> max.nanos >= retry.initial_delay.nanos
            &&& 0x3F80_0000 <= retry.multiplier.bits < 0x7F80_0000
            &&& retry.max_elapsed.nanos >= retry.initial_delay.nanos
            &&& retry.max_times matches Some(times) ==> times >= 1
        },
{
}

/// What is refused of a policy is named: the first field that is wrong, in the order in
/// which they are looked at.
pub proof fn refused_policies_say_why(retry: ModbusTcpRetry)
    ensures
        retry.initial_delay.nanos == 0 ==> retry.problem() == Some(
            "retry initial_delay must be > 0"@,
        ),
        retry.initial_delay.nanos > 0 ==> {
            let capped = retry.max_delay matches Some(max) ==> max.nanos
                >= retry.initial_delay.nanos;
            let finite = 0x3F80_0000 <= retry.multiplier.bits < 0x7F80_0000;
            let timely = retry.max_elapsed.nanos >= retry.initial_delay.nanos;
            &&& !capped ==> retry.problem() == Some("retry max_delay must be >= initial_delay"@)
            &&& capped && !finite ==> retry.problem() == Some(
                "retry multiplier must be finite and >= 1.0"@,
            )
            &&& capped && finite && !timely ==> retry.problem() == Some(
                "retry max_elapsed must be >= initial_delay"@,
            )
            &&& capped && finite && timely && retry.max_times == Some(0usize) ==> retry.problem()
                == Some("retry max_times must be >= 1"@)
        },
{
}

/// The delays are those of the policy: they begin with its first delay, grow by its
/// multiplier, and are capped one by one, in sum and in number as it says.
pub proof fn delays_follow_the_policy(retry: ModbusTcpRetry)
    ensures
        retry.plan().min_delay == retry.initial_delay,
        retry.plan().factor.bits == retry.multiplier.bits,
        retry.plan().max_delay == retry.max_delay,
        retry.plan().total_delay == Some(retry.max_elapsed),
        retry.plan().max_times == retry.max_times,
        retry.plan().jitter == retry.jitter,
{
}

/// By default the first delay is half a second, each delay is one and a half times the
/// one before it and randomized, all of them last at most two seconds, and an answer of
/// the device is final.
pub proof fn default_delays(retry: ModbusTcpRetry)
    ensures
        retry.is_default() <==> {
            &&& retry.initial_delay.nanos == 500 * 1_000_000
            &&& retry.max_delay is None
            &&& retry.multiplier.bits == 0x3FC0_0000
            &&& retry.max_elapsed.nanos == 2 * 1_000_000_000
            &&& retry.max_times is None
            &&& retry.jitter
            &&& !retry.retry_gateway_busy
        },
{
}

/// Two policies are equal where all their fields are, the multipliers as numbers.
pub proof fn policies_are_equal_field_by_field(lhs: ModbusTcpRetry, rhs: ModbusTcpRetry)
    ensures
        <ModbusTcpRetry as PartialEqSpec>::obeys_eq_spec(),
        lhs.eq_spec(&rhs) <==> {
            &&& lhs.initial_delay.nanos == rhs.initial_delay.nanos
            &&& lhs.max_delay == rhs.max_delay
            &&& lhs.multiplier.same(rhs.multiplier)
            &&& lhs.max_elapsed.nanos == rhs.max_elapsed.nanos
            &&& lhs.max_times == rhs.max_times
            &&& lhs.jitter == rhs.jitter
            &&& lhs.retry_gateway_busy == rhs.retry_gateway_busy
        },
{
}

/// Two lists of delays are equal where all their fields are, the factors as numbers.
pub proof fn plans_are_equal_field_by_field(lhs: BackoffPlan, rhs: BackoffPlan)
    ensures
        <BackoffPlan as PartialEqSpec>::obeys_eq_spec(),
        lhs.eq_spec(&rhs) <==> {
            &&& lhs.min_delay.nanos == rhs.min_delay.nanos
            &&& lhs.factor.same(rhs.factor)
            &&& lhs.max_delay == rhs.max_delay
            &&& lhs.total_delay == rhs.total_delay
            &&& lhs.max_times == rhs.max_times
            &&& lhs.jitter == rhs.jitter
        },
{
}

} // verus!
