//! What callers may rely on, in terms of what they hand in and what they get back.
//!
//! Each law of this module speaks of a call by its arguments and its result.

use vstd::prelude::*;

use crate::error::{IoError, IoErrorKind, ModbusError};
use crate::request::{self, ModbusRequest};
use crate::response::{self, ModbusResponse};
use crate::time::{Duration, Instant};
use crate::wire;
use crate::word_order::{self, Float32, Float64, WordOrder, WordOrderError};

verus! {

/// Two registers decode to 65536 times the more significant one plus the other. The
/// signed value differs from the unsigned one by a multiple of two to the power of 32,
/// and the float has the same bit pattern.
pub proof fn two_registers_decode(
    order: WordOrder,
    regs: [u16; 2],
    unsigned: u32,
    signed: i32,
    float: Float32,
)
    requires
        call_ensures(WordOrder::decode_u32, (order, regs), unsigned),
        call_ensures(WordOrder::decode_i32, (order, regs), signed),
        call_ensures(WordOrder::decode_f32, (order, regs), float),
    ensures
        order == WordOrder::BigEndian ==> unsigned == 0x1_0000 * regs@[0] + regs@[1],
        order == WordOrder::LittleEndian ==> unsigned == 0x1_0000 * regs@[1] + regs@[0],
        signed as int % 0x1_0000_0000 == unsigned,
        float.bits == unsigned,
{
    assert(regs@ =~= seq![regs@[0], regs@[1]]);
    word_order::value_of_two_registers(regs@[0], regs@[1]);
    word_order::signed_32_is_congruent(order.value(regs@));
}

/// Four registers decode to the sum of them, each with its weight. The signed value
/// differs from the unsigned one by a multiple of two to the power of 64, and the float
/// has the same bit pattern.
pub proof fn four_registers_decode(
    order: WordOrder,
    regs: [u16; 4],
    unsigned: u64,
    signed: i64,
    float: Float64,
)
    requires
        call_ensures(WordOrder::decode_u64, (order, regs), unsigned),
        call_ensures(WordOrder::decode_i64, (order, regs), signed),
        call_ensures(WordOrder::decode_f64, (order, regs), float),
    ensures
        order == WordOrder::BigEndian ==> unsigned == 0x1_0000_0000_0000 * regs@[0]
            + 0x1_0000_0000 * regs@[1] + 0x1_0000 * regs@[2] + regs@[3],
        order == WordOrder::LittleEndian ==> unsigned == 0x1_0000_0000_0000 * regs@[3]
            + 0x1_0000_0000 * regs@[2] + 0x1_0000 * regs@[1] + regs@[0],
        signed as int % 0x1_0000_0000_0000_0000 == unsigned,
        float.bits == unsigned,
{
    assert(regs@ =~= seq![regs@[0], regs@[1], regs@[2], regs@[3]]);
    word_order::value_of_four_registers(regs@[0], regs@[1], regs@[2], regs@[3]);
    word_order::signed_64_is_congruent(order.value(regs@));
}

/// The value of scalar `i` of a block of 32-bit scalars.
proof fn narrow_scalar(order: WordOrder, regs: Seq<u16>, i: int)
    requires
        0 <= i,
        2 * i + 2 <= regs.len(),
    ensures
        order == WordOrder::BigEndian ==> order.value(WordOrder::chunk(regs, 2, i)) == 0x1_0000
            * regs[2 * i] + regs[2 * i + 1],
        order == WordOrder::LittleEndian ==> order.value(WordOrder::chunk(regs, 2, i)) == 0x1_0000
            * regs[2 * i + 1] + regs[2 * i],
{
    assert(WordOrder::chunk(regs, 2, i) =~= seq![regs[2 * i], regs[2 * i + 1]]);
    word_order::value_of_two_registers(regs[2 * i], regs[2 * i + 1]);
}

/// The value of scalar `i` of a block of 64-bit scalars.
proof fn wide_scalar(order: WordOrder, regs: Seq<u16>, i: int)
    requires
        0 <= i,
        4 * i + 4 <= regs.len(),
    ensures
        order == WordOrder::BigEndian ==> order.value(WordOrder::chunk(regs, 4, i))
            == 0x1_0000_0000_0000 * regs[4 * i] + 0x1_0000_0000 * regs[4 * i + 1] + 0x1_0000
            * regs[4 * i + 2] + regs[4 * i + 3],
        order == WordOrder::LittleEndian ==> order.value(WordOrder::chunk(regs, 4, i))
            == 0x1_0000_0000_0000 * regs[4 * i + 3] + 0x1_0000_0000 * regs[4 * i + 2] + 0x1_0000
            * regs[4 * i + 1] + regs[4 * i],
{
    let words = seq![regs[4 * i], regs[4 * i + 1], regs[4 * i + 2], regs[4 * i + 3]];
    assert(WordOrder::chunk(regs, 4, i) =~= words);
    word_order::value_of_four_registers(words[0], words[1], words[2], words[3]);
}

/// A block of 32-bit scalars decodes where the number of registers is even, to half as
/// many values, each from its own two registers.
pub proof fn narrow_blocks_decode(
    order: WordOrder,
    regs: &[u16],
    unsigned: Result<Vec<u32>, WordOrderError>,
    signed: Result<Vec<i32>, WordOrderError>,
    float: Result<Vec<Float32>, WordOrderError>,
    i: int,
)
    requires
        call_ensures(WordOrder::decode_u32_block, (order, regs), unsigned),
        call_ensures(WordOrder::decode_i32_block, (order, regs), signed),
        call_ensures(WordOrder::decode_f32_block, (order, regs), float),
    ensures
        unsigned is Ok <==> regs@.len() % 2 == 0,
        signed is Ok <==> regs@.len() % 2 == 0,
        float is Ok <==> regs@.len() % 2 == 0,
        unsigned matches Ok(values) ==> {
            &&& values@.len() == regs@.len() / 2
            &&& 0 <= i < values@.len() ==> {
                &&& order == WordOrder::BigEndian ==> values@[i] == 0x1_0000 * regs@[2 * i]
                    + regs@[2 * i + 1]
                &&& order == WordOrder::LittleEndian ==> values@[i] == 0x1_0000 * regs@[2 * i + 1]
                    + regs@[2 * i]
            }
        },
        signed matches Ok(values) ==> {
            &&& values@.len() == regs@.len() / 2
            &&& 0 <= i < values@.len() ==> {
                &&& order == WordOrder::BigEndian ==> values@[i] as int % 0x1_0000_0000 == 0x1_0000
                    * regs@[2 * i] + regs@[2 * i + 1]
                &&& order == WordOrder::LittleEndian ==> values@[i] as int % 0x1_0000_0000
                    == 0x1_0000 * regs@[2 * i + 1] + regs@[2 * i]
            }
        },
        float matches Ok(values) ==> {
            &&& values@.len() == regs@.len() / 2
            &&& 0 <= i < values@.len() ==> {
                &&& order == WordOrder::BigEndian ==> values@[i].bits == 0x1_0000 * regs@[2 * i]
                    + regs@[2 * i + 1]
                &&& order == WordOrder::LittleEndian ==> values@[i].bits == 0x1_0000 * regs@[2 * i
                    + 1] + regs@[2 * i]
            }
        },
{
    if 0 <= i < regs@.len() / 2 {
        narrow_scalar(order, regs@, i);
        word_order::signed_32_is_congruent(order.value(WordOrder::chunk(regs@, 2, i)));
    }
}

/// A block of 64-bit scalars decodes where the number of registers is a multiple of
/// four, to a quarter as many values, each from its own four registers.
pub proof fn wide_blocks_decode(
    order: WordOrder,
    regs: &[u16],
    unsigned: Result<Vec<u64>, WordOrderError>,
    signed: Result<Vec<i64>, WordOrderError>,
    float: Result<Vec<Float64>, WordOrderError>,
    i: int,
    value: int,
)
    requires
        call_ensures(WordOrder::decode_u64_block, (order, regs), unsigned),
        call_ensures(WordOrder::decode_i64_block, (order, regs), signed),
        call_ensures(WordOrder::decode_f64_block, (order, regs), float),
        0 <= i < regs@.len() / 4,
        value == match order {
            WordOrder::BigEndian => 0x1_0000_0000_0000 * regs@[4 * i] + 0x1_0000_0000 * regs@[4 * i
                + 1] + 0x1_0000 * regs@[4 * i + 2] + regs@[4 * i + 3],
            WordOrder::LittleEndian => 0x1_0000_0000_0000 * regs@[4 * i + 3] + 0x1_0000_0000
                * regs@[4 * i + 2] + 0x1_0000 * regs@[4 * i + 1] + regs@[4 * i],
        },
    ensures
        unsigned is Ok <==> regs@.len() % 4 == 0,
        signed is Ok <==> regs@.len() % 4 == 0,
        float is Ok <==> regs@.len() % 4 == 0,
        unsigned matches Ok(values) ==> values@.len() == regs@.len() / 4 && values@[i] == value,
        signed matches Ok(values) ==> values@.len() == regs@.len() / 4 && values@[i] as int
            % 0x1_0000_0000_0000_0000 == value,
        float matches Ok(values) ==> values@.len() == regs@.len() / 4 && values@[i].bits == value,
{
    wide_scalar(order, regs@, i);
    word_order::signed_64_is_congruent(order.value(WordOrder::chunk(regs@, 4, i)));
}

/// A request is accepted, and serialized, where it keeps to the limits of the protocol,
/// and otherwise refused with the same error by both. Its bytes begin with the function
/// code, the address and the quantity or value.
pub proof fn requests_within_limits_are_serialized(
    request: ModbusRequest,
    checked: Result<(), ModbusError>,
    result: Result<Vec<u8>, ModbusError>,
)
    requires
        call_ensures(ModbusRequest::validate, (&request,), checked),
        call_ensures(ModbusRequest::serialize, (&request,), result),
    ensures
        checked is Ok <==> match request {
            ModbusRequest::ReadCoils { quantity, .. } => 1 <= quantity <= 2000,
            ModbusRequest::ReadDiscreteInputs { quantity, .. } => 1 <= quantity <= 2000,
            ModbusRequest::ReadHoldingRegisters { quantity, .. } => 1 <= quantity <= 125,
            ModbusRequest::ReadInputRegisters { quantity, .. } => 1 <= quantity <= 125,
            ModbusRequest::WriteSingleCoil { .. } => true,
            ModbusRequest::WriteSingleRegister { .. } => true,
            ModbusRequest::WriteMultipleCoils { values, .. } => 1 <= values@.len() <= 1968,
            ModbusRequest::WriteMultipleRegisters { values, .. } => 1 <= values@.len() <= 123,
        },
        result is Ok <==> checked is Ok,
        result matches Err(e) ==> e is ValidationError && e@ == request@.limit_error(),
        checked matches Err(e) ==> e is ValidationError && e@ == request@.limit_error(),
        result matches Ok(bytes) ==> bytes@ == request@.encoded() && 5 <= bytes@.len() <= 252,
{
    wire::limits_of_the_protocol(request);
    if request@.valid() {
        request::valid_request_fits(request);
    }
}

/// Without a look at the limits, a request is serialized as long as its byte count fits
/// into one byte. The byte count then counts the bytes that follow it.
pub proof fn requests_are_serialized_as_far_as_they_fit(
    request: ModbusRequest,
    result: Result<Vec<u8>, ModbusError>,
)
    requires
        call_ensures(request::serialize_modbus_request, (&request,), result),
    ensures
        result is Ok <==> match request {
            ModbusRequest::WriteMultipleCoils { values, .. } => values@.len() <= 2040,
            ModbusRequest::WriteMultipleRegisters { values, .. } => values@.len() <= 127,
            _ => true,
        },
        result matches Ok(bytes) ==> bytes@ == request@.encoded(),
        result matches Err(e) ==> e is ValidationError,
        result matches Ok(bytes) ==> match request {
            ModbusRequest::WriteMultipleCoils { values, .. } => {
                &&& bytes@[5] == bytes@.len() - 6
                &&& bytes@[5] == (values@.len() + 7) / 8
            },
            ModbusRequest::WriteMultipleRegisters { values, .. } => {
                &&& bytes@[5] == bytes@.len() - 6
                &&& bytes@[5] == 2 * values@.len()
            },
            _ => bytes@.len() == 5,
        },
{
    wire::encodable_requests(request);
    if result is Ok {
        wire::request_fields_lie_in_place(request);
    }
}

/// Coils are packed eight to a byte, the first of each eight in the lowest bit.
pub proof fn coils_are_packed(coils: &[bool], bytes: Vec<u8>, i: int)
    requires
        call_ensures(request::pack_coils, (coils,), bytes),
    ensures
        bytes@.len() == (coils@.len() + 7) / 8,
        0 <= i < 8 * bytes@.len() ==> wire::bit_at(bytes@, 0, i) == (i < coils@.len() && coils@[i]),
{
    wire::packed_coils_lie_bit_by_bit(coils@, i);
}

/// A quantity is accepted from one up to the limit.
pub proof fn quantities_are_accepted_up_to_the_limit(
    name: &str,
    quantity: u16,
    len: usize,
    max: u16,
    checked: Result<(), ModbusError>,
    counted: Result<u16, ModbusError>,
)
    requires
        call_ensures(request::validate_quantity, (name, quantity, max), checked),
        call_ensures(request::validate_values_len, (name, len, max), counted),
    ensures
        checked is Ok <==> quantity >= 1 && quantity <= max,
        counted is Ok <==> len >= 1 && len <= max,
        counted matches Ok(taken) ==> taken == len,
        checked matches Err(e) ==> e is ValidationError,
        counted matches Err(e) ==> e is ValidationError,
{
}

/// Decoding with a count gives the first values of what decoding without one gives, for
/// coils and for discrete inputs alike, and otherwise the same.
pub proof fn counted_decoding_is_a_prefix(
    pdu: &[u8],
    count: usize,
    whole: Result<ModbusResponse, ModbusError>,
    counted: Result<ModbusResponse, ModbusError>,
)
    requires
        call_ensures(ModbusResponse::deserialize, (pdu,), whole),
        call_ensures(ModbusResponse::deserialize_with_count, (pdu, count), counted),
    ensures
        match whole {
            Ok(ModbusResponse::ReadCoils { coils }) => {
                &&& counted matches Ok(ModbusResponse::ReadCoils { coils: first })
                &&& first@ == coils@.take(wire::cut(coils@.len() as int, Some(count)))
            },
            Ok(ModbusResponse::ReadDiscreteInputs { inputs }) => {
                &&& counted matches Ok(ModbusResponse::ReadDiscreteInputs { inputs: first })
                &&& first@ == inputs@.take(wire::cut(inputs@.len() as int, Some(count)))
            },
            other => response::outcome(counted) == response::outcome(other),
        },
{
    wire::count_takes_the_first_values(pdu@, count);
}

/// A PDU is decoded where it is a response, and its values are those of its bytes.
pub proof fn responses_are_decoded(
    pdu: &[u8],
    count: Option<usize>,
    plain: Result<ModbusResponse, ModbusError>,
    cut: Result<ModbusResponse, ModbusError>,
)
    requires
        call_ensures(ModbusResponse::deserialize, (pdu,), plain),
        call_ensures(response::deserialize_modbus_response, (pdu, count), cut),
    ensures
        plain is Ok <==> wire::is_response(pdu@),
        cut is Ok <==> wire::is_response(pdu@),
        plain matches Err(e) ==> e is DeserializationError,
        cut matches Err(e) ==> e is DeserializationError,
        response::outcome(plain) == response::decoded(pdu@, None),
        response::outcome(cut) == response::decoded(pdu@, count),
{
    wire::responses_and_nothing_else_are_decoded(pdu@, None);
    wire::responses_and_nothing_else_are_decoded(pdu@, count);
}

/// The bits and the registers of a read are those of the bytes after its byte count.
pub proof fn values_are_unpacked(
    pdu: &[u8],
    min_len: usize,
    count: Option<usize>,
    bits: Result<(usize, Vec<bool>), ModbusError>,
    registers: Result<Vec<u16>, ModbusError>,
    i: int,
)
    requires
        pdu@.len() < min_len || pdu@.len() >= 2,
        call_ensures(response::unpack_bits, (pdu, min_len, count), bits),
        call_ensures(response::parse_registers, (pdu, min_len), registers),
    ensures
        bits is Ok <==> pdu@.len() >= min_len && pdu@.len() >= 2 + pdu@[1],
        bits matches Ok((byte_count, values)) ==> {
            &&& byte_count == pdu@[1]
            &&& values@.len() == wire::cut(8 * byte_count, count)
            &&& 0 <= i < values@.len() ==> values@[i] == wire::bit_at(pdu@, 2, i)
        },
        registers is Ok <==> pdu@.len() >= min_len && pdu@.len() >= 2 + pdu@[1] && pdu@[1] % 2 == 0,
        registers matches Ok(values) ==> {
            &&& 2 * values@.len() == pdu@[1]
            &&& 0 <= i < values@.len() ==> values@[i] == 256 * pdu@[2 + 2 * i] + pdu@[3 + 2 * i]
        },
{
    wire::values_lie_in_the_announced_bytes(pdu@, min_len as nat, count, i);
}

/// A response passes where it belongs to the request. It then stays as it is, but for
/// the bits of a read, of which as many are left as were asked for.
pub proof fn responses_are_aligned(
    request: ModbusRequest,
    response: ModbusResponse,
    result: Result<ModbusResponse, ModbusError>,
    same: Result<ModbusResponse, ModbusError>,
)
    requires
        call_ensures(ModbusResponse::align_to_request, (response, &request), result),
        call_ensures(response::align_response_to_request, (&request, response), same),
    ensures
        result is Ok <==> wire::belongs_to(request, response),
        result matches Err(e) ==> e is RequestResponseMismatch,
        response::outcome(same) == response::outcome(result),
        result matches Ok(passed) ==> match (request, response) {
            (
                ModbusRequest::ReadCoils { quantity, .. },
                ModbusResponse::ReadCoils { coils },
            ) => {
                &&& passed matches ModbusResponse::ReadCoils { coils: left }
                &&& left@ == coils@.take(quantity as int)
            },
            (
                ModbusRequest::ReadDiscreteInputs { quantity, .. },
                ModbusResponse::ReadDiscreteInputs { inputs },
            ) => {
                &&& passed matches ModbusResponse::ReadDiscreteInputs { inputs: left }
                &&& left@ == inputs@.take(quantity as int)
            },
            _ => passed@ == response@,
        },
{
    wire::alignment_passes_what_belongs(request, response);
}

/// Every failure of the transport is transient, by whichever of its names it goes, and
/// nothing else is; and a gateway is busy by the code of its exception alone.
pub proof fn errors_are_classified(error: ModbusError, transient: bool, busy: bool)
    requires
        call_ensures(ModbusError::is_transient, (&error,), transient),
        call_ensures(ModbusError::is_gateway_busy, (&error,), busy),
    ensures
        transient <==> error is ConnectError || error is ConnectTimeout || error is WriteError
            || error is WriteTimeout || error is ReadError || error is ReadTimeout
            || error is QueueTimeout || error is MalformedResponse,
        busy <==> (error matches ModbusError::ExceptionResponse { code, .. } && (code == 5 || code
            == 6 || code == 10 || code == 11)),
{
    crate::error::transport_failures_are_transient(error);
    crate::error::busy_codes_are_those_four(error);
}

/// The message of an error is the text of that error.
pub proof fn errors_are_told(
    error: ModbusError,
    failure: IoError,
    block: WordOrderError,
    text: String,
    message: String,
    kind: IoErrorKind,
    described: String,
)
    requires
        call_ensures(ModbusError::to_string, (&error,), text),
        call_ensures(IoError::to_string, (&failure,), message),
        call_ensures(IoError::kind, (&failure,), kind),
        call_ensures(WordOrderError::to_string, (&block,), described),
    ensures
        text@ == error@.text(),
        message@ == failure.message@,
        kind == failure.kind,
        match block {
            WordOrderError::InvalidBlockLength { len, width, scalar_type } => described@
                == "register block length "@ + crate::text::decimal(len as nat)
                + " is not a multiple of "@ + crate::text::decimal(width as nat) + " (for "@
                + scalar_type@ + ")"@,
        },
{
}

/// A failure that the library makes itself has the category and the message that were
/// given, and two failures are equal where both are.
pub proof fn failures_are_made_and_compared(
    kind: IoErrorKind,
    message: &str,
    owned: String,
    made: IoError,
    other: IoError,
    equal: bool,
)
    requires
        call_ensures(IoError::new, (kind, message), made),
        call_ensures(IoError::with_message, (kind, owned), other),
        call_ensures(crate::error::io_errors_equal, (&made, &other), equal),
    ensures
        made.kind == kind && made.message@ == message@ && made.raw_os_error is None,
        other.kind == kind && other.message@ == owned@ && other.raw_os_error is None,
        equal <==> message@ == owned@,
{
}

/// Spans and points in time are counted in nanoseconds.
pub proof fn time_is_counted_in_nanoseconds(
    secs: u64,
    millis: u64,
    long: Duration,
    short: Duration,
    at: Instant,
    later: Instant,
    reached: bool,
)
    requires
        call_ensures(Duration::from_secs, (secs,), long),
        call_ensures(Duration::from_millis, (millis,), short),
        at.nanos + long.nanos <= u128::MAX,
        call_ensures(Instant::plus, (at, long), later),
        call_ensures(Instant::reached, (at, later), reached),
    ensures
        long.nanos == secs * 1_000_000_000,
        short.nanos == millis * 1_000_000,
        later.nanos == at.nanos + long.nanos,
        reached <==> secs == 0,
{
}

/// Float patterns are kept as they are, in either direction.
pub proof fn patterns_are_kept(
    narrow: u32,
    wide: u64,
    single: Float32,
    double: Float64,
    narrow_back: u32,
    wide_back: u64,
)
    requires
        call_ensures(Float32::from_bits, (narrow,), single),
        call_ensures(Float64::from_bits, (wide,), double),
        call_ensures(Float32::to_bits, (single,), narrow_back),
        call_ensures(Float64::to_bits, (double,), wide_back),
    ensures
        single.bits == narrow && narrow_back == narrow,
        double.bits == wide && wide_back == wide,
{
}

/// Words are put in order, most significant first, and a block is accepted where it is a
/// whole number of scalars.
pub proof fn words_are_ordered_and_blocks_accepted(
    order: WordOrder,
    two: [u16; 2],
    four: [u16; 4],
    two_ordered: [u16; 2],
    four_ordered: [u16; 4],
    len: usize,
    width: usize,
    name: &'static str,
    result: Result<(), WordOrderError>,
)
    requires
        width > 0,
        call_ensures(WordOrder::order_32, (order, two), two_ordered),
        call_ensures(WordOrder::order_64, (order, four), four_ordered),
        call_ensures(WordOrder::validate_block, (order, len, width, name), result),
    ensures
        order == WordOrder::BigEndian ==> two_ordered@ == two@ && four_ordered@ == four@,
        order == WordOrder::LittleEndian ==> two_ordered@ == seq![two@[1], two@[0]]
            && four_ordered@ == seq![four@[3], four@[2], four@[1], four@[0]],
        result is Ok <==> len % width == 0,
        result matches Err(WordOrderError::InvalidBlockLength { len: l, width: w, scalar_type })
            ==> l == len && w == width && scalar_type@ == name@,
{
    assert(two@.reverse() =~= seq![two@[1], two@[0]]);
    assert(four@.reverse() =~= seq![four@[3], four@[2], four@[1], four@[0]]);
}

/// By default the most significant word comes first.
pub proof fn default_order_is_big_endian(order: WordOrder)
    requires
        call_ensures(<WordOrder as Default>::default, (), order),
    ensures
        order == WordOrder::BigEndian,
{
}

/// A copy says what its original says.
pub proof fn copies_say_the_same(
    error: ModbusError,
    failure: IoError,
    request: ModbusRequest,
    response: ModbusResponse,
    error_copy: ModbusError,
    failure_copy: IoError,
    request_copy: ModbusRequest,
    response_copy: ModbusResponse,
)
    requires
        call_ensures(<ModbusError as Clone>::clone, (&error,), error_copy),
        call_ensures(<IoError as Clone>::clone, (&failure,), failure_copy),
        call_ensures(<ModbusRequest as Clone>::clone, (&request,), request_copy),
        call_ensures(<ModbusResponse as Clone>::clone, (&response,), response_copy),
    ensures
        error_copy@ == error@,
        failure_copy.kind == failure.kind && failure_copy.message@ == failure.message@
            && failure_copy.raw_os_error == failure.raw_os_error,
        request_copy@ == request@,
        response_copy@ == response@,
{
}

/// Numbers, booleans and lists are appended to what is there, as they are written.
pub proof fn texts_are_appended(
    decimal: &mut String,
    hexadecimal: &mut String,
    boolean: &mut String,
    n: u64,
    byte: u64,
    b: bool,
)
    requires
        byte < 0x100,
        call_ensures(crate::text::push_decimal, (decimal, n), ()),
        call_ensures(crate::text::push_hex, (hexadecimal, byte, 2), ()),
        call_ensures(crate::text::push_boolean, (boolean, b), ()),
    ensures
        final(decimal)@ == old(decimal)@ + crate::text::decimal(n as nat),
        crate::text::numeral_value(crate::text::decimal(n as nat), 10) == n,
        final(hexadecimal)@ == old(hexadecimal)@ + crate::text::hex(byte as nat, 2),
        crate::text::numeral_value(crate::text::hex(byte as nat, 2), 16) == byte,
        b ==> final(boolean)@ == old(boolean)@ + seq!['t', 'r', 'u', 'e'],
        !b ==> final(boolean)@ == old(boolean)@ + seq!['f', 'a', 'l', 's', 'e'],
{
    crate::text::decimal_reads_back(n as nat);
    crate::text::hex_reads_back(byte as nat);
    crate::text::booleans_are_written_out();
}

/// Requests, responses and lists are appended to what is there.
pub proof fn descriptions_are_appended(
    request: ModbusRequest,
    response: ModbusResponse,
    bits: &[bool],
    words: &[u16],
    first: &mut String,
    second: &mut String,
    third: &mut String,
    fourth: &mut String,
)
    requires
        call_ensures(ModbusRequest::push_debug, (&request, first), ()),
        call_ensures(ModbusResponse::push_debug, (&response, second), ()),
        call_ensures(crate::text::push_boolean_list, (third, bits), ()),
        call_ensures(crate::text::push_number_list, (fourth, words), ()),
    ensures
        final(first)@ == old(first)@ + request@.debug_text(),
        final(second)@ == old(second)@ + response@.debug_text(),
        final(third)@ == old(third)@ + crate::text::boolean_list(bits@),
        final(fourth)@ == old(fourth)@ + crate::text::number_list(words@),
{
}

/// Words are written and read with their high byte first.
pub proof fn words_are_written_and_read(
    out: &mut Vec<u8>,
    word: u16,
    high: u8,
    low: u8,
    read: u16,
)
    requires
        call_ensures(crate::big_endian::push_be, (out, word), ()),
        call_ensures(crate::big_endian::word_of_be, (high, low), read),
    ensures
        final(out)@.len() == old(out)@.len() + 2,
        final(out)@.take(old(out)@.len() as int) == old(out)@,
        256 * final(out)@[old(out)@.len() as int] + final(out)@[1 + old(out)@.len() as int] == word,
        read == 256 * high + low,
{
    assert((old(out)@ + crate::big_endian::be_bytes(word)).take(old(out)@.len() as int)
        =~= old(out)@);
}

/// No time at all is zero nanoseconds.
pub proof fn no_time_is_zero(nanos: u128, zero: Duration, span: Duration, is_zero: bool, at: Instant)
    requires
        call_ensures(Duration::zero, (), zero),
        call_ensures(Duration::is_zero, (&span,), is_zero),
        call_ensures(Instant::from_nanos, (nanos,), at),
    ensures
        zero.nanos == 0,
        is_zero <==> span.nanos == 0,
        at.nanos == nanos,
{
}

/// The frames of a mock server: header fields in place, and the PDU as it is. An exception
/// has the high bit of its function set.
pub proof fn mock_frames_are_built(
    transaction_id: u16,
    protocol_id: u16,
    unit_id: u8,
    pdu: &[u8],
    function: u8,
    code: u8,
    foreign: Vec<u8>,
    answer: Vec<u8>,
    exception: Vec<u8>,
)
    requires
        pdu@.len() <= 65534,
        call_ensures(
            crate::test_support::build_protocol_mismatch_frame,
            (transaction_id, protocol_id, unit_id, pdu),
            foreign,
        ),
        call_ensures(
            crate::test_support::build_tcp_response_frame,
            (transaction_id, unit_id, pdu),
            answer,
        ),
        call_ensures(
            crate::test_support::build_exception_response_frame,
            (transaction_id, unit_id, function, code),
            exception,
        ),
    ensures
        256 * foreign@[0] + foreign@[1] == transaction_id,
        256 * foreign@[2] + foreign@[3] == protocol_id,
        256 * foreign@[4] + foreign@[5] == foreign@.len() - 6,
        foreign@[6] == unit_id,
        foreign@.skip(7) == pdu@,
        256 * answer@[0] + answer@[1] == transaction_id,
        256 * answer@[2] + answer@[3] == 0,
        256 * answer@[4] + answer@[5] == answer@.len() - 6,
        answer@[6] == unit_id,
        answer@.skip(7) == pdu@,
        exception@.len() == 9,
        256 * exception@[0] + exception@[1] == transaction_id,
        256 * exception@[2] + exception@[3] == 0,
        exception@[6] == unit_id,
        exception@[7] >= 128,
        function >= 128 ==> exception@[7] == function,
        function < 128 ==> exception@[7] == function + 128,
        exception@[8] == code,
{
    crate::tcp::adu::frame_fields_lie_in_place(transaction_id, protocol_id, unit_id, pdu@);
    crate::tcp::adu::frame_fields_lie_in_place(transaction_id, 0, unit_id, pdu@);
    assert(crate::tcp::adu::framed(transaction_id, protocol_id, unit_id, pdu@).skip(7) =~= pdu@);
    assert(crate::tcp::adu::framed(transaction_id, 0, unit_id, pdu@).skip(7) =~= pdu@);
    assert((function | 0x80u8) >= 128 && (function >= 128 ==> (function | 0x80u8) == function) && (
    function < 128 ==> (function | 0x80u8) == function + 128)) by (bit_vector);
    crate::tcp::adu::frame_fields_lie_in_place(
        transaction_id,
        0,
        unit_id,
        seq![function | 0x80u8, code],
    );
}

/// A mock server reads header fields with their high bytes first, and the PDU that the
/// length field announces.
pub proof fn mock_server_reads_requests(
    header: [u8; 7],
    pdu: Vec<u8>,
    len: usize,
    request: crate::test_support::CapturedRequest,
    sent: ModbusRequest,
    framed: Result<Vec<u8>, ModbusError>,
    serialized: Result<Vec<u8>, ModbusError>,
    transaction_id: u16,
    unit_id: u8,
)
    requires
        call_ensures(crate::test_support::request_pdu_len, (header,), len),
        call_ensures(crate::test_support::read_request_frame, (header, pdu), request),
        call_ensures(
            crate::test_support::build_request_frame,
            (transaction_id, unit_id, &sent),
            framed,
        ),
        call_ensures(crate::test_support::serialized_request_pdu, (&sent,), serialized),
    ensures
        256 * header@[4] + header@[5] > 0 ==> len == 256 * header@[4] + header@[5] - 1,
        256 * header@[4] + header@[5] == 0 ==> len == 0,
        request.transaction_id == 256 * header@[0] + header@[1],
        request.protocol_id == 256 * header@[2] + header@[3],
        request.unit_id == header@[6],
        request.pdu@ == pdu@,
        serialized is Ok <==> framed is Ok,
        serialized matches Ok(bytes) ==> bytes@ == sent@.encoded() && (framed matches Ok(frame)
            && frame@ == crate::tcp::adu::framed(transaction_id, 0, unit_id, bytes@)),
{
}

/// Bytes are converted into a response as they are decoded without a count.
pub proof fn conversion_is_decoding(
    pdu: &[u8],
    owned: Vec<u8>,
    decoded: Result<ModbusResponse, ModbusError>,
    converted: Result<ModbusResponse, ModbusError>,
    converted_owned: Result<ModbusResponse, ModbusError>,
)
    requires
        owned@ == pdu@,
        call_ensures(ModbusResponse::deserialize, (pdu,), decoded),
        call_ensures(<ModbusResponse as TryFrom<&[u8]>>::try_from, (pdu,), converted),
        call_ensures(<ModbusResponse as TryFrom<Vec<u8>>>::try_from, (owned,), converted_owned),
    ensures
        response::outcome(converted) == response::outcome(decoded),
        response::outcome(converted_owned) == response::outcome(decoded),
{
}

} // verus!
