//! What requests and responses are on the wire, byte by byte.
//!
//! The laws of this module speak of bytes, numbers and bits alone: where each
//! field lies in a PDU, how much it weighs, and what is counted by what.

use vstd::prelude::*;

use crate::big_endian;
use crate::error::ErrorView;
use crate::request::{self, ModbusRequest, RequestView};
use crate::response::{self, ModbusResponse, ResponseView};
use crate::text;

verus! {

/// The number that two bytes from `at` on stand for, the high byte first.
pub open spec fn word_at(bytes: Seq<u8>, at: int) -> int {
    256 * bytes[at] + bytes[at + 1]
}

/// The weight of the bit with the place `place` in its byte.
pub open spec fn bit_weight(place: int) -> int {
    if place <= 0 {
        1
    } else if place == 1 {
        2
    } else if place == 2 {
        4
    } else if place == 3 {
        8
    } else if place == 4 {
        16
    } else if place == 5 {
        32
    } else if place == 6 {
        64
    } else {
        128
    }
}

/// Whether bit `i` of the bytes from `at` on is set, eight bits to a byte and the
/// lowest bit of each byte first.
pub open spec fn bit_at(bytes: Seq<u8>, at: int, i: int) -> bool {
    (bytes[at + i / 8] as int / bit_weight(i % 8)) % 2 == 1
}

/// A bit by its place is the same as by its weight.
proof fn bit_by_weight(byte: u8, place: int)
    requires
        0 <= place < 8,
    ensures
        response::bit(byte, place as u8) == ((byte as int / bit_weight(place)) % 2 == 1),
{
    assert((byte >> 0u8) & 1 == (byte / 1) % 2 && (byte >> 1u8) & 1 == (byte / 2) % 2 && (byte
        >> 2u8) & 1 == (byte / 4) % 2 && (byte >> 3u8) & 1 == (byte / 8) % 2 && (byte >> 4u8) & 1
        == (byte / 16) % 2 && (byte >> 5u8) & 1 == (byte / 32) % 2 && (byte >> 6u8) & 1 == (byte
        / 64) % 2 && (byte >> 7u8) & 1 == (byte / 128) % 2) by (bit_vector);
}

/// Coils are packed eight to a byte: coil `i` is bit `i`, and what is left of the
/// last byte is off.
pub proof fn packed_coils_lie_bit_by_bit(coils: Seq<bool>, i: int)
    ensures
        request::packed(coils).len() == (coils.len() + 7) / 8,
        0 <= i < 8 * request::packed(coils).len() ==> bit_at(request::packed(coils), 0, i) == (i
            < coils.len() && coils[i]),
{
    if 0 <= i < 8 * request::packed(coils).len() {
        response::packed_bit(coils, i);
        bit_by_weight(request::packed(coils)[i / 8], i % 8);
    }
}

/// Bytes are unpacked eight bits to a byte, the lowest one first.
pub proof fn unpacked_bits_lie_bit_by_bit(bytes: Seq<u8>, i: int)
    ensures
        response::unpacked(bytes).len() == 8 * bytes.len(),
        0 <= i < 8 * bytes.len() ==> response::unpacked(bytes)[i] == bit_at(bytes, 0, i),
{
    if 0 <= i < 8 * bytes.len() {
        bit_by_weight(bytes[i / 8], i % 8);
    }
}

/// The byte count of a write, at index five of its PDU, counts the bytes that
/// follow it: two for each register, and one for every eight coils begun.
pub proof fn byte_count_counts_what_follows(request: RequestView)
    requires
        match request {
            RequestView::WriteMultipleCoils { values, .. } => values.len() <= 2040,
            RequestView::WriteMultipleRegisters { values, .. } => values.len() <= 127,
            _ => false,
        },
    ensures
        request.encoded().len() >= 6,
        request.encoded()[5] == request.encoded().len() - 6,
        match request {
            RequestView::WriteMultipleCoils { values, .. } => request.encoded()[5] == (values.len()
                + 7) / 8,
            RequestView::WriteMultipleRegisters { values, .. } => request.encoded()[5] == 2
                * values.len(),
            _ => false,
        },
{
}

/// The PDU of a request, field by field. It begins with the function code and the
/// address; then comes the quantity, or the value that is written. A write of
/// several values goes on with the byte count and the values.
pub proof fn request_fields_lie_in_place(request: ModbusRequest)
    requires
        match request {
            ModbusRequest::WriteMultipleCoils { values, .. } => values@.len() <= 2040,
            ModbusRequest::WriteMultipleRegisters { values, .. } => values@.len() <= 127,
            _ => true,
        },
    ensures
        ({
            let pdu = request@.encoded();
            match request {
                ModbusRequest::ReadCoils { starting_address, quantity } => {
                    &&& pdu.len() == 5
                    &&& pdu[0] == 0x01
                    &&& word_at(pdu, 1) == starting_address
                    &&& word_at(pdu, 3) == quantity
                },
                ModbusRequest::ReadDiscreteInputs { starting_address, quantity } => {
                    &&& pdu.len() == 5
                    &&& pdu[0] == 0x02
                    &&& word_at(pdu, 1) == starting_address
                    &&& word_at(pdu, 3) == quantity
                },
                ModbusRequest::ReadHoldingRegisters { starting_address, quantity } => {
                    &&& pdu.len() == 5
                    &&& pdu[0] == 0x03
                    &&& word_at(pdu, 1) == starting_address
                    &&& word_at(pdu, 3) == quantity
                },
                ModbusRequest::ReadInputRegisters { starting_address, quantity } => {
                    &&& pdu.len() == 5
                    &&& pdu[0] == 0x04
                    &&& word_at(pdu, 1) == starting_address
                    &&& word_at(pdu, 3) == quantity
                },
                ModbusRequest::WriteSingleCoil { address, value } => {
                    &&& pdu.len() == 5
                    &&& pdu[0] == 0x05
                    &&& word_at(pdu, 1) == address
                    &&& value ==> word_at(pdu, 3) == 0xFF00
                    &&& !value ==> word_at(pdu, 3) == 0
                },
                ModbusRequest::WriteSingleRegister { address, value } => {
                    &&& pdu.len() == 5
                    &&& pdu[0] == 0x06
                    &&& word_at(pdu, 1) == address
                    &&& word_at(pdu, 3) == value
                },
                ModbusRequest::WriteMultipleCoils { starting_address, values } => {
                    &&& pdu.len() == 6 + (values@.len() + 7) / 8
                    &&& pdu[0] == 0x0F
                    &&& word_at(pdu, 1) == starting_address
                    &&& word_at(pdu, 3) == values@.len()
                    &&& pdu[5] == pdu.len() - 6
                    &&& forall|i: int|
                        0 <= i < 8 * pdu[5] ==> #[trigger] bit_at(pdu, 6, i) == (i < values@.len()
                            && values@[i])
                },
                ModbusRequest::WriteMultipleRegisters { starting_address, values } => {
                    &&& pdu.len() == 6 + 2 * values@.len()
                    &&& pdu[0] == 0x10
                    &&& word_at(pdu, 1) == starting_address
                    &&& word_at(pdu, 3) == values@.len()
                    &&& pdu[5] == pdu.len() - 6
                    &&& forall|i: int|
                        0 <= i < values@.len() ==> word_at(pdu, 6 + 2 * i) == #[trigger] values@[i]
                },
            }
        }),
{
    let pdu = request@.encoded();
    match request {
        ModbusRequest::WriteMultipleCoils { values, .. } => {
            let bytes = request::packed(values@);
            assert(pdu.skip(6) =~= bytes);
            assert forall|i: int| 0 <= i < 8 * pdu[5] implies #[trigger] bit_at(pdu, 6, i) == (i
                < values@.len() && values@[i]) by {
                packed_coils_lie_bit_by_bit(values@, i);
                assert(pdu[6 + i / 8] == bytes[i / 8]);
            }
        },
        ModbusRequest::WriteMultipleRegisters { values, .. } => {
            let bytes = big_endian::be_words_bytes(values@);
            assert(pdu.skip(6) =~= bytes);
            assert forall|i: int| 0 <= i < values@.len() implies word_at(pdu, 6 + 2 * i)
                == #[trigger] values@[i] by {
                assert(pdu[6 + 2 * i] == bytes[2 * i]);
                assert(pdu[6 + 2 * i + 1] == bytes[2 * i + 1]);
            }
        },
        _ => {},
    }
}

/// The limits of the protocol: how many values one request may speak of.
pub proof fn limits_of_the_protocol(request: ModbusRequest)
    ensures
        request@.valid() == match request {
            ModbusRequest::ReadCoils { quantity, .. } => 1 <= quantity <= 2000,
            ModbusRequest::ReadDiscreteInputs { quantity, .. } => 1 <= quantity <= 2000,
            ModbusRequest::ReadHoldingRegisters { quantity, .. } => 1 <= quantity <= 125,
            ModbusRequest::ReadInputRegisters { quantity, .. } => 1 <= quantity <= 125,
            ModbusRequest::WriteSingleCoil { .. } => true,
            ModbusRequest::WriteSingleRegister { .. } => true,
            ModbusRequest::WriteMultipleCoils { values, .. } => 1 <= values@.len() <= 1968,
            ModbusRequest::WriteMultipleRegisters { values, .. } => 1 <= values@.len() <= 123,
        },
{
}

/// Whatever the limits, a request can be encoded as long as its byte count fits into
/// one byte; only writes of several values can fail to.
pub proof fn encodable_requests(request: ModbusRequest)
    ensures
        request@.encoding_obstacle() is None <==> match request {
            ModbusRequest::WriteMultipleCoils { values, .. } => values@.len() <= 2040,
            ModbusRequest::WriteMultipleRegisters { values, .. } => values@.len() <= 127,
            _ => true,
        },
{
}

/// The error for a request beyond the limits names the request, the limit and the
/// quantity.
pub proof fn limit_errors_name_the_limit(request: ModbusRequest)
    ensures
        match request {
            ModbusRequest::ReadCoils { quantity, .. } => request@.limit_error()
                == ErrorView::ValidationError(
                "ReadCoils"@ + " quantity must be 1-"@ + text::decimal(2000) + ", got "@
                    + text::decimal(quantity as nat),
            ),
            ModbusRequest::ReadDiscreteInputs { quantity, .. } => request@.limit_error()
                == ErrorView::ValidationError(
                "ReadDiscreteInputs"@ + " quantity must be 1-"@ + text::decimal(2000) + ", got "@
                    + text::decimal(quantity as nat),
            ),
            ModbusRequest::ReadHoldingRegisters { quantity, .. } => request@.limit_error()
                == ErrorView::ValidationError(
                "ReadHoldingRegisters"@ + " quantity must be 1-"@ + text::decimal(125) + ", got "@
                    + text::decimal(quantity as nat),
            ),
            ModbusRequest::ReadInputRegisters { quantity, .. } => request@.limit_error()
                == ErrorView::ValidationError(
                "ReadInputRegisters"@ + " quantity must be 1-"@ + text::decimal(125) + ", got "@
                    + text::decimal(quantity as nat),
            ),
            ModbusRequest::WriteMultipleCoils { values, .. } => request@.limit_error()
                == ErrorView::ValidationError(
                "WriteMultipleCoils"@ + " quantity must be 1-"@ + text::decimal(1968) + ", got "@
                    + text::decimal(values@.len()),
            ),
            ModbusRequest::WriteMultipleRegisters { values, .. } => request@.limit_error()
                == ErrorView::ValidationError(
                "WriteMultipleRegisters"@ + " quantity must be 1-"@ + text::decimal(123)
                    + ", got "@ + text::decimal(values@.len()),
            ),
            _ => true,
        },
{
}

/// The error for a request that cannot be encoded names the field that is too small
/// and what would have to fit into it.
pub proof fn encoding_errors_name_the_field(request: ModbusRequest)
    ensures
        match request {
            ModbusRequest::WriteMultipleCoils { values, .. } => {
                &&& values@.len() > 65535 ==> request@.encoding_obstacle() == Some(
                    "WriteMultipleCoils quantity must fit in u16, got "@ + text::decimal(
                        values@.len(),
                    ),
                )
                &&& 2040 < values@.len() <= 65535 ==> request@.encoding_obstacle() == Some(
                    "WriteMultipleCoils byte count must fit in u8, got "@ + text::decimal(
                        (values@.len() + 7) / 8,
                    ),
                )
            },
            ModbusRequest::WriteMultipleRegisters { values, .. } => {
                &&& values@.len() > 65535 ==> request@.encoding_obstacle() == Some(
                    "WriteMultipleRegisters quantity must fit in u16, got "@ + text::decimal(
                        values@.len(),
                    ),
                )
                &&& 127 < values@.len() <= 65535 ==> request@.encoding_obstacle() == Some(
                    "WriteMultipleRegisters byte count must fit in u8, got "@ + text::decimal(
                        2 * values@.len(),
                    ),
                )
            },
            _ => true,
        },
{
}

/// Which PDUs are responses: those with a known function code and everything that it
/// calls for. A read has all the bytes that its byte count announces, and registers
/// come in pairs of bytes. The answer to a write has an address and a word, which for
/// a single coil is on or off. An exception has a code.
pub open spec fn is_response(pdu: Seq<u8>) -> bool {
    ||| pdu.len() >= 2 && (pdu[0] == 1 || pdu[0] == 2) && pdu.len() >= 2 + pdu[1]
    ||| pdu.len() >= 2 && (pdu[0] == 3 || pdu[0] == 4) && pdu.len() >= 2 + pdu[1] && pdu[1] % 2
        == 0
    ||| pdu.len() >= 5 && pdu[0] == 5 && (word_at(pdu, 3) == 0xFF00 || word_at(pdu, 3) == 0)
    ||| pdu.len() >= 5 && (pdu[0] == 6 || pdu[0] == 15 || pdu[0] == 16)
    ||| pdu.len() >= 2 && pdu[0] >= 128
}

/// A PDU is decoded if and only if it is a response, whatever the count is, and a
/// failure is always one of decoding.
pub proof fn responses_and_nothing_else_are_decoded(pdu: Seq<u8>, count: Option<usize>)
    ensures
        response::decoded(pdu, count) is Ok <==> is_response(pdu),
        response::decoded(pdu, count) matches Err(e) ==> e is DeserializationError,
{
}

/// How many of `bits` are left once they are cut to `count`.
pub open spec fn cut(bits: int, count: Option<usize>) -> int {
    match count {
        Some(limit) => if limit < bits {
            limit as int
        } else {
            bits
        },
        None => bits,
    }
}

/// A decoded response says what its bytes say, field by field: its kind is that of the
/// function code, words have their high byte first, bits come lowest first, and there
/// are as many values as the byte count announces, or as the count that was given.
pub proof fn response_fields_lie_in_place(pdu: Seq<u8>, count: Option<usize>)
    ensures
        match response::decoded(pdu, count) {
            Ok(ResponseView::ReadCoils { coils }) => {
                &&& pdu[0] == 1
                &&& coils.len() == cut(8 * pdu[1], count)
                &&& forall|i: int|
                    0 <= i < coils.len() ==> #[trigger] coils[i] == bit_at(pdu, 2, i)
            },
            Ok(ResponseView::ReadDiscreteInputs { inputs }) => {
                &&& pdu[0] == 2
                &&& inputs.len() == cut(8 * pdu[1], count)
                &&& forall|i: int|
                    0 <= i < inputs.len() ==> #[trigger] inputs[i] == bit_at(pdu, 2, i)
            },
            Ok(ResponseView::ReadHoldingRegisters { registers }) => {
                &&& pdu[0] == 3
                &&& 2 * registers.len() == pdu[1]
                &&& forall|i: int|
                    0 <= i < registers.len() ==> #[trigger] registers[i] == word_at(pdu, 2 + 2 * i)
            },
            Ok(ResponseView::ReadInputRegisters { registers }) => {
                &&& pdu[0] == 4
                &&& 2 * registers.len() == pdu[1]
                &&& forall|i: int|
                    0 <= i < registers.len() ==> #[trigger] registers[i] == word_at(pdu, 2 + 2 * i)
            },
            Ok(ResponseView::WriteSingleCoil { address, value }) => {
                &&& pdu[0] == 5
                &&& address == word_at(pdu, 1)
                &&& value <==> word_at(pdu, 3) == 0xFF00
            },
            Ok(ResponseView::WriteSingleRegister { address, value }) => {
                &&& pdu[0] == 6
                &&& address == word_at(pdu, 1)
                &&& value == word_at(pdu, 3)
            },
            Ok(ResponseView::WriteMultipleCoils { starting_address, quantity }) => {
                &&& pdu[0] == 15
                &&& starting_address == word_at(pdu, 1)
                &&& quantity == word_at(pdu, 3)
            },
            Ok(ResponseView::WriteMultipleRegisters { starting_address, quantity }) => {
                &&& pdu[0] == 16
                &&& starting_address == word_at(pdu, 1)
                &&& quantity == word_at(pdu, 3)
            },
            Ok(ResponseView::Exception { function, code }) => {
                &&& pdu[0] >= 128
                &&& function == pdu[0]
                &&& code == pdu[1]
            },
            Err(_) => true,
        },
{
    if pdu.len() >= 2 && pdu.len() >= 2 + pdu[1] {
        let bytes = pdu.subrange(2, 2 + pdu[1]);
        assert forall|i: int| 0 <= i < 8 * bytes.len() implies #[trigger] response::unpacked(
            bytes,
        )[i] == bit_at(pdu, 2, i) by {
            unpacked_bits_lie_bit_by_bit(bytes, i);
            assert(bytes[i / 8] == pdu[2 + i / 8]);
        }
        assert forall|i: int|
            0 <= i < bytes.len() / 2 implies #[trigger] big_endian::be_bytes_words(bytes)[i]
            == word_at(pdu, 2 + 2 * i) by {
            assert(bytes[2 * i] == pdu[2 + 2 * i]);
            assert(bytes[2 * i + 1] == pdu[2 + 2 * i + 1]);
        }
    }
}

/// Decoding with a count gives the first values of what decoding without one gives,
/// as many as the count says, for coils and for discrete inputs alike. Nothing else
/// depends on the count.
pub proof fn count_takes_the_first_values(pdu: Seq<u8>, count: usize)
    ensures
        match response::decoded(pdu, None) {
            Ok(ResponseView::ReadCoils { coils }) => response::decoded(pdu, Some(count)) == Ok::<
                ResponseView,
                ErrorView,
            >(ResponseView::ReadCoils { coils: coils.take(cut(coils.len() as int, Some(count))) }),
            Ok(ResponseView::ReadDiscreteInputs { inputs }) => response::decoded(pdu, Some(count))
                == Ok::<ResponseView, ErrorView>(
                ResponseView::ReadDiscreteInputs {
                    inputs: inputs.take(cut(inputs.len() as int, Some(count))),
                },
            ),
            other => response::decoded(pdu, Some(count)) == other,
        },
{
    match response::decoded(pdu, None) {
        Ok(ResponseView::ReadCoils { coils }) => {
            assert(coils.take(coils.len() as int) =~= coils);
        },
        Ok(ResponseView::ReadDiscreteInputs { inputs }) => {
            assert(inputs.take(inputs.len() as int) =~= inputs);
        },
        _ => {},
    }
}

/// A device that sends packed bits is understood exactly: decoding them with their
/// count gives those bits and no surplus from the last byte, for coils and for
/// discrete inputs alike.
pub proof fn counted_bits_are_read_back(bits: Seq<bool>)
    requires
        1 <= bits.len() <= 2000,
    ensures
        ({
            let bytes = request::packed(bits);
            let count = Some(bits.len() as usize);
            &&& response::decoded(seq![1u8, bytes.len() as u8] + bytes, count) == Ok::<
                ResponseView,
                ErrorView,
            >(ResponseView::ReadCoils { coils: bits })
            &&& response::decoded(seq![2u8, bytes.len() as u8] + bytes, count) == Ok::<
                ResponseView,
                ErrorView,
            >(ResponseView::ReadDiscreteInputs { inputs: bits })
        }),
{
    let bytes = request::packed(bits);
    response::unpacking_undoes_packing(bits);
    let coils = seq![1u8, bytes.len() as u8] + bytes;
    let inputs = seq![2u8, bytes.len() as u8] + bytes;
    assert(coils.subrange(2, 2 + coils[1]) =~= bytes);
    assert(inputs.subrange(2, 2 + inputs[1]) =~= bytes);
    if bits.len() == 8 * bytes.len() {
        assert(response::unpacked(bytes) =~= bits);
    }
}

/// What is wrong with a PDU that is no response, in words: that it is empty, shorter
/// than it has to be or than its byte count says, that its registers are not whole,
/// that a coil is neither on nor off, or that its function is not known.
pub proof fn decoding_errors_say_what_is_wrong(pdu: Seq<u8>, count: Option<usize>)
    requires
        !is_response(pdu),
    ensures
        response::decoded(pdu, count) == Err::<ResponseView, ErrorView>(
            ErrorView::DeserializationError(
                if pdu.len() == 0 {
                    "Empty response"@
                } else if 1 <= pdu[0] <= 4 {
                    if pdu.len() == 1 {
                        "Invalid response: expected at least "@ + text::decimal(2) + " bytes, got "@
                            + text::decimal(1)
                    } else if pdu.len() < 2 + pdu[1] {
                        "Response length "@ + text::decimal(pdu.len())
                            + " does not match byte count "@ + text::decimal((2 + pdu[1]) as nat)
                    } else {
                        "Byte count is not even for register data"@
                    }
                } else if pdu[0] == 5 && pdu.len() >= 5 {
                    "Invalid coil value in Write Single Coil response: 0x"@ + text::hex(
                        word_at(pdu, 3) as nat,
                        4,
                    )
                } else if pdu[0] == 5 {
                    "Invalid "@ + "Write Single Coil"@ + " response: expected 5 bytes, got "@
                        + text::decimal(pdu.len())
                } else if pdu[0] == 6 {
                    "Invalid "@ + "Write Single Register"@ + " response: expected 5 bytes, got "@
                        + text::decimal(pdu.len())
                } else if pdu[0] == 15 {
                    "Invalid "@ + "Write Multiple Coils"@ + " response: expected 5 bytes, got "@
                        + text::decimal(pdu.len())
                } else if pdu[0] == 16 {
                    "Invalid "@ + "Write Multiple Registers"@
                        + " response: expected 5 bytes, got "@ + text::decimal(pdu.len())
                } else if pdu[0] >= 128 {
                    "Invalid Exception response length"@
                } else {
                    "Unsupported function code: "@ + text::decimal(pdu[0] as nat)
                },
            ),
        ),
{
}

/// Whether `response` is what `request` asks for: an exception, enough bits, exactly
/// as many registers as were asked for, the echo of what was written, or the
/// acknowledgement of as many values as were written from the same address on.
pub open spec fn belongs_to(request: ModbusRequest, response: ModbusResponse) -> bool {
    match (request, response) {
        (_, ModbusResponse::Exception { .. }) => true,
        (
            ModbusRequest::ReadCoils { quantity, .. },
            ModbusResponse::ReadCoils { coils },
        ) => coils@.len() >= quantity,
        (
            ModbusRequest::ReadDiscreteInputs { quantity, .. },
            ModbusResponse::ReadDiscreteInputs { inputs },
        ) => inputs@.len() >= quantity,
        (
            ModbusRequest::ReadHoldingRegisters { quantity, .. },
            ModbusResponse::ReadHoldingRegisters { registers },
        ) => registers@.len() == quantity,
        (
            ModbusRequest::ReadInputRegisters { quantity, .. },
            ModbusResponse::ReadInputRegisters { registers },
        ) => registers@.len() == quantity,
        (
            ModbusRequest::WriteSingleCoil { address: a, value: v },
            ModbusResponse::WriteSingleCoil { address, value },
        ) => address == a && value == v,
        (
            ModbusRequest::WriteSingleRegister { address: a, value: v },
            ModbusResponse::WriteSingleRegister { address, value },
        ) => address == a && value == v,
        (
            ModbusRequest::WriteMultipleCoils { starting_address: a, values },
            ModbusResponse::WriteMultipleCoils { starting_address, quantity },
        ) => starting_address == a && quantity == values@.len(),
        (
            ModbusRequest::WriteMultipleRegisters { starting_address: a, values },
            ModbusResponse::WriteMultipleRegisters { starting_address, quantity },
        ) => starting_address == a && quantity == values@.len(),
        _ => false,
    }
}

/// Alignment lets exactly the responses pass that belong to the request. They stay as
/// they are, but for the bits of a read, of which the first ones are left, as many as
/// were asked for. Every other response is a mismatch.
pub proof fn alignment_passes_what_belongs(request: ModbusRequest, response: ModbusResponse)
    ensures
        response::aligned(request@, response@) is Ok <==> belongs_to(request, response),
        response::aligned(request@, response@) matches Err(e) ==> e is RequestResponseMismatch,
        response::aligned(request@, response@) matches Ok(passed) ==> match (request, response) {
            (
                ModbusRequest::ReadCoils { quantity, .. },
                ModbusResponse::ReadCoils { coils },
            ) => {
                &&& passed matches ResponseView::ReadCoils { coils: left }
                &&& left.len() == quantity
                &&& forall|i: int| 0 <= i < quantity ==> #[trigger] left[i] == coils@[i]
            },
            (
                ModbusRequest::ReadDiscreteInputs { quantity, .. },
                ModbusResponse::ReadDiscreteInputs { inputs },
            ) => {
                &&& passed matches ResponseView::ReadDiscreteInputs { inputs: left }
                &&& left.len() == quantity
                &&& forall|i: int| 0 <= i < quantity ==> #[trigger] left[i] == inputs@[i]
            },
            _ => passed == response@,
        },
{
}

/// A mismatch says what does not fit: how many values were asked for and how many
/// came, or what was written and what the device made of it.
pub proof fn mismatches_say_what_does_not_fit(request: ModbusRequest, response: ModbusResponse)
    requires
        !belongs_to(request, response),
    ensures
        response::aligned(request@, response@) == Err::<ResponseView, ErrorView>(
            ErrorView::RequestResponseMismatch(
                match (request, response) {
                    (
                        ModbusRequest::ReadCoils { quantity, .. },
                        ModbusResponse::ReadCoils { coils },
                    ) => "ReadCoils"@ + ": requested "@ + text::decimal(quantity as nat) + " "@
                        + "coils"@ + " but got "@ + text::decimal(coils@.len()),
                    (
                        ModbusRequest::ReadDiscreteInputs { quantity, .. },
                        ModbusResponse::ReadDiscreteInputs { inputs },
                    ) => "ReadDiscreteInputs"@ + ": requested "@ + text::decimal(quantity as nat)
                        + " "@ + "inputs"@ + " but got "@ + text::decimal(inputs@.len()),
                    (
                        ModbusRequest::ReadHoldingRegisters { quantity, .. },
                        ModbusResponse::ReadHoldingRegisters { registers },
                    ) => "ReadHoldingRegisters"@ + ": requested "@ + text::decimal(
                        quantity as nat,
                    ) + " "@ + "registers"@ + " but got "@ + text::decimal(registers@.len()),
                    (
                        ModbusRequest::ReadInputRegisters { quantity, .. },
                        ModbusResponse::ReadInputRegisters { registers },
                    ) => "ReadInputRegisters"@ + ": requested "@ + text::decimal(quantity as nat)
                        + " "@ + "registers"@ + " but got "@ + text::decimal(registers@.len()),
                    (
                        ModbusRequest::WriteSingleCoil { address: a, value: v },
                        ModbusResponse::WriteSingleCoil { address, value },
                    ) => "WriteSingleCoil: wrote address "@ + text::decimal(a as nat) + " value "@
                        + text::boolean(v) + " but server echoed address "@ + text::decimal(
                        address as nat,
                    ) + " value "@ + text::boolean(value),
                    (
                        ModbusRequest::WriteSingleRegister { address: a, value: v },
                        ModbusResponse::WriteSingleRegister { address, value },
                    ) => "WriteSingleRegister: wrote address "@ + text::decimal(a as nat)
                        + " value "@ + text::decimal(v as nat) + " but server echoed address "@
                        + text::decimal(address as nat) + " value "@ + text::decimal(value as nat),
                    (
                        ModbusRequest::WriteMultipleCoils { starting_address: a, values },
                        ModbusResponse::WriteMultipleCoils { starting_address, quantity },
                    ) => if values@.len() > 65535 {
                        "WriteMultipleCoils"@ + ": request quantity does not fit in u16: "@
                            + text::decimal(values@.len())
                    } else {
                        "WriteMultipleCoils"@ + ": wrote address "@ + text::decimal(a as nat)
                            + " quantity "@ + text::decimal(values@.len())
                            + " but server acknowledged address "@ + text::decimal(
                            starting_address as nat,
                        ) + " quantity "@ + text::decimal(quantity as nat)
                    },
                    (
                        ModbusRequest::WriteMultipleRegisters { starting_address: a, values },
                        ModbusResponse::WriteMultipleRegisters { starting_address, quantity },
                    ) => if values@.len() > 65535 {
                        "WriteMultipleRegisters"@ + ": request quantity does not fit in u16: "@
                            + text::decimal(values@.len())
                    } else {
                        "WriteMultipleRegisters"@ + ": wrote address "@ + text::decimal(a as nat)
                            + " quantity "@ + text::decimal(values@.len())
                            + " but server acknowledged address "@ + text::decimal(
                            starting_address as nat,
                        ) + " quantity "@ + text::decimal(quantity as nat)
                    },
                    _ => "Request/response mismatch: got "@ + response@.debug_text() + " for "@
                        + request@.debug_text(),
                },
            ),
        ),
{
}

/// A request as text begins with its name and names each of its fields with its value.
pub proof fn request_text_names_every_field(request: ModbusRequest)
    ensures
        request@.debug_text() =~= match request {
            ModbusRequest::ReadCoils { starting_address, quantity } => {
                "ReadCoils"@ + " { starting_address: "@ + text::decimal(starting_address as nat)
                    + ", quantity: "@ + text::decimal(quantity as nat) + " }"@
            },
            ModbusRequest::ReadDiscreteInputs { starting_address, quantity } => {
                "ReadDiscreteInputs"@ + " { starting_address: "@ + text::decimal(
                    starting_address as nat,
                ) + ", quantity: "@ + text::decimal(quantity as nat) + " }"@
            },
            ModbusRequest::ReadHoldingRegisters { starting_address, quantity } => {
                "ReadHoldingRegisters"@ + " { starting_address: "@ + text::decimal(
                    starting_address as nat,
                ) + ", quantity: "@ + text::decimal(quantity as nat) + " }"@
            },
            ModbusRequest::ReadInputRegisters { starting_address, quantity } => {
                "ReadInputRegisters"@ + " { starting_address: "@ + text::decimal(
                    starting_address as nat,
                ) + ", quantity: "@ + text::decimal(quantity as nat) + " }"@
            },
            ModbusRequest::WriteSingleCoil { address, value } => {
                "WriteSingleCoil"@ + " { address: "@ + text::decimal(address as nat) + ", value: "@
                    + text::boolean(value) + " }"@
            },
            ModbusRequest::WriteSingleRegister { address, value } => {
                "WriteSingleRegister"@ + " { address: "@ + text::decimal(address as nat)
                    + ", value: "@ + text::decimal(value as nat) + " }"@
            },
            ModbusRequest::WriteMultipleCoils { starting_address, values } => {
                "WriteMultipleCoils"@ + " { starting_address: "@ + text::decimal(
                    starting_address as nat,
                ) + ", values: "@ + text::boolean_list(values@) + " }"@
            },
            ModbusRequest::WriteMultipleRegisters { starting_address, values } => {
                "WriteMultipleRegisters"@ + " { starting_address: "@ + text::decimal(
                    starting_address as nat,
                ) + ", values: "@ + text::number_list(values@) + " }"@
            },
        },
{
}

/// A response as text begins with its name and names each of its fields with its
/// value.
pub proof fn response_text_names_every_field(response: ModbusResponse)
    ensures
        response@.debug_text() =~= match response {
            ModbusResponse::ReadCoils { coils } => "ReadCoils { coils: "@ + text::boolean_list(
                coils@,
            ) + " }"@,
            ModbusResponse::ReadDiscreteInputs { inputs } => "ReadDiscreteInputs { inputs: "@
                + text::boolean_list(inputs@) + " }"@,
            ModbusResponse::ReadHoldingRegisters { registers } => {
                "ReadHoldingRegisters { registers: "@ + text::number_list(registers@) + " }"@
            },
            ModbusResponse::ReadInputRegisters { registers } => {
                "ReadInputRegisters { registers: "@ + text::number_list(registers@) + " }"@
            },
            ModbusResponse::WriteSingleCoil { address, value } => {
                "WriteSingleCoil"@ + " { address: "@ + text::decimal(address as nat) + ", value: "@
                    + text::boolean(value) + " }"@
            },
            ModbusResponse::WriteSingleRegister { address, value } => {
                "WriteSingleRegister"@ + " { address: "@ + text::decimal(address as nat)
                    + ", value: "@ + text::decimal(value as nat) + " }"@
            },
            ModbusResponse::WriteMultipleCoils { starting_address, quantity } => {
                "WriteMultipleCoils"@ + " { starting_address: "@ + text::decimal(
                    starting_address as nat,
                ) + ", quantity: "@ + text::decimal(quantity as nat) + " }"@
            },
            ModbusResponse::WriteMultipleRegisters { starting_address, quantity } => {
                "WriteMultipleRegisters"@ + " { starting_address: "@ + text::decimal(
                    starting_address as nat,
                ) + ", quantity: "@ + text::decimal(quantity as nat) + " }"@
            },
            ModbusResponse::Exception { function, code } => "Exception { function: "@
                + text::decimal(function as nat) + ", code: "@ + text::decimal(code as nat)
                + " }"@,
        },
{
}

/// The model of a request shows its kind and every field, and the function code and
/// the quantity are those of the request.
pub proof fn request_model_is_complete(request: ModbusRequest)
    ensures
        match request {
            ModbusRequest::ReadCoils { starting_address, quantity } => {
                &&& request@ == (RequestView::ReadCoils { starting_address, quantity })
                &&& request@.function_code() == 1
                &&& request@.quantity() == quantity
            },
            ModbusRequest::ReadDiscreteInputs { starting_address, quantity } => {
                &&& request@ == (RequestView::ReadDiscreteInputs { starting_address, quantity })
                &&& request@.function_code() == 2
                &&& request@.quantity() == quantity
            },
            ModbusRequest::ReadHoldingRegisters { starting_address, quantity } => {
                &&& request@ == (RequestView::ReadHoldingRegisters { starting_address, quantity })
                &&& request@.function_code() == 3
                &&& request@.quantity() == quantity
            },
            ModbusRequest::ReadInputRegisters { starting_address, quantity } => {
                &&& request@ == (RequestView::ReadInputRegisters { starting_address, quantity })
                &&& request@.function_code() == 4
                &&& request@.quantity() == quantity
            },
            ModbusRequest::WriteSingleCoil { address, value } => {
                &&& request@ == (RequestView::WriteSingleCoil { address, value })
                &&& request@.function_code() == 5
                &&& request@.quantity() == 1
            },
            ModbusRequest::WriteSingleRegister { address, value } => {
                &&& request@ == (RequestView::WriteSingleRegister { address, value })
                &&& request@.function_code() == 6
                &&& request@.quantity() == 1
            },
            ModbusRequest::WriteMultipleCoils { starting_address, values } => {
                &&& request@ == (RequestView::WriteMultipleCoils {
                    starting_address,
                    values: values@,
                })
                &&& request@.function_code() == 15
                &&& request@.quantity() == values@.len()
            },
            ModbusRequest::WriteMultipleRegisters { starting_address, values } => {
                &&& request@ == (RequestView::WriteMultipleRegisters {
                    starting_address,
                    values: values@,
                })
                &&& request@.function_code() == 16
                &&& request@.quantity() == values@.len()
            },
        },
{
}

/// The model of a response shows its kind and every field.
pub proof fn response_model_is_complete(response: ModbusResponse)
    ensures
        match response {
            ModbusResponse::ReadCoils { coils } => response@ == (ResponseView::ReadCoils {
                coils: coils@,
            }),
            ModbusResponse::ReadDiscreteInputs { inputs } => response@
                == (ResponseView::ReadDiscreteInputs { inputs: inputs@ }),
            ModbusResponse::ReadHoldingRegisters { registers } => response@
                == (ResponseView::ReadHoldingRegisters { registers: registers@ }),
            ModbusResponse::ReadInputRegisters { registers } => response@
                == (ResponseView::ReadInputRegisters { registers: registers@ }),
            ModbusResponse::WriteSingleCoil { address, value } => response@
                == (ResponseView::WriteSingleCoil { address, value }),
            ModbusResponse::WriteSingleRegister { address, value } => response@
                == (ResponseView::WriteSingleRegister { address, value }),
            ModbusResponse::WriteMultipleCoils { starting_address, quantity } => response@
                == (ResponseView::WriteMultipleCoils { starting_address, quantity }),
            ModbusResponse::WriteMultipleRegisters { starting_address, quantity } => response@
                == (ResponseView::WriteMultipleRegisters { starting_address, quantity }),
            ModbusResponse::Exception { function, code } => response@ == (ResponseView::Exception {
                function,
                code,
            }),
        },
        response::outcome(Ok(response)) == Ok::<ResponseView, ErrorView>(response@),
{
}

/// The model of a failure is that failure.
pub proof fn failed_outcome_is_the_failure(error: crate::error::ModbusError)
    ensures
        response::outcome(Err(error)) == Err::<ResponseView, ErrorView>(error@),
{
}

/// The bits and the registers of a read lie in the bytes that the byte count announces,
/// from the third byte on. A PDU that is shorter than it has to be, or than its byte
/// count says, carries nothing.
pub proof fn values_lie_in_the_announced_bytes(
    pdu: Seq<u8>,
    min_len: nat,
    count: Option<usize>,
    i: int,
)
    requires
        pdu.len() < min_len || pdu.len() >= 2,
    ensures
        response::bits_of(pdu, min_len, count) is Ok <==> pdu.len() >= min_len && pdu.len() >= 2
            + pdu[1],
        response::bits_of(pdu, min_len, count) matches Ok(bits) ==> {
            &&& bits.len() == cut(8 * pdu[1], count)
            &&& 0 <= i < bits.len() ==> bits[i] == bit_at(pdu, 2, i)
        },
        response::registers_of(pdu, min_len) is Ok <==> pdu.len() >= min_len && pdu.len() >= 2
            + pdu[1] && pdu[1] % 2 == 0,
        response::registers_of(pdu, min_len) matches Ok(registers) ==> {
            &&& 2 * registers.len() == pdu[1]
            &&& 0 <= i < registers.len() ==> registers[i] == word_at(pdu, 2 + 2 * i)
        },
        pdu.len() < min_len ==> {
            let error = ErrorView::DeserializationError(
                "Invalid response: expected at least "@ + text::decimal(min_len) + " bytes, got "@
                    + text::decimal(pdu.len()),
            );
            &&& response::bits_of(pdu, min_len, count) == Err::<Seq<bool>, ErrorView>(error)
            &&& response::registers_of(pdu, min_len) == Err::<Seq<u16>, ErrorView>(error)
        },
        min_len <= pdu.len() < 2 + pdu[1] ==> {
            let error = ErrorView::DeserializationError(
                "Response length "@ + text::decimal(pdu.len()) + " does not match byte count "@
                    + text::decimal((2 + pdu[1]) as nat),
            );
            &&& response::bits_of(pdu, min_len, count) == Err::<Seq<bool>, ErrorView>(error)
            &&& response::registers_of(pdu, min_len) == Err::<Seq<u16>, ErrorView>(error)
        },
{
    if pdu.len() >= min_len && pdu.len() >= 2 + pdu[1] {
        let bytes = pdu.subrange(2, 2 + pdu[1]);
        if 0 <= i < 8 * bytes.len() {
            unpacked_bits_lie_bit_by_bit(bytes, i);
            assert(bytes[i / 8] == pdu[2 + i / 8]);
        }
        if 0 <= i < bytes.len() / 2 {
            assert(bytes[2 * i] == pdu[2 + 2 * i]);
            assert(bytes[2 * i + 1] == pdu[2 + 2 * i + 1]);
        }
    }
}

/// The message about a quantity names what it is of, the largest one allowed and the
/// one that came.
pub proof fn quantity_message_names_its_numbers(name: Seq<char>, max: u16, got: nat)
    ensures
        request::quantity_message(name, max, got) == name + " quantity must be 1-"@
            + text::decimal(max as nat) + ", got "@ + text::decimal(got),
{
}

} // verus!
