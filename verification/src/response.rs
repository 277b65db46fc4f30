//! Typed Modbus response PDUs and deserialization.

use std::convert::TryFrom;

use vstd::prelude::*;
use vstd::slice::{slice_subrange, slice_to_vec};

use crate::big_endian::{self, word_of_be};
use crate::error::{ErrorView, ModbusError};
use crate::request::{
    self, push_range_fields, push_single_coil_fields, push_single_register_fields, ModbusRequest,
    RequestView,
};
use crate::text::{
    self, push_boolean, push_boolean_list, push_decimal, push_hex, push_number_list,
};

verus! {

/// Typed Modbus response PDUs.
#[derive(Debug, PartialEq)]
#[allow(inconsistent_fields)]
pub enum ModbusResponse {
    /// Coil output values returned by a read-coils request.
    ReadCoils {
        /// Coil values in wire order.
        coils: Vec<bool>,
    },
    /// Discrete input values returned by a read-discrete-inputs request.
    ReadDiscreteInputs {
        /// Input values in wire order.
        inputs: Vec<bool>,
    },
    /// Holding register values returned by a read-holding-registers request.
    ReadHoldingRegisters {
        /// Register values in wire order.
        registers: Vec<u16>,
    },
    /// Input register values returned by a read-input-registers request.
    ReadInputRegisters {
        /// Register values in wire order.
        registers: Vec<u16>,
    },
    /// Echo response for writing one coil.
    WriteSingleCoil {
        /// Coil address echoed by the device.
        address: u16,
        /// Coil value echoed by the device.
        value: bool,
    },
    /// Echo response for writing one register.
    WriteSingleRegister {
        /// Register address echoed by the device.
        address: u16,
        /// Register value echoed by the device.
        value: u16,
    },
    /// Acknowledgement for writing multiple coils.
    WriteMultipleCoils {
        /// Starting address acknowledged by the device.
        starting_address: u16,
        /// Quantity acknowledged by the device.
        quantity: u16,
    },
    /// Acknowledgement for writing multiple registers.
    WriteMultipleRegisters {
        /// Starting address acknowledged by the device.
        starting_address: u16,
        /// Quantity acknowledged by the device.
        quantity: u16,
    },
    /// Modbus exception response PDU.
    Exception {
        /// Exception function code, including the high exception bit.
        function: u8,
        /// Modbus exception code.
        code: u8,
    },
}

/// Model of a [`ModbusResponse`].
#[allow(inconsistent_fields)]
pub ghost enum ResponseView {
    ReadCoils { coils: Seq<bool> },
    ReadDiscreteInputs { inputs: Seq<bool> },
    ReadHoldingRegisters { registers: Seq<u16> },
    ReadInputRegisters { registers: Seq<u16> },
    WriteSingleCoil { address: u16, value: bool },
    WriteSingleRegister { address: u16, value: u16 },
    WriteMultipleCoils { starting_address: u16, quantity: u16 },
    WriteMultipleRegisters { starting_address: u16, quantity: u16 },
    Exception { function: u8, code: u8 },
}

impl View for ModbusResponse {
    type V = ResponseView;

    open spec fn view(&self) -> ResponseView {
        match self {
            ModbusResponse::ReadCoils { coils } => ResponseView::ReadCoils { coils: coils@ },
            ModbusResponse::ReadDiscreteInputs { inputs } => ResponseView::ReadDiscreteInputs {
                inputs: inputs@,
            },
            ModbusResponse::ReadHoldingRegisters { registers } => {
                ResponseView::ReadHoldingRegisters { registers: registers@ }
            },
            ModbusResponse::ReadInputRegisters { registers } => ResponseView::ReadInputRegisters {
                registers: registers@,
            },
            ModbusResponse::WriteSingleCoil { address, value } => ResponseView::WriteSingleCoil {
                address: *address,
                value: *value,
            },
            ModbusResponse::WriteSingleRegister { address, value } => {
                ResponseView::WriteSingleRegister { address: *address, value: *value }
            },
            ModbusResponse::WriteMultipleCoils { starting_address, quantity } => {
                ResponseView::WriteMultipleCoils {
                    starting_address: *starting_address,
                    quantity: *quantity,
                }
            },
            ModbusResponse::WriteMultipleRegisters { starting_address, quantity } => {
                ResponseView::WriteMultipleRegisters {
                    starting_address: *starting_address,
                    quantity: *quantity,
                }
            },
            ModbusResponse::Exception { function, code } => ResponseView::Exception {
                function: *function,
                code: *code,
            },
        }
    }
}

impl Clone for ModbusResponse {
    fn clone(&self) -> (copy: ModbusResponse)
        ensures
            copy@ == self@,
    {
        match self {
            ModbusResponse::ReadCoils { coils } => ModbusResponse::ReadCoils {
                coils: coils.clone(),
            },
            ModbusResponse::ReadDiscreteInputs { inputs } => ModbusResponse::ReadDiscreteInputs {
                inputs: inputs.clone(),
            },
            ModbusResponse::ReadHoldingRegisters { registers } => {
                ModbusResponse::ReadHoldingRegisters { registers: registers.clone() }
            },
            ModbusResponse::ReadInputRegisters { registers } => {
                ModbusResponse::ReadInputRegisters { registers: registers.clone() }
            },
            ModbusResponse::WriteSingleCoil { address, value } => ModbusResponse::WriteSingleCoil {
                address: *address,
                value: *value,
            },
            ModbusResponse::WriteSingleRegister { address, value } => {
                ModbusResponse::WriteSingleRegister { address: *address, value: *value }
            },
            ModbusResponse::WriteMultipleCoils { starting_address, quantity } => {
                ModbusResponse::WriteMultipleCoils {
                    starting_address: *starting_address,
                    quantity: *quantity,
                }
            },
            ModbusResponse::WriteMultipleRegisters { starting_address, quantity } => {
                ModbusResponse::WriteMultipleRegisters {
                    starting_address: *starting_address,
                    quantity: *quantity,
                }
            },
            ModbusResponse::Exception { function, code } => ModbusResponse::Exception {
                function: *function,
                code: *code,
            },
        }
    }
}

/// Model of what a function that gives a response returned.
pub open spec fn outcome(result: Result<ModbusResponse, ModbusError>) -> Result<
    ResponseView,
    ErrorView,
> {
    match result {
        Ok(response) => Ok(response@),
        Err(error) => Err(error@),
    }
}

/// Whether the bit of `byte` with the weight two to the power of `index` is set.
pub open spec fn bit(byte: u8, index: u8) -> bool {
    (byte >> index) & 1 == 1
}

/// The bits of `bytes`, eight to a byte, the lowest bit of each byte first.
pub open spec fn unpacked(bytes: Seq<u8>) -> Seq<bool> {
    Seq::new(8 * bytes.len(), |i: int| bit(bytes[i / 8], (i % 8) as u8))
}

/// The error for a PDU that cannot be decoded.
pub open spec fn undecodable<T>(message: Seq<char>) -> Result<T, ErrorView> {
    Err(ErrorView::DeserializationError(message))
}

/// The bytes that the byte count of `response` announces, if they are all there.
pub open spec fn counted_bytes(response: Seq<u8>, min_len: nat) -> Result<Seq<u8>, ErrorView> {
    if response.len() < min_len {
        undecodable(
            "Invalid response: expected at least "@ + text::decimal(min_len) + " bytes, got "@
                + text::decimal(response.len()),
        )
    } else if response.len() < 2 + response[1] {
        undecodable(
            "Response length "@ + text::decimal(response.len()) + " does not match byte count "@
                + text::decimal(2 + response[1] as nat),
        )
    } else {
        Ok(response.subrange(2, 2 + response[1]))
    }
}

/// The bits that `response` carries, cut to `exact_count` of them if there are more.
pub open spec fn bits_of(
    response: Seq<u8>,
    min_len: nat,
    exact_count: Option<usize>,
) -> Result<Seq<bool>, ErrorView> {
    match counted_bytes(response, min_len) {
        Ok(bytes) => Ok(
            match exact_count {
                Some(count) if count < 8 * bytes.len() => unpacked(bytes).take(count as int),
                _ => unpacked(bytes),
            },
        ),
        Err(e) => Err(e),
    }
}

/// The registers that `response` carries.
pub open spec fn registers_of(response: Seq<u8>, min_len: nat) -> Result<Seq<u16>, ErrorView> {
    match counted_bytes(response, min_len) {
        Ok(bytes) => if bytes.len() % 2 == 0 {
            Ok(big_endian::be_bytes_words(bytes))
        } else {
            undecodable("Byte count is not even for register data"@)
        },
        Err(e) => Err(e),
    }
}

/// The two words after the function code of `response`, which is called `name`.
pub open spec fn two_words_of(response: Seq<u8>, name: Seq<char>) -> Result<
    (u16, u16),
    ErrorView,
> {
    if response.len() < 5 {
        undecodable(
            "Invalid "@ + name + " response: expected 5 bytes, got "@ + text::decimal(
                response.len(),
            ),
        )
    } else {
        Ok(
            (
                big_endian::be_word(response[1], response[2]),
                big_endian::be_word(response[3], response[4]),
            ),
        )
    }
}

/// What the PDU `response` says; bits are cut to `bit_count` of them.
pub open spec fn decoded(response: Seq<u8>, bit_count: Option<usize>) -> Result<
    ResponseView,
    ErrorView,
> {
    if response.len() == 0 {
        undecodable("Empty response"@)
    } else if response[0] == 1 {
        match bits_of(response, 2, bit_count) {
            Ok(coils) => Ok(ResponseView::ReadCoils { coils }),
            Err(e) => Err(e),
        }
    } else if response[0] == 2 {
        match bits_of(response, 2, bit_count) {
            Ok(inputs) => Ok(ResponseView::ReadDiscreteInputs { inputs }),
            Err(e) => Err(e),
        }
    } else if response[0] == 3 {
        match registers_of(response, 2) {
            Ok(registers) => Ok(ResponseView::ReadHoldingRegisters { registers }),
            Err(e) => Err(e),
        }
    } else if response[0] == 4 {
        match registers_of(response, 2) {
            Ok(registers) => Ok(ResponseView::ReadInputRegisters { registers }),
            Err(e) => Err(e),
        }
    } else if response[0] == 5 {
        match two_words_of(response, "Write Single Coil"@) {
            Ok((address, word)) => if word == 0xFF00 {
                Ok(ResponseView::WriteSingleCoil { address, value: true })
            } else if word == 0x0000 {
                Ok(ResponseView::WriteSingleCoil { address, value: false })
            } else {
                undecodable(
                    "Invalid coil value in Write Single Coil response: 0x"@ + text::hex(
                        word as nat,
                        4,
                    ),
                )
            },
            Err(e) => Err(e),
        }
    } else if response[0] == 6 {
        match two_words_of(response, "Write Single Register"@) {
            Ok((address, value)) => Ok(ResponseView::WriteSingleRegister { address, value }),
            Err(e) => Err(e),
        }
    } else if response[0] == 15 {
        match two_words_of(response, "Write Multiple Coils"@) {
            Ok((starting_address, quantity)) => Ok(
                ResponseView::WriteMultipleCoils { starting_address, quantity },
            ),
            Err(e) => Err(e),
        }
    } else if response[0] == 16 {
        match two_words_of(response, "Write Multiple Registers"@) {
            Ok((starting_address, quantity)) => Ok(
                ResponseView::WriteMultipleRegisters { starting_address, quantity },
            ),
            Err(e) => Err(e),
        }
    } else if response[0] >= 0x80 {
        if response.len() < 2 {
            undecodable("Invalid Exception response length"@)
        } else {
            Ok(ResponseView::Exception { function: response[0], code: response[1] })
        }
    } else {
        undecodable("Unsupported function code: "@ + text::decimal(response[0] as nat))
    }
}

/// The error for a response that does not belong to the request.
pub open spec fn mismatch(message: Seq<char>) -> Result<ResponseView, ErrorView> {
    Err(ErrorView::RequestResponseMismatch(message))
}

/// The message about a read that gave too few or too many values.
pub open spec fn read_count_message(
    name: Seq<char>,
    unit: Seq<char>,
    requested: u16,
    got: nat,
) -> Seq<char> {
    name + ": requested "@ + text::decimal(requested as nat) + " "@ + unit + " but got "@
        + text::decimal(got)
}

/// What `response` says to `request`: the response itself, with surplus bits cut
/// off, or a mismatch.
pub open spec fn aligned(request: RequestView, response: ResponseView) -> Result<
    ResponseView,
    ErrorView,
> {
    match (request, response) {
        (_, ResponseView::Exception { .. }) => Ok(response),
        (
            RequestView::ReadCoils { quantity, .. },
            ResponseView::ReadCoils { coils },
        ) => if coils.len() < quantity {
            mismatch(read_count_message("ReadCoils"@, "coils"@, quantity, coils.len()))
        } else {
            Ok(ResponseView::ReadCoils { coils: coils.take(quantity as int) })
        },
        (
            RequestView::ReadDiscreteInputs { quantity, .. },
            ResponseView::ReadDiscreteInputs { inputs },
        ) => if inputs.len() < quantity {
            mismatch(read_count_message("ReadDiscreteInputs"@, "inputs"@, quantity, inputs.len()))
        } else {
            Ok(ResponseView::ReadDiscreteInputs { inputs: inputs.take(quantity as int) })
        },
        (
            RequestView::ReadHoldingRegisters { quantity, .. },
            ResponseView::ReadHoldingRegisters { registers },
        ) => if registers.len() != quantity {
            mismatch(
                read_count_message(
                    "ReadHoldingRegisters"@,
                    "registers"@,
                    quantity,
                    registers.len(),
                ),
            )
        } else {
            Ok(response)
        },
        (
            RequestView::ReadInputRegisters { quantity, .. },
            ResponseView::ReadInputRegisters { registers },
        ) => if registers.len() != quantity {
            mismatch(
                read_count_message("ReadInputRegisters"@, "registers"@, quantity, registers.len()),
            )
        } else {
            Ok(response)
        },
        (
            RequestView::WriteSingleCoil { address, value },
            ResponseView::WriteSingleCoil { address: echoed_address, value: echoed_value },
        ) => if address != echoed_address || value != echoed_value {
            mismatch(
                "WriteSingleCoil: wrote address "@ + text::decimal(address as nat) + " value "@
                    + text::boolean(value) + " but server echoed address "@ + text::decimal(
                    echoed_address as nat,
                ) + " value "@ + text::boolean(echoed_value),
            )
        } else {
            Ok(response)
        },
        (
            RequestView::WriteSingleRegister { address, value },
            ResponseView::WriteSingleRegister { address: echoed_address, value: echoed_value },
        ) => if address != echoed_address || value != echoed_value {
            mismatch(
                "WriteSingleRegister: wrote address "@ + text::decimal(address as nat) + " value "@
                    + text::decimal(value as nat) + " but server echoed address "@
                    + text::decimal(echoed_address as nat) + " value "@ + text::decimal(
                    echoed_value as nat,
                ),
            )
        } else {
            Ok(response)
        },
        (
            RequestView::WriteMultipleCoils { starting_address, values },
            ResponseView::WriteMultipleCoils { starting_address: echoed_address, quantity },
        ) => acknowledged(
            "WriteMultipleCoils"@,
            starting_address,
            values.len(),
            echoed_address,
            quantity,
            response,
        ),
        (
            RequestView::WriteMultipleRegisters { starting_address, values },
            ResponseView::WriteMultipleRegisters { starting_address: echoed_address, quantity },
        ) => acknowledged(
            "WriteMultipleRegisters"@,
            starting_address,
            values.len(),
            echoed_address,
            quantity,
            response,
        ),
        _ => mismatch(
            "Request/response mismatch: got "@ + response.debug_text() + " for "@
                + request.debug_text(),
        ),
    }
}

/// What the acknowledgement `response` says to a write of `count` values.
pub open spec fn acknowledged(
    name: Seq<char>,
    starting_address: u16,
    count: nat,
    echoed_address: u16,
    quantity: u16,
    response: ResponseView,
) -> Result<ResponseView, ErrorView> {
    if count > 0xFFFF {
        mismatch(name + ": request quantity does not fit in u16: "@ + text::decimal(count))
    } else if starting_address != echoed_address || count != quantity {
        mismatch(
            name + ": wrote address "@ + text::decimal(starting_address as nat) + " quantity "@
                + text::decimal(count) + " but server acknowledged address "@ + text::decimal(
                echoed_address as nat,
            ) + " quantity "@ + text::decimal(quantity as nat),
        )
    } else {
        Ok(response)
    }
}

impl ResponseView {
    /// The response as text, field by field.
    pub open spec fn debug_text(self) -> Seq<char> {
        match self {
            ResponseView::ReadCoils { coils } => "ReadCoils { coils: "@ + text::boolean_list(coils)
                + " }"@,
            ResponseView::ReadDiscreteInputs { inputs } => "ReadDiscreteInputs { inputs: "@
                + text::boolean_list(inputs) + " }"@,
            ResponseView::ReadHoldingRegisters { registers } => {
                "ReadHoldingRegisters { registers: "@ + text::number_list(registers) + " }"@
            },
            ResponseView::ReadInputRegisters { registers } => {
                "ReadInputRegisters { registers: "@ + text::number_list(registers) + " }"@
            },
            ResponseView::WriteSingleCoil { address, value } => "WriteSingleCoil"@
                + request::single_coil_fields(address, value),
            ResponseView::WriteSingleRegister { address, value } => "WriteSingleRegister"@
                + request::single_register_fields(address, value),
            ResponseView::WriteMultipleCoils { starting_address, quantity } => {
                "WriteMultipleCoils"@ + request::range_fields(starting_address, quantity)
            },
            ResponseView::WriteMultipleRegisters { starting_address, quantity } => {
                "WriteMultipleRegisters"@ + request::range_fields(starting_address, quantity)
            },
            ResponseView::Exception { function, code } => "Exception { function: "@
                + text::decimal(function as nat) + ", code: "@ + text::decimal(code as nat)
                + " }"@,
        }
    }
}

/// Checks that the bytes announced by the byte count of `response` are there,
/// and gives the byte count.
fn check_byte_count(response: &[u8], min_len: usize) -> (result: Result<usize, ModbusError>)
    requires
        response@.len() < min_len || response@.len() >= 2,
    ensures
        match counted_bytes(response@, min_len as nat) {
            Ok(bytes) => result matches Ok(byte_count) && byte_count == response@[1] && bytes.len()
                == byte_count && response@.len() >= 2 + byte_count,
            Err(error) => result matches Err(e) && e@ == error,
        },
{
    if response.len() < min_len {
        let mut message = "Invalid response: expected at least ".to_owned();
        push_decimal(&mut message, min_len as u64);
        message.append(" bytes, got ");
        push_decimal(&mut message, response.len() as u64);
        return Err(ModbusError::DeserializationError(message));
    }
    let byte_count: usize = response[1] as usize;
    if response.len() < 2 + byte_count {
        let mut message = "Response length ".to_owned();
        push_decimal(&mut message, response.len() as u64);
        message.append(" does not match byte count ");
        push_decimal(&mut message, (2 + byte_count) as u64);
        return Err(ModbusError::DeserializationError(message));
    }
    Ok(byte_count)
}

/// The byte count of a bit-packed `response` and the bits that it carries, cut to
/// `exact_count` of them if there are more.
///
/// # Errors
///
/// Returns [`ModbusError::DeserializationError`] when the response is shorter than
/// `min_len` or than its byte count says.
pub fn unpack_bits(response: &[u8], min_len: usize, exact_count: Option<usize>) -> (result: Result<
    (usize, Vec<bool>),
    ModbusError,
>)
    requires
        response@.len() < min_len || response@.len() >= 2,
    ensures
        match bits_of(response@, min_len as nat, exact_count) {
            Ok(bits) => result matches Ok((byte_count, values)) && byte_count == response@[1]
                && values@ == bits,
            Err(error) => result matches Err(e) && e@ == error,
        },
{
    let byte_count: usize = match check_byte_count(response, min_len) {
        Ok(byte_count) => byte_count,
        Err(e) => return Err(e),
    };
    let bytes = slice_subrange(response, 2, 2 + byte_count);
    let mut values: Vec<bool> = Vec::with_capacity(byte_count * 8);
    let mut i: usize = 0;
    while i < bytes.len()
        invariant
            i <= bytes@.len(),
            values@ == unpacked(bytes@.take(i as int)),
        decreases bytes@.len() - i,
    {
        let byte = bytes[i];
        let mut index: u8 = 0;
        while index < 8
            invariant
                index <= 8,
                i < bytes@.len(),
                byte == bytes@[i as int],
                values@ == unpacked(bytes@.take(i + 1)).take(8 * i + index),
            decreases 8 - index,
        {
            values.push((byte >> index) & 1 == 1);
            assert(values@ =~= unpacked(bytes@.take(i + 1)).take(8 * i + index + 1));
            index = index + 1;
        }
        assert(values@ =~= unpacked(bytes@.take(i + 1)));
        i = i + 1;
    }
    assert(bytes@.take(i as int) =~= bytes@);
    if let Some(count) = exact_count {
        values.truncate(count);
    }
    Ok((byte_count, values))
}

/// The registers that `response` carries.
///
/// # Errors
///
/// Returns [`ModbusError::DeserializationError`] when the response is shorter than
/// `min_len` or than its byte count says, or when the byte count is odd.
pub fn parse_registers(response: &[u8], min_len: usize) -> (result: Result<Vec<u16>, ModbusError>)
    requires
        response@.len() < min_len || response@.len() >= 2,
    ensures
        match registers_of(response@, min_len as nat) {
            Ok(words) => result matches Ok(registers) && registers@ == words,
            Err(error) => result matches Err(e) && e@ == error,
        },
{
    let byte_count: usize = match check_byte_count(response, min_len) {
        Ok(byte_count) => byte_count,
        Err(e) => return Err(e),
    };
    if byte_count % 2 != 0 {
        return Err(
            ModbusError::DeserializationError(
                "Byte count is not even for register data".to_owned(),
            ),
        );
    }
    let reg_count: usize = byte_count / 2;
    let mut registers: Vec<u16> = Vec::with_capacity(reg_count);
    let ghost words = big_endian::be_bytes_words(response@.subrange(2, 2 + byte_count));
    let mut i: usize = 0;
    while i < reg_count
        invariant
            i <= reg_count,
            2 * reg_count == byte_count,
            2 + byte_count <= response@.len(),
            words == big_endian::be_bytes_words(response@.subrange(2, 2 + byte_count)),
            words.len() == reg_count,
            registers@ == words.take(i as int),
        decreases reg_count - i,
    {
        let offset: usize = 2 + i * 2;
        registers.push(word_of_be(response[offset], response[offset + 1]));
        assert(registers@ =~= words.take(i + 1));
        i = i + 1;
    }
    assert(words.take(i as int) =~= words);
    Ok(registers)
}

/// The two words after the function code of `response`, which is called `name`.
fn parse_two_words(response: &[u8], name: &str) -> (result: Result<(u16, u16), ModbusError>)
    ensures
        match two_words_of(response@, name@) {
            Ok(words) => result matches Ok(pair) && pair == words,
            Err(error) => result matches Err(e) && e@ == error,
        },
{
    if response.len() < 5 {
        let mut message = "Invalid ".to_owned();
        message.append(name);
        message.append(" response: expected 5 bytes, got ");
        push_decimal(&mut message, response.len() as u64);
        return Err(ModbusError::DeserializationError(message));
    }
    Ok((word_of_be(response[1], response[2]), word_of_be(response[3], response[4])))
}

/// Decodes a response PDU; bits are cut to `bit_count` of them.
///
/// # Errors
///
/// Returns [`ModbusError::DeserializationError`] when the bytes are not a supported response.
pub fn deserialize_modbus_response(response: &[u8], bit_count: Option<usize>) -> (result: Result<
    ModbusResponse,
    ModbusError,
>)
    ensures
        outcome(result) == decoded(response@, bit_count),
{
    if response.is_empty() {
        return Err(ModbusError::DeserializationError("Empty response".to_owned()));
    }
    let function_code = response[0];
    match function_code {
        1 => match unpack_bits(response, 2, bit_count) {
            Ok((_, coils)) => Ok(ModbusResponse::ReadCoils { coils }),
            Err(e) => Err(e),
        },
        2 => match unpack_bits(response, 2, bit_count) {
            Ok((_, inputs)) => Ok(ModbusResponse::ReadDiscreteInputs { inputs }),
            Err(e) => Err(e),
        },
        3 => match parse_registers(response, 2) {
            Ok(registers) => Ok(ModbusResponse::ReadHoldingRegisters { registers }),
            Err(e) => Err(e),
        },
        4 => match parse_registers(response, 2) {
            Ok(registers) => Ok(ModbusResponse::ReadInputRegisters { registers }),
            Err(e) => Err(e),
        },
        5 => match parse_two_words(response, "Write Single Coil") {
            Ok((address, 0xFF00)) => Ok(ModbusResponse::WriteSingleCoil { address, value: true }),
            Ok((address, 0x0000)) => Ok(ModbusResponse::WriteSingleCoil { address, value: false }),
            Ok((_, word)) => {
                let mut message = "Invalid coil value in Write Single Coil response: 0x".to_owned();
                push_hex(&mut message, word as u64, 4);
                Err(ModbusError::DeserializationError(message))
            },
            Err(e) => Err(e),
        },
        6 => match parse_two_words(response, "Write Single Register") {
            Ok((address, value)) => Ok(ModbusResponse::WriteSingleRegister { address, value }),
            Err(e) => Err(e),
        },
        15 => match parse_two_words(response, "Write Multiple Coils") {
            Ok((starting_address, quantity)) => Ok(
                ModbusResponse::WriteMultipleCoils { starting_address, quantity },
            ),
            Err(e) => Err(e),
        },
        16 => match parse_two_words(response, "Write Multiple Registers") {
            Ok((starting_address, quantity)) => Ok(
                ModbusResponse::WriteMultipleRegisters { starting_address, quantity },
            ),
            Err(e) => Err(e),
        },
        _ => if function_code >= 0x80 {
            if response.len() < 2 {
                return Err(
                    ModbusError::DeserializationError(
                        "Invalid Exception response length".to_owned(),
                    ),
                );
            }
            Ok(ModbusResponse::Exception { function: function_code, code: response[1] })
        } else {
            let mut message = "Unsupported function code: ".to_owned();
            push_decimal(&mut message, function_code as u64);
            Err(ModbusError::DeserializationError(message))
        },
    }
}

/// The error for a read that gave too few or too many values.
fn read_count_error(name: &str, unit: &str, requested: u16, got: usize) -> (error: ModbusError)
    ensures
        error@ == ErrorView::RequestResponseMismatch(
            read_count_message(name@, unit@, requested, got as nat),
        ),
{
    let mut message = name.to_owned();
    message.append(": requested ");
    push_decimal(&mut message, requested as u64);
    message.append(" ");
    message.append(unit);
    message.append(" but got ");
    push_decimal(&mut message, got as u64);
    ModbusError::RequestResponseMismatch(message)
}

/// The first `count` of `bits`.
fn first_bits(bits: &[bool], count: usize) -> (first: Vec<bool>)
    requires
        count <= bits@.len(),
    ensures
        first@ == bits@.take(count as int),
{
    slice_to_vec(slice_subrange(bits, 0, count))
}

/// Checks the acknowledgement of a write of `count` values.
fn check_acknowledgement(
    name: &str,
    starting_address: u16,
    count: usize,
    echoed_address: u16,
    quantity: u16,
    response: ModbusResponse,
) -> (result: Result<ModbusResponse, ModbusError>)
    ensures
        outcome(result) == acknowledged(
            name@,
            starting_address,
            count as nat,
            echoed_address,
            quantity,
            response@,
        ),
{
    if count > 0xFFFF {
        let mut message = name.to_owned();
        message.append(": request quantity does not fit in u16: ");
        push_decimal(&mut message, count as u64);
        return Err(ModbusError::RequestResponseMismatch(message));
    }
    if starting_address != echoed_address || count != quantity as usize {
        let mut message = name.to_owned();
        message.append(": wrote address ");
        push_decimal(&mut message, starting_address as u64);
        message.append(" quantity ");
        push_decimal(&mut message, count as u64);
        message.append(" but server acknowledged address ");
        push_decimal(&mut message, echoed_address as u64);
        message.append(" quantity ");
        push_decimal(&mut message, quantity as u64);
        return Err(ModbusError::RequestResponseMismatch(message));
    }
    Ok(response)
}

/// Verifies that a decoded response matches the request that produced it.
///
/// # Errors
///
/// Returns [`ModbusError::RequestResponseMismatch`] when the response cannot
/// be reconciled with the request.
pub fn align_response_to_request(request: &ModbusRequest, response: ModbusResponse) -> (result:
    Result<ModbusResponse, ModbusError>)
    ensures
        outcome(result) == aligned(request@, response@),
{
    match (request, &response) {
        (_, ModbusResponse::Exception { .. }) => Ok(response),
        (
            ModbusRequest::ReadCoils { quantity: requested, .. },
            ModbusResponse::ReadCoils { coils },
        ) => {
            if coils.len() < *requested as usize {
                return Err(read_count_error("ReadCoils", "coils", *requested, coils.len()));
            }
            Ok(ModbusResponse::ReadCoils { coils: first_bits(coils, *requested as usize) })
        },
        (
            ModbusRequest::ReadDiscreteInputs { quantity: requested, .. },
            ModbusResponse::ReadDiscreteInputs { inputs },
        ) => {
            if inputs.len() < *requested as usize {
                return Err(
                    read_count_error("ReadDiscreteInputs", "inputs", *requested, inputs.len()),
                );
            }
            Ok(
                ModbusResponse::ReadDiscreteInputs {
                    inputs: first_bits(inputs, *requested as usize),
                },
            )
        },
        (
            ModbusRequest::ReadHoldingRegisters { quantity: requested, .. },
            ModbusResponse::ReadHoldingRegisters { registers },
        ) => {
            if registers.len() != *requested as usize {
                return Err(
                    read_count_error(
                        "ReadHoldingRegisters",
                        "registers",
                        *requested,
                        registers.len(),
                    ),
                );
            }
            Ok(response)
        },
        (
            ModbusRequest::ReadInputRegisters { quantity: requested, .. },
            ModbusResponse::ReadInputRegisters { registers },
        ) => {
            if registers.len() != *requested as usize {
                return Err(
                    read_count_error(
                        "ReadInputRegisters",
                        "registers",
                        *requested,
                        registers.len(),
                    ),
                );
            }
            Ok(response)
        },
        (
            ModbusRequest::WriteSingleCoil { address, value },
            ModbusResponse::WriteSingleCoil { address: echoed_address, value: echoed_value },
        ) => {
            if *address != *echoed_address || *value != *echoed_value {
                let mut message = "WriteSingleCoil: wrote address ".to_owned();
                push_decimal(&mut message, *address as u64);
                message.append(" value ");
                push_boolean(&mut message, *value);
                message.append(" but server echoed address ");
                push_decimal(&mut message, *echoed_address as u64);
                message.append(" value ");
                push_boolean(&mut message, *echoed_value);
                return Err(ModbusError::RequestResponseMismatch(message));
            }
            Ok(response)
        },
        (
            ModbusRequest::WriteSingleRegister { address, value },
            ModbusResponse::WriteSingleRegister { address: echoed_address, value: echoed_value },
        ) => {
            if *address != *echoed_address || *value != *echoed_value {
                let mut message = "WriteSingleRegister: wrote address ".to_owned();
                push_decimal(&mut message, *address as u64);
                message.append(" value ");
                push_decimal(&mut message, *value as u64);
                message.append(" but server echoed address ");
                push_decimal(&mut message, *echoed_address as u64);
                message.append(" value ");
                push_decimal(&mut message, *echoed_value as u64);
                return Err(ModbusError::RequestResponseMismatch(message));
            }
            Ok(response)
        },
        (
            ModbusRequest::WriteMultipleCoils { starting_address, values },
            ModbusResponse::WriteMultipleCoils { starting_address: echoed_address, quantity },
        ) => {
            let acknowledged_quantity: u16 = *quantity;
            check_acknowledgement(
                "WriteMultipleCoils",
                *starting_address,
                values.len(),
                *echoed_address,
                acknowledged_quantity,
                response,
            )
        },
        (
            ModbusRequest::WriteMultipleRegisters { starting_address, values },
            ModbusResponse::WriteMultipleRegisters { starting_address: echoed_address, quantity },
        ) => {
            let acknowledged_quantity: u16 = *quantity;
            check_acknowledgement(
                "WriteMultipleRegisters",
                *starting_address,
                values.len(),
                *echoed_address,
                acknowledged_quantity,
                response,
            )
        },
        _ => {
            let mut message = "Request/response mismatch: got ".to_owned();
            response.push_debug(&mut message);
            message.append(" for ");
            request.push_debug(&mut message);
            Err(ModbusError::RequestResponseMismatch(message))
        },
    }
}

impl ModbusResponse {
    /// Deserializes a Modbus response PDU.
    ///
    /// # Errors
    ///
    /// Returns [`ModbusError::DeserializationError`] when the bytes are not a supported response.
    pub fn deserialize(response: &[u8]) -> (result: Result<ModbusResponse, ModbusError>)
        ensures
            outcome(result) == decoded(response@, None),
    {
        deserialize_modbus_response(response, None)
    }

    /// Deserializes a Modbus response PDU and truncates bit-packed reads to `count` values.
    ///
    /// # Errors
    ///
    /// Returns [`ModbusError::DeserializationError`] when the bytes are not a supported response.
    pub fn deserialize_with_count(response: &[u8], count: usize) -> (result: Result<
        ModbusResponse,
        ModbusError,
    >)
        ensures
            outcome(result) == decoded(response@, Some(count)),
    {
        deserialize_modbus_response(response, Some(count))
    }

    /// Aligns this response with the request that produced it.
    ///
    /// # Errors
    ///
    /// Returns [`ModbusError::RequestResponseMismatch`] if the response does not match.
    pub fn align_to_request(self, request: &ModbusRequest) -> (result: Result<
        ModbusResponse,
        ModbusError,
    >)
        ensures
            outcome(result) == aligned(request@, self@),
    {
        align_response_to_request(request, self)
    }

    /// Appends the response as text, field by field.
    pub fn push_debug(&self, out: &mut String)
        ensures
            final(out)@ == old(out)@ + self@.debug_text(),
    {
        let ghost start = out@;
        match self {
            ModbusResponse::ReadCoils { coils } => {
                out.append("ReadCoils { coils: ");
                push_boolean_list(out, coils);
                out.append(" }");
            },
            ModbusResponse::ReadDiscreteInputs { inputs } => {
                out.append("ReadDiscreteInputs { inputs: ");
                push_boolean_list(out, inputs);
                out.append(" }");
            },
            ModbusResponse::ReadHoldingRegisters { registers } => {
                out.append("ReadHoldingRegisters { registers: ");
                push_number_list(out, registers);
                out.append(" }");
            },
            ModbusResponse::ReadInputRegisters { registers } => {
                out.append("ReadInputRegisters { registers: ");
                push_number_list(out, registers);
                out.append(" }");
            },
            ModbusResponse::WriteSingleCoil { address, value } => {
                out.append("WriteSingleCoil");
                push_single_coil_fields(out, *address, *value);
            },
            ModbusResponse::WriteSingleRegister { address, value } => {
                out.append("WriteSingleRegister");
                push_single_register_fields(out, *address, *value);
            },
            ModbusResponse::WriteMultipleCoils { starting_address, quantity } => {
                out.append("WriteMultipleCoils");
                push_range_fields(out, *starting_address, *quantity);
            },
            ModbusResponse::WriteMultipleRegisters { starting_address, quantity } => {
                out.append("WriteMultipleRegisters");
                push_range_fields(out, *starting_address, *quantity);
            },
            ModbusResponse::Exception { function, code } => {
                out.append("Exception { function: ");
                push_decimal(out, *function as u64);
                out.append(", code: ");
                push_decimal(out, *code as u64);
                out.append(" }");
            },
        }
        assert(out@ =~= start + self@.debug_text());
    }
}

impl<'a> vstd::std_specs::convert::TryFromSpecImpl<&'a [u8]> for ModbusResponse {
    open spec fn obeys_try_from_spec() -> bool {
        false
    }

    open spec fn try_from_spec(bytes: &'a [u8]) -> Result<ModbusResponse, ModbusError> {
        arbitrary()
    }
}

impl<'a> TryFrom<&'a [u8]> for ModbusResponse {
    type Error = ModbusError;

    fn try_from(bytes: &'a [u8]) -> (result: Result<ModbusResponse, ModbusError>)
        ensures
            outcome(result) == decoded(bytes@, None),
    {
        ModbusResponse::deserialize(bytes)
    }
}

impl vstd::std_specs::convert::TryFromSpecImpl<Vec<u8>> for ModbusResponse {
    open spec fn obeys_try_from_spec() -> bool {
        false
    }

    open spec fn try_from_spec(bytes: Vec<u8>) -> Result<ModbusResponse, ModbusError> {
        arbitrary()
    }
}

impl TryFrom<Vec<u8>> for ModbusResponse {
    type Error = ModbusError;

    fn try_from(bytes: Vec<u8>) -> (result: Result<ModbusResponse, ModbusError>)
        ensures
            outcome(result) == decoded(bytes@, None),
    {
        ModbusResponse::try_from(bytes.as_slice())
    }
}

/// The bits of a byte of packed coils are the coils that it was packed from.
proof fn coil_byte_holds_its_coils(coils: Seq<bool>, start: int, j: int)
    requires
        0 <= j < 8,
    ensures
        bit(request::coil_byte(coils, start), j as u8) == (request::coil_bit(coils, start + j)
            == 1),
{
    let b0 = request::coil_bit(coils, start) as u8;
    let b1 = request::coil_bit(coils, start + 1) as u8;
    let b2 = request::coil_bit(coils, start + 2) as u8;
    let b3 = request::coil_bit(coils, start + 3) as u8;
    let b4 = request::coil_bit(coils, start + 4) as u8;
    let b5 = request::coil_bit(coils, start + 5) as u8;
    let b6 = request::coil_bit(coils, start + 6) as u8;
    let b7 = request::coil_bit(coils, start + 7) as u8;
    let byte = request::coil_byte(coils, start);
    assert(((byte >> 0u8) & 1 == b0) && ((byte >> 1u8) & 1 == b1) && ((byte >> 2u8) & 1 == b2) && ((
    byte >> 3u8) & 1 == b3) && ((byte >> 4u8) & 1 == b4) && ((byte >> 5u8) & 1 == b5) && ((byte
        >> 6u8) & 1 == b6) && ((byte >> 7u8) & 1 == b7)) by (bit_vector)
        requires
            b0 <= 1,
            b1 <= 1,
            b2 <= 1,
            b3 <= 1,
            b4 <= 1,
            b5 <= 1,
            b6 <= 1,
            b7 <= 1,
            byte == b0 + 2 * b1 + 4 * b2 + 8 * b3 + 16 * b4 + 32 * b5 + 64 * b6 + 128 * b7,
    ;
}

/// The bit at `i` of packed coils is the coil at `i`.
pub proof fn packed_bit(coils: Seq<bool>, i: int)
    requires
        0 <= i < 8 * request::packed(coils).len(),
    ensures
        unpacked(request::packed(coils))[i] == (i < coils.len() && coils[i]),
{
    coil_byte_holds_its_coils(coils, 8 * (i / 8), i % 8);
}

/// Unpacking what was packed gives the coils back; the rest of the last byte is off.
pub proof fn unpacking_undoes_packing(coils: Seq<bool>)
    ensures
        unpacked(request::packed(coils)).take(coils.len() as int) == coils,
        forall|i: int|
            coils.len() <= i < unpacked(request::packed(coils)).len() ==> !unpacked(
                request::packed(coils),
            )[i],
{
    let bits = unpacked(request::packed(coils));
    assert forall|i: int| 0 <= i < bits.len() implies #[trigger] bits[i] == (i < coils.len()
        && coils[i]) by {
        packed_bit(coils, i);
    }
    assert(bits.take(coils.len() as int) =~= coils);
}

/// Different requests that keep to the limits have different PDUs: encoding loses
/// nothing.
pub proof fn encoding_loses_nothing(first: RequestView, second: RequestView)
    requires
        first.valid(),
        second.valid(),
        first.encoded() == second.encoded(),
    ensures
        first == second,
{
    encoded_words(first);
    encoded_words(second);
    match (first, second) {
        (
            RequestView::WriteMultipleCoils { values: x, .. },
            RequestView::WriteMultipleCoils { values: y, .. },
        ) => {
            unpacking_undoes_packing(x);
            unpacking_undoes_packing(y);
        },
        (
            RequestView::WriteMultipleRegisters { values: x, .. },
            RequestView::WriteMultipleRegisters { values: y, .. },
        ) => {
            big_endian::words_of_their_bytes(x);
            big_endian::words_of_their_bytes(y);
        },
        _ => {},
    }
}

/// What the parts of a request's PDU are.
proof fn encoded_words(request: RequestView)
    requires
        request.valid(),
    ensures
        request.encoded().len() >= 5,
        request.encoded()[0] == request.function_code(),
        ({
            let pdu = request.encoded();
            let words = (
                big_endian::be_word(pdu[1], pdu[2]),
                big_endian::be_word(pdu[3], pdu[4]),
            );
            match request {
                RequestView::ReadCoils { starting_address, quantity } => words == (
                    starting_address,
                    quantity,
                ),
                RequestView::ReadDiscreteInputs { starting_address, quantity } => words == (
                    starting_address,
                    quantity,
                ),
                RequestView::ReadHoldingRegisters { starting_address, quantity } => words == (
                    starting_address,
                    quantity,
                ),
                RequestView::ReadInputRegisters { starting_address, quantity } => words == (
                    starting_address,
                    quantity,
                ),
                RequestView::WriteSingleCoil { address, value } => words == (
                    address,
                    if value {
                        0xFF00u16
                    } else {
                        0x0000u16
                    },
                ),
                RequestView::WriteSingleRegister { address, value } => words == (address, value),
                RequestView::WriteMultipleCoils { starting_address, values } => {
                    &&& words == (starting_address, values.len() as u16)
                    &&& pdu.skip(6) == request::packed(values)
                },
                RequestView::WriteMultipleRegisters { starting_address, values } => {
                    &&& words == (starting_address, values.len() as u16)
                    &&& pdu.skip(6) == big_endian::be_words_bytes(values)
                },
            }
        }),
{
    let pdu = request.encoded();
    match request {
        RequestView::WriteMultipleCoils { values, .. } => {
            assert(pdu.skip(6) =~= request::packed(values));
        },
        RequestView::WriteMultipleRegisters { values, .. } => {
            assert(pdu.skip(6) =~= big_endian::be_words_bytes(values));
        },
        _ => {},
    }
}

/// A response that was aligned with a request stays as it is when it is aligned
/// with that request again.
pub proof fn aligning_twice_is_aligning_once(request: RequestView, response: ResponseView)
    ensures
        aligned(request, response) matches Ok(once) ==> aligned(request, once) == Ok::<
            ResponseView,
            ErrorView,
        >(once),
{
    if let Ok(once) = aligned(request, response) {
        match once {
            ResponseView::ReadCoils { coils } => {
                assert(coils.take(coils.len() as int) =~= coils);
            },
            ResponseView::ReadDiscreteInputs { inputs } => {
                assert(inputs.take(inputs.len() as int) =~= inputs);
            },
            _ => {},
        }
    }
}

/// An exception response belongs to every request.
pub proof fn exceptions_pass_alignment(request: RequestView, function: u8, code: u8)
    ensures
        aligned(request, ResponseView::Exception { function, code }) == Ok::<
            ResponseView,
            ErrorView,
        >(ResponseView::Exception { function, code }),
{
}

/// A read that was aligned has exactly the quantity of values that was asked for.
pub proof fn aligned_read_has_the_requested_quantity(request: RequestView, response: ResponseView)
    ensures
        aligned(request, response) matches Ok(ResponseView::ReadCoils { coils }) ==> coils.len()
            == request.quantity(),
        aligned(request, response) matches Ok(ResponseView::ReadDiscreteInputs { inputs })
            ==> inputs.len() == request.quantity(),
        aligned(request, response) matches Ok(ResponseView::ReadHoldingRegisters { registers })
            ==> registers.len() == request.quantity(),
        aligned(request, response) matches Ok(ResponseView::ReadInputRegisters { registers })
            ==> registers.len() == request.quantity(),
{
}

/// A device that acknowledges a write, by echoing the first five bytes of the
/// request's PDU, is understood as acknowledging that very write.
pub proof fn echoed_write_is_accepted(request: RequestView)
    requires
        request.valid(),
        request.function_code() >= 5,
    ensures
        decoded(request.encoded().take(5), None) matches Ok(response) && aligned(request, response)
            == Ok::<ResponseView, ErrorView>(response) && !(response is Exception),
{
    let pdu = request.encoded().take(5);
    match request {
        RequestView::WriteSingleCoil { address, value } => {
            big_endian::word_of_its_bytes(address);
        },
        RequestView::WriteSingleRegister { address, value } => {
            big_endian::word_of_its_bytes(address);
            big_endian::word_of_its_bytes(value);
        },
        RequestView::WriteMultipleCoils { starting_address, values } => {
            big_endian::word_of_its_bytes(starting_address);
            big_endian::word_of_its_bytes(values.len() as u16);
        },
        RequestView::WriteMultipleRegisters { starting_address, values } => {
            big_endian::word_of_its_bytes(starting_address);
            big_endian::word_of_its_bytes(values.len() as u16);
        },
        _ => {},
    }
}

/// A read of coils that a device answers with the packed coils gives those
/// coils, and likewise for discrete inputs.
pub proof fn packed_coils_are_read_back(starting_address: u16, coils: Seq<bool>)
    requires
        1 <= coils.len() <= request::MAX_READ_COILS,
    ensures
        ({
            let request = RequestView::ReadCoils {
                starting_address,
                quantity: coils.len() as u16,
            };
            let bytes = request::packed(coils);
            decoded(seq![1u8, bytes.len() as u8] + bytes, None) matches Ok(response) && aligned(
                request,
                response,
            ) == Ok::<ResponseView, ErrorView>(ResponseView::ReadCoils { coils })
        }),
        ({
            let request = RequestView::ReadDiscreteInputs {
                starting_address,
                quantity: coils.len() as u16,
            };
            let bytes = request::packed(coils);
            decoded(seq![2u8, bytes.len() as u8] + bytes, None) matches Ok(response) && aligned(
                request,
                response,
            ) == Ok::<ResponseView, ErrorView>(ResponseView::ReadDiscreteInputs { inputs: coils })
        }),
{
    let bytes = request::packed(coils);
    unpacking_undoes_packing(coils);
    let first = seq![1u8, bytes.len() as u8] + bytes;
    let second = seq![2u8, bytes.len() as u8] + bytes;
    assert(first.subrange(2, 2 + first[1]) =~= bytes);
    assert(second.subrange(2, 2 + second[1]) =~= bytes);
}

/// A read of registers that a device answers with the registers' bytes gives
/// those registers.
pub proof fn registers_are_read_back(starting_address: u16, registers: Seq<u16>)
    requires
        1 <= registers.len() <= request::MAX_READ_HOLDING_REGISTERS,
    ensures
        ({
            let request = RequestView::ReadHoldingRegisters {
                starting_address,
                quantity: registers.len() as u16,
            };
            let bytes = big_endian::be_words_bytes(registers);
            decoded(seq![3u8, bytes.len() as u8] + bytes, None) matches Ok(response) && aligned(
                request,
                response,
            ) == Ok::<ResponseView, ErrorView>(ResponseView::ReadHoldingRegisters { registers })
        }),
        ({
            let request = RequestView::ReadInputRegisters {
                starting_address,
                quantity: registers.len() as u16,
            };
            let bytes = big_endian::be_words_bytes(registers);
            decoded(seq![4u8, bytes.len() as u8] + bytes, None) matches Ok(response) && aligned(
                request,
                response,
            ) == Ok::<ResponseView, ErrorView>(ResponseView::ReadInputRegisters { registers })
        }),
{
    let bytes = big_endian::be_words_bytes(registers);
    big_endian::words_of_their_bytes(registers);
    let first = seq![3u8, bytes.len() as u8] + bytes;
    let second = seq![4u8, bytes.len() as u8] + bytes;
    assert(first.subrange(2, 2 + first[1]) =~= bytes);
    assert(second.subrange(2, 2 + second[1]) =~= bytes);
}

} // verus!
