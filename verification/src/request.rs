//! Typed Modbus request PDUs and serialization.

use vstd::prelude::*;

use crate::big_endian::{self, push_be};
use crate::error::{ErrorView, ModbusError};
use crate::text::{self, push_boolean, push_boolean_list, push_decimal, push_number_list};

verus! {

/// Most coils that one read may ask for.
pub const MAX_READ_COILS: u16 = 0x07D0;

/// Most discrete inputs that one read may ask for.
pub const MAX_READ_DISCRETE_INPUTS: u16 = 0x07D0;

/// Most holding registers that one read may ask for.
pub const MAX_READ_HOLDING_REGISTERS: u16 = 0x007D;

/// Most input registers that one read may ask for.
pub const MAX_READ_INPUT_REGISTERS: u16 = 0x007D;

/// Most coils that one write may hold.
pub const MAX_WRITE_MULTIPLE_COILS: u16 = 0x07B0;

/// Most registers that one write may hold.
pub const MAX_WRITE_MULTIPLE_REGISTERS: u16 = 0x007B;

/// Longest PDU of a request that keeps to the limits.
pub const MAX_REQUEST_PDU_LEN: usize = 252;

/// Typed Modbus request PDUs.
#[derive(Debug, PartialEq, Eq)]
#[allow(inconsistent_fields)]
pub enum ModbusRequest {
    /// Read coil outputs starting at `starting_address`.
    ReadCoils {
        /// Zero-based starting address.
        starting_address: u16,
        /// Number of coils to read.
        quantity: u16,
    },
    /// Read discrete inputs starting at `starting_address`.
    ReadDiscreteInputs {
        /// Zero-based starting address.
        starting_address: u16,
        /// Number of inputs to read.
        quantity: u16,
    },
    /// Read holding registers starting at `starting_address`.
    ReadHoldingRegisters {
        /// Zero-based starting address.
        starting_address: u16,
        /// Number of registers to read.
        quantity: u16,
    },
    /// Read input registers starting at `starting_address`.
    ReadInputRegisters {
        /// Zero-based starting address.
        starting_address: u16,
        /// Number of registers to read.
        quantity: u16,
    },
    /// Write one coil output.
    WriteSingleCoil {
        /// Coil address to write.
        address: u16,
        /// Coil value to write.
        value: bool,
    },
    /// Write one holding register.
    WriteSingleRegister {
        /// Register address to write.
        address: u16,
        /// Register value to write.
        value: u16,
    },
    /// Write multiple coil outputs starting at `starting_address`.
    WriteMultipleCoils {
        /// Zero-based starting address.
        starting_address: u16,
        /// Coil values to write.
        values: Vec<bool>,
    },
    /// Write multiple holding registers starting at `starting_address`.
    WriteMultipleRegisters {
        /// Zero-based starting address.
        starting_address: u16,
        /// Register values to write.
        values: Vec<u16>,
    },
}

/// Model of a [`ModbusRequest`].
#[allow(inconsistent_fields)]
pub ghost enum RequestView {
    ReadCoils { starting_address: u16, quantity: u16 },
    ReadDiscreteInputs { starting_address: u16, quantity: u16 },
    ReadHoldingRegisters { starting_address: u16, quantity: u16 },
    ReadInputRegisters { starting_address: u16, quantity: u16 },
    WriteSingleCoil { address: u16, value: bool },
    WriteSingleRegister { address: u16, value: u16 },
    WriteMultipleCoils { starting_address: u16, values: Seq<bool> },
    WriteMultipleRegisters { starting_address: u16, values: Seq<u16> },
}

impl View for ModbusRequest {
    type V = RequestView;

    open spec fn view(&self) -> RequestView {
        match self {
            ModbusRequest::ReadCoils { starting_address, quantity } => RequestView::ReadCoils {
                starting_address: *starting_address,
                quantity: *quantity,
            },
            ModbusRequest::ReadDiscreteInputs { starting_address, quantity } => {
                RequestView::ReadDiscreteInputs {
                    starting_address: *starting_address,
                    quantity: *quantity,
                }
            },
            ModbusRequest::ReadHoldingRegisters { starting_address, quantity } => {
                RequestView::ReadHoldingRegisters {
                    starting_address: *starting_address,
                    quantity: *quantity,
                }
            },
            ModbusRequest::ReadInputRegisters { starting_address, quantity } => {
                RequestView::ReadInputRegisters {
                    starting_address: *starting_address,
                    quantity: *quantity,
                }
            },
            ModbusRequest::WriteSingleCoil { address, value } => RequestView::WriteSingleCoil {
                address: *address,
                value: *value,
            },
            ModbusRequest::WriteSingleRegister { address, value } => {
                RequestView::WriteSingleRegister { address: *address, value: *value }
            },
            ModbusRequest::WriteMultipleCoils { starting_address, values } => {
                RequestView::WriteMultipleCoils {
                    starting_address: *starting_address,
                    values: values@,
                }
            },
            ModbusRequest::WriteMultipleRegisters { starting_address, values } => {
                RequestView::WriteMultipleRegisters {
                    starting_address: *starting_address,
                    values: values@,
                }
            },
        }
    }
}

impl Clone for ModbusRequest {
    fn clone(&self) -> (copy: ModbusRequest)
        ensures
            copy@ == self@,
    {
        match self {
            ModbusRequest::ReadCoils { starting_address, quantity } => ModbusRequest::ReadCoils {
                starting_address: *starting_address,
                quantity: *quantity,
            },
            ModbusRequest::ReadDiscreteInputs { starting_address, quantity } => {
                ModbusRequest::ReadDiscreteInputs {
                    starting_address: *starting_address,
                    quantity: *quantity,
                }
            },
            ModbusRequest::ReadHoldingRegisters { starting_address, quantity } => {
                ModbusRequest::ReadHoldingRegisters {
                    starting_address: *starting_address,
                    quantity: *quantity,
                }
            },
            ModbusRequest::ReadInputRegisters { starting_address, quantity } => {
                ModbusRequest::ReadInputRegisters {
                    starting_address: *starting_address,
                    quantity: *quantity,
                }
            },
            ModbusRequest::WriteSingleCoil { address, value } => ModbusRequest::WriteSingleCoil {
                address: *address,
                value: *value,
            },
            ModbusRequest::WriteSingleRegister { address, value } => {
                ModbusRequest::WriteSingleRegister { address: *address, value: *value }
            },
            ModbusRequest::WriteMultipleCoils { starting_address, values } => {
                ModbusRequest::WriteMultipleCoils {
                    starting_address: *starting_address,
                    values: values.clone(),
                }
            },
            ModbusRequest::WriteMultipleRegisters { starting_address, values } => {
                ModbusRequest::WriteMultipleRegisters {
                    starting_address: *starting_address,
                    values: values.clone(),
                }
            },
        }
    }
}

/// One, if there is a coil at `index` and it is on, and zero otherwise.
pub open spec fn coil_bit(coils: Seq<bool>, index: int) -> int {
    if 0 <= index < coils.len() && coils[index] {
        1
    } else {
        0
    }
}

/// The byte that holds the eight coils from `start` on, the first of them in
/// the lowest bit; what is missing at the end counts as off.
pub open spec fn coil_byte(coils: Seq<bool>, start: int) -> u8 {
    (coil_bit(coils, start) + 2 * coil_bit(coils, start + 1) + 4 * coil_bit(coils, start + 2) + 8
        * coil_bit(coils, start + 3) + 16 * coil_bit(coils, start + 4) + 32 * coil_bit(
        coils,
        start + 5,
    ) + 64 * coil_bit(coils, start + 6) + 128 * coil_bit(coils, start + 7)) as u8
}

/// Coils packed eight to a byte.
pub open spec fn packed(coils: Seq<bool>) -> Seq<u8> {
    Seq::new(((coils.len() + 7) / 8) as nat, |i: int| coil_byte(coils, 8 * i))
}

/// The message about a quantity outside the limit.
pub open spec fn quantity_message(name: Seq<char>, max: u16, got: nat) -> Seq<char> {
    name + " quantity must be 1-"@ + text::decimal(max as nat) + ", got "@
        + text::decimal(got)
}

impl RequestView {
    /// The name of the request.
    pub open spec fn name(self) -> Seq<char> {
        match self {
            RequestView::ReadCoils { .. } => "ReadCoils"@,
            RequestView::ReadDiscreteInputs { .. } => "ReadDiscreteInputs"@,
            RequestView::ReadHoldingRegisters { .. } => "ReadHoldingRegisters"@,
            RequestView::ReadInputRegisters { .. } => "ReadInputRegisters"@,
            RequestView::WriteSingleCoil { .. } => "WriteSingleCoil"@,
            RequestView::WriteSingleRegister { .. } => "WriteSingleRegister"@,
            RequestView::WriteMultipleCoils { .. } => "WriteMultipleCoils"@,
            RequestView::WriteMultipleRegisters { .. } => "WriteMultipleRegisters"@,
        }
    }

    /// The Modbus function code of the request.
    pub open spec fn function_code(self) -> u8 {
        match self {
            RequestView::ReadCoils { .. } => 1,
            RequestView::ReadDiscreteInputs { .. } => 2,
            RequestView::ReadHoldingRegisters { .. } => 3,
            RequestView::ReadInputRegisters { .. } => 4,
            RequestView::WriteSingleCoil { .. } => 5,
            RequestView::WriteSingleRegister { .. } => 6,
            RequestView::WriteMultipleCoils { .. } => 15,
            RequestView::WriteMultipleRegisters { .. } => 16,
        }
    }

    /// How many coils, inputs or registers the request speaks of.
    pub open spec fn quantity(self) -> nat {
        match self {
            RequestView::ReadCoils { quantity, .. } => quantity as nat,
            RequestView::ReadDiscreteInputs { quantity, .. } => quantity as nat,
            RequestView::ReadHoldingRegisters { quantity, .. } => quantity as nat,
            RequestView::ReadInputRegisters { quantity, .. } => quantity as nat,
            RequestView::WriteSingleCoil { .. } => 1,
            RequestView::WriteSingleRegister { .. } => 1,
            RequestView::WriteMultipleCoils { values, .. } => values.len(),
            RequestView::WriteMultipleRegisters { values, .. } => values.len(),
        }
    }

    /// The largest quantity that the protocol lets such a request have.
    pub open spec fn max_quantity(self) -> u16 {
        match self {
            RequestView::ReadCoils { .. } => MAX_READ_COILS,
            RequestView::ReadDiscreteInputs { .. } => MAX_READ_DISCRETE_INPUTS,
            RequestView::ReadHoldingRegisters { .. } => MAX_READ_HOLDING_REGISTERS,
            RequestView::ReadInputRegisters { .. } => MAX_READ_INPUT_REGISTERS,
            RequestView::WriteSingleCoil { .. } => 1,
            RequestView::WriteSingleRegister { .. } => 1,
            RequestView::WriteMultipleCoils { .. } => MAX_WRITE_MULTIPLE_COILS,
            RequestView::WriteMultipleRegisters { .. } => MAX_WRITE_MULTIPLE_REGISTERS,
        }
    }

    /// The request keeps to the limits of the protocol.
    pub open spec fn valid(self) -> bool {
        1 <= self.quantity() <= self.max_quantity()
    }

    /// The error for a request that does not keep to the limits.
    pub open spec fn limit_error(self) -> ErrorView {
        ErrorView::ValidationError(
            quantity_message(self.name(), self.max_quantity(), self.quantity()),
        )
    }

    /// What keeps the request from being encoded at all, whatever the limits say:
    /// a quantity or a byte count that its field cannot hold.
    pub open spec fn encoding_obstacle(self) -> Option<Seq<char>> {
        match self {
            RequestView::WriteMultipleCoils { values, .. } => if values.len() > 0xFFFF {
                Some(
                    "WriteMultipleCoils quantity must fit in u16, got "@ + text::decimal(
                        values.len(),
                    ),
                )
            } else if packed(values).len() > 0xFF {
                Some(
                    "WriteMultipleCoils byte count must fit in u8, got "@ + text::decimal(
                        packed(values).len(),
                    ),
                )
            } else {
                None
            },
            RequestView::WriteMultipleRegisters { values, .. } => if values.len() > 0xFFFF {
                Some(
                    "WriteMultipleRegisters quantity must fit in u16, got "@
                        + text::decimal(values.len()),
                )
            } else if 2 * values.len() > 0xFF {
                Some(
                    "WriteMultipleRegisters byte count must fit in u8, got "@
                        + text::decimal(2 * values.len()),
                )
            } else {
                None
            },
            _ => None,
        }
    }

    /// The bytes of the request's PDU.
    pub open spec fn encoded(self) -> Seq<u8> {
        seq![self.function_code()] + match self {
            RequestView::ReadCoils { starting_address, quantity } => {
                big_endian::be_bytes(starting_address) + big_endian::be_bytes(
                    quantity,
                )
            },
            RequestView::ReadDiscreteInputs { starting_address, quantity } => {
                big_endian::be_bytes(starting_address) + big_endian::be_bytes(
                    quantity,
                )
            },
            RequestView::ReadHoldingRegisters { starting_address, quantity } => {
                big_endian::be_bytes(starting_address) + big_endian::be_bytes(
                    quantity,
                )
            },
            RequestView::ReadInputRegisters { starting_address, quantity } => {
                big_endian::be_bytes(starting_address) + big_endian::be_bytes(
                    quantity,
                )
            },
            RequestView::WriteSingleCoil { address, value } => {
                big_endian::be_bytes(address) + big_endian::be_bytes(
                    if value {
                        0xFF00u16
                    } else {
                        0x0000u16
                    },
                )
            },
            RequestView::WriteSingleRegister { address, value } => {
                big_endian::be_bytes(address) + big_endian::be_bytes(value)
            },
            RequestView::WriteMultipleCoils { starting_address, values } => {
                big_endian::be_bytes(starting_address) + big_endian::be_bytes(
                    values.len() as u16,
                ) + seq![packed(values).len() as u8] + packed(values)
            },
            RequestView::WriteMultipleRegisters { starting_address, values } => {
                big_endian::be_bytes(starting_address) + big_endian::be_bytes(
                    values.len() as u16,
                ) + seq![(2 * values.len()) as u8] + big_endian::be_words_bytes(values)
            },
        }
    }

    /// The request as text, field by field.
    pub open spec fn debug_text(self) -> Seq<char> {
        self.name() + match self {
            RequestView::ReadCoils { starting_address, quantity } => range_fields(
                starting_address,
                quantity,
            ),
            RequestView::ReadDiscreteInputs { starting_address, quantity } => range_fields(
                starting_address,
                quantity,
            ),
            RequestView::ReadHoldingRegisters { starting_address, quantity } => range_fields(
                starting_address,
                quantity,
            ),
            RequestView::ReadInputRegisters { starting_address, quantity } => range_fields(
                starting_address,
                quantity,
            ),
            RequestView::WriteSingleCoil { address, value } => single_coil_fields(address, value),
            RequestView::WriteSingleRegister { address, value } => single_register_fields(
                address,
                value,
            ),
            RequestView::WriteMultipleCoils { starting_address, values } => {
                " { starting_address: "@ + text::decimal(starting_address as nat)
                    + ", values: "@ + text::boolean_list(values) + " }"@
            },
            RequestView::WriteMultipleRegisters { starting_address, values } => {
                " { starting_address: "@ + text::decimal(starting_address as nat)
                    + ", values: "@ + text::number_list(values) + " }"@
            },
        }
    }
}

/// The fields of a PDU with a starting address and a quantity.
pub open spec fn range_fields(starting_address: u16, quantity: u16) -> Seq<char> {
    " { starting_address: "@ + text::decimal(starting_address as nat) + ", quantity: "@
        + text::decimal(quantity as nat) + " }"@
}

/// The fields of a PDU that writes one coil.
pub open spec fn single_coil_fields(address: u16, value: bool) -> Seq<char> {
    " { address: "@ + text::decimal(address as nat) + ", value: "@ + text::boolean(
        value,
    ) + " }"@
}

/// The fields of a PDU that writes one register.
pub open spec fn single_register_fields(address: u16, value: u16) -> Seq<char> {
    " { address: "@ + text::decimal(address as nat) + ", value: "@ + text::decimal(
        value as nat,
    ) + " }"@
}

/// Packs coils eight to a byte, the first of each eight in the lowest bit.
pub fn pack_coils(coils: &[bool]) -> (bytes: Vec<u8>)
    ensures
        bytes@ == packed(coils@),
{
    let mut bytes: Vec<u8> = Vec::new();
    let mut current_byte: u8 = 0;
    let mut bit_index: u8 = 0;
    let mut i: usize = 0;
    while i < coils.len()
        invariant
            i <= coils@.len(),
            bit_index < 8,
            i == 8 * bytes@.len() + bit_index,
            forall|k: int| 0 <= k < bytes@.len() ==> bytes@[k] == coil_byte(coils@, 8 * k),
            current_byte == coil_byte(coils@.take(i as int), 8 * bytes@.len() as int),
        decreases coils@.len() - i,
    {
        let ghost start = 8 * bytes@.len() as int;
        proof {
            coil_byte_grows(coils@, start, i as int);
        }
        if coils[i] {
            current_byte = current_byte | (1u8 << bit_index);
        }
        bit_index = bit_index + 1;
        i = i + 1;
        if bit_index == 8 {
            proof {
                coil_byte_is_local(coils@, i as int, start);
                coil_byte_past_the_end(coils@.take(i as int), i as int);
            }
            bytes.push(current_byte);
            current_byte = 0;
            bit_index = 0;
        }
    }
    assert(coils@.take(i as int) =~= coils@);
    if bit_index > 0 {
        bytes.push(current_byte);
    }
    assert(bytes@ =~= packed(coils@));
    bytes
}

/// A coil after the last of a byte adds its own bit to the byte.
proof fn coil_byte_grows(coils: Seq<bool>, start: int, i: int)
    requires
        0 <= start <= i < coils.len(),
        i < start + 8,
    ensures
        coil_byte(coils.take(i + 1), start) == if coils[i] {
            coil_byte(coils.take(i), start) | (1u8 << ((i - start) as u8))
        } else {
            coil_byte(coils.take(i), start)
        },
{
    let before = coils.take(i);
    let after = coils.take(i + 1);
    let j: u8 = (i - start) as u8;
    let byte = coil_byte(before, start);
    assert(forall|k: int| 0 <= k < 8 && k != j ==> #[trigger] coil_bit(after, start + k)
        == coil_bit(before, start + k));
    assert(coil_bit(before, start + j as int) == 0);
    assert(coil_bit(after, start + 0) == coil_bit(after, start));
    assert(coil_bit(before, start + 0) == coil_bit(before, start));
    assert(1u8 << 0u8 == 1u8 && 1u8 << 1u8 == 2u8 && 1u8 << 2u8 == 4u8 && 1u8 << 3u8 == 8u8 && 1u8
        << 4u8 == 16u8 && 1u8 << 5u8 == 32u8 && 1u8 << 6u8 == 64u8 && 1u8 << 7u8 == 128u8)
        by (bit_vector);
    assert(byte < 1u8 << j);
    assert(byte | (1u8 << j) == byte + (1u8 << j)) by (bit_vector)
        requires
            j < 8,
            byte < 1u8 << j,
    ;
}

/// A byte depends on the coils up to its last one alone.
proof fn coil_byte_is_local(coils: Seq<bool>, end: int, start: int)
    requires
        0 <= start,
        start + 8 == end <= coils.len(),
    ensures
        coil_byte(coils.take(end), start) == coil_byte(coils, start),
{
}

/// There is no coil past the end.
proof fn coil_byte_past_the_end(coils: Seq<bool>, start: int)
    requires
        start >= coils.len(),
    ensures
        coil_byte(coils, start) == 0,
{
}

/// Checks that `quantity` is at least one and at most `max`.
///
/// # Errors
///
/// Returns [`ModbusError::ValidationError`] when it is not.
pub fn validate_quantity(name: &str, quantity: u16, max: u16) -> (result: Result<(), ModbusError>)
    ensures
        result is Ok <==> 1 <= quantity <= max,
        result matches Err(e) ==> e@ == ErrorView::ValidationError(
            quantity_message(name@, max, quantity as nat),
        ),
{
    if quantity == 0 || quantity > max {
        return Err(ModbusError::ValidationError(quantity_error(name, max, quantity as u64)));
    }
    Ok(())
}

/// Checks that `len` is at least one and at most `max`, and gives it as a quantity.
///
/// # Errors
///
/// Returns [`ModbusError::ValidationError`] when it is not.
pub fn validate_values_len(name: &str, len: usize, max: u16) -> (result: Result<u16, ModbusError>)
    ensures
        result is Ok <==> 1 <= len <= max,
        result matches Ok(quantity) ==> quantity == len,
        result matches Err(e) ==> e@ == ErrorView::ValidationError(
            quantity_message(name@, max, len as nat),
        ),
{
    if len > 0xFFFF {
        return Err(ModbusError::ValidationError(quantity_error(name, max, len as u64)));
    }
    let quantity: u16 = len as u16;
    match validate_quantity(name, quantity, max) {
        Ok(()) => Ok(quantity),
        Err(e) => Err(e),
    }
}

/// The message about a quantity outside the limit.
fn quantity_error(name: &str, max: u16, got: u64) -> (message: String)
    ensures
        message@ == quantity_message(name@, max, got as nat),
{
    let mut message = name.to_owned();
    message.append(" quantity must be 1-");
    push_decimal(&mut message, max as u64);
    message.append(", got ");
    push_decimal(&mut message, got);
    message
}

/// `head` followed by the decimal numeral of `count`.
fn with_count(head: &str, count: usize) -> (message: String)
    ensures
        message@ == head@ + text::decimal(count as nat),
{
    let mut message = head.to_owned();
    push_decimal(&mut message, count as u64);
    message
}

/// Appends the bytes of `words`, one word after the other.
fn push_be_words(out: &mut Vec<u8>, words: &[u16])
    ensures
        final(out)@ == old(out)@ + big_endian::be_words_bytes(words@),
{
    let ghost start = out@;
    let mut i: usize = 0;
    assert(start =~= start + big_endian::be_words_bytes(words@.take(0)));
    while i < words.len()
        invariant
            i <= words@.len(),
            out@ == start + big_endian::be_words_bytes(words@.take(i as int)),
        decreases words@.len() - i,
    {
        push_be(out, words[i]);
        assert(out@ =~= start + big_endian::be_words_bytes(words@.take(i + 1)));
        i = i + 1;
    }
    assert(words@.take(i as int) =~= words@);
}

/// Encodes a request without asking whether it keeps to the limits.
///
/// # Errors
///
/// Returns [`ModbusError::ValidationError`] when a quantity or a byte count
/// does not fit into its field.
pub fn serialize_modbus_request(pdu: &ModbusRequest) -> (result: Result<Vec<u8>, ModbusError>)
    ensures
        match pdu@.encoding_obstacle() {
            None => result matches Ok(bytes) && bytes@ == pdu@.encoded(),
            Some(message) => result matches Err(e) && e@ == ErrorView::ValidationError(message),
        },
{
    let mut frame: Vec<u8> = Vec::with_capacity(MAX_REQUEST_PDU_LEN);
    match pdu {
        ModbusRequest::ReadCoils { starting_address, quantity } => {
            frame.push(1);
            push_be(&mut frame, *starting_address);
            push_be(&mut frame, *quantity);
        },
        ModbusRequest::ReadDiscreteInputs { starting_address, quantity } => {
            frame.push(2);
            push_be(&mut frame, *starting_address);
            push_be(&mut frame, *quantity);
        },
        ModbusRequest::ReadHoldingRegisters { starting_address, quantity } => {
            frame.push(3);
            push_be(&mut frame, *starting_address);
            push_be(&mut frame, *quantity);
        },
        ModbusRequest::ReadInputRegisters { starting_address, quantity } => {
            frame.push(4);
            push_be(&mut frame, *starting_address);
            push_be(&mut frame, *quantity);
        },
        ModbusRequest::WriteSingleCoil { address, value } => {
            frame.push(5);
            push_be(&mut frame, *address);
            let coil_value: u16 = if *value {
                0xFF00
            } else {
                0x0000
            };
            push_be(&mut frame, coil_value);
        },
        ModbusRequest::WriteSingleRegister { address, value } => {
            frame.push(6);
            push_be(&mut frame, *address);
            push_be(&mut frame, *value);
        },
        ModbusRequest::WriteMultipleCoils { starting_address, values } => {
            frame.push(15);
            if values.len() > 0xFFFF {
                return Err(
                    ModbusError::ValidationError(
                        with_count(
                            "WriteMultipleCoils quantity must fit in u16, got ",
                            values.len(),
                        ),
                    ),
                );
            }
            let quantity: u16 = values.len() as u16;
            push_be(&mut frame, *starting_address);
            push_be(&mut frame, quantity);
            let mut coil_bytes = pack_coils(values);
            if coil_bytes.len() > 0xFF {
                return Err(
                    ModbusError::ValidationError(
                        with_count(
                            "WriteMultipleCoils byte count must fit in u8, got ",
                            coil_bytes.len(),
                        ),
                    ),
                );
            }
            frame.push(coil_bytes.len() as u8);
            frame.append(&mut coil_bytes);
        },
        ModbusRequest::WriteMultipleRegisters { starting_address, values } => {
            frame.push(16);
            if values.len() > 0xFFFF {
                return Err(
                    ModbusError::ValidationError(
                        with_count(
                            "WriteMultipleRegisters quantity must fit in u16, got ",
                            values.len(),
                        ),
                    ),
                );
            }
            let quantity: u16 = values.len() as u16;
            push_be(&mut frame, *starting_address);
            push_be(&mut frame, quantity);
            let register_byte_len: usize = values.len() * 2;
            if register_byte_len > 0xFF {
                return Err(
                    ModbusError::ValidationError(
                        with_count(
                            "WriteMultipleRegisters byte count must fit in u8, got ",
                            register_byte_len,
                        ),
                    ),
                );
            }
            frame.push(register_byte_len as u8);
            push_be_words(&mut frame, values);
        },
    }
    assert(frame@ =~= pdu@.encoded());
    Ok(frame)
}

impl ModbusRequest {
    /// Checks the request against the limits of the protocol.
    ///
    /// # Errors
    ///
    /// Returns [`ModbusError::ValidationError`] when the request violates Modbus limits.
    pub fn validate(&self) -> (result: Result<(), ModbusError>)
        ensures
            result is Ok <==> self@.valid(),
            result matches Err(e) ==> e@ == self@.limit_error(),
    {
        match self {
            ModbusRequest::ReadCoils { quantity, .. } => validate_quantity(
                "ReadCoils",
                *quantity,
                MAX_READ_COILS,
            ),
            ModbusRequest::ReadDiscreteInputs { quantity, .. } => validate_quantity(
                "ReadDiscreteInputs",
                *quantity,
                MAX_READ_DISCRETE_INPUTS,
            ),
            ModbusRequest::ReadHoldingRegisters { quantity, .. } => validate_quantity(
                "ReadHoldingRegisters",
                *quantity,
                MAX_READ_HOLDING_REGISTERS,
            ),
            ModbusRequest::ReadInputRegisters { quantity, .. } => validate_quantity(
                "ReadInputRegisters",
                *quantity,
                MAX_READ_INPUT_REGISTERS,
            ),
            ModbusRequest::WriteMultipleCoils { values, .. } => {
                match validate_values_len(
                    "WriteMultipleCoils",
                    values.len(),
                    MAX_WRITE_MULTIPLE_COILS,
                ) {
                    Ok(_) => Ok(()),
                    Err(e) => Err(e),
                }
            },
            ModbusRequest::WriteMultipleRegisters { values, .. } => {
                match validate_values_len(
                    "WriteMultipleRegisters",
                    values.len(),
                    MAX_WRITE_MULTIPLE_REGISTERS,
                ) {
                    Ok(_) => Ok(()),
                    Err(e) => Err(e),
                }
            },
            ModbusRequest::WriteSingleCoil { .. } => Ok(()),
            ModbusRequest::WriteSingleRegister { .. } => Ok(()),
        }
    }

    /// Serializes the request into a Modbus PDU.
    ///
    /// Validation runs before serialization, so protocol-limit violations are
    /// returned as [`ModbusError::ValidationError`].
    ///
    /// # Errors
    ///
    /// Returns [`ModbusError::ValidationError`] when the request violates Modbus limits.
    pub fn serialize(&self) -> (result: Result<Vec<u8>, ModbusError>)
        ensures
            result is Ok <==> self@.valid(),
            result matches Ok(bytes) ==> bytes@ == self@.encoded(),
            result matches Err(e) ==> e@ == self@.limit_error(),
    {
        match self.validate() {
            Ok(()) => serialize_modbus_request(self),
            Err(e) => Err(e),
        }
    }

    /// Appends the request as text, field by field.
    pub fn push_debug(&self, out: &mut String)
        ensures
            final(out)@ == old(out)@ + self@.debug_text(),
    {
        let ghost start = out@;
        match self {
            ModbusRequest::ReadCoils { starting_address, quantity } => {
                out.append("ReadCoils");
                push_range_fields(out, *starting_address, *quantity);
            },
            ModbusRequest::ReadDiscreteInputs { starting_address, quantity } => {
                out.append("ReadDiscreteInputs");
                push_range_fields(out, *starting_address, *quantity);
            },
            ModbusRequest::ReadHoldingRegisters { starting_address, quantity } => {
                out.append("ReadHoldingRegisters");
                push_range_fields(out, *starting_address, *quantity);
            },
            ModbusRequest::ReadInputRegisters { starting_address, quantity } => {
                out.append("ReadInputRegisters");
                push_range_fields(out, *starting_address, *quantity);
            },
            ModbusRequest::WriteSingleCoil { address, value } => {
                out.append("WriteSingleCoil");
                push_single_coil_fields(out, *address, *value);
            },
            ModbusRequest::WriteSingleRegister { address, value } => {
                out.append("WriteSingleRegister");
                push_single_register_fields(out, *address, *value);
            },
            ModbusRequest::WriteMultipleCoils { starting_address, values } => {
                out.append("WriteMultipleCoils");
                out.append(" { starting_address: ");
                push_decimal(out, *starting_address as u64);
                out.append(", values: ");
                push_boolean_list(out, values);
                out.append(" }");
            },
            ModbusRequest::WriteMultipleRegisters { starting_address, values } => {
                out.append("WriteMultipleRegisters");
                out.append(" { starting_address: ");
                push_decimal(out, *starting_address as u64);
                out.append(", values: ");
                push_number_list(out, values);
                out.append(" }");
            },
        }
        assert(out@ =~= start + self@.debug_text());
    }
}

/// Appends the fields of a PDU with a starting address and a quantity.
pub(crate) fn push_range_fields(out: &mut String, starting_address: u16, quantity: u16)
    ensures
        final(out)@ == old(out)@ + range_fields(starting_address, quantity),
{
    let ghost start = out@;
    out.append(" { starting_address: ");
    push_decimal(out, starting_address as u64);
    out.append(", quantity: ");
    push_decimal(out, quantity as u64);
    out.append(" }");
    assert(out@ =~= start + range_fields(starting_address, quantity));
}

/// Appends the fields of a PDU that writes one coil.
pub(crate) fn push_single_coil_fields(out: &mut String, address: u16, value: bool)
    ensures
        final(out)@ == old(out)@ + single_coil_fields(address, value),
{
    let ghost start = out@;
    out.append(" { address: ");
    push_decimal(out, address as u64);
    out.append(", value: ");
    push_boolean(out, value);
    out.append(" }");
    assert(out@ =~= start + single_coil_fields(address, value));
}

/// Appends the fields of a PDU that writes one register.
pub(crate) fn push_single_register_fields(out: &mut String, address: u16, value: u16)
    ensures
        final(out)@ == old(out)@ + single_register_fields(address, value),
{
    let ghost start = out@;
    out.append(" { address: ");
    push_decimal(out, address as u64);
    out.append(", value: ");
    push_decimal(out, value as u64);
    out.append(" }");
    assert(out@ =~= start + single_register_fields(address, value));
}

/// A request that keeps to the limits can be encoded, and its PDU is never
/// longer than [`MAX_REQUEST_PDU_LEN`] nor shorter than five bytes.
pub proof fn valid_request_fits(request: ModbusRequest)
    requires
        request@.valid(),
    ensures
        request@.encoding_obstacle() is None,
        5 <= request@.encoded().len() <= MAX_REQUEST_PDU_LEN,
{
}

/// The first byte of a request's PDU is its function code.
pub proof fn encoded_starts_with_function_code(request: ModbusRequest)
    ensures
        request@.encoded().len() >= 5,
        request@.encoded()[0] == request@.function_code(),
{
}

} // verus!
