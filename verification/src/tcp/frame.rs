//! MBAP header constants and response frame length validation.

use vstd::prelude::*;

use crate::big_endian::{self, word_of_be};
use crate::error::{ErrorView, ModbusError};
use crate::text::{self, push_decimal};

verus! {

/// Length of the MBAP header.
pub const MBAP_HEADER_LEN: usize = 7;

/// Length of the longest frame that is accepted.
pub const MAX_MODBUS_TCP_FRAME: usize = 260;

/// The number of bytes after an MBAP header whose length field holds `length`,
/// or what is wrong with that field.
pub open spec fn body_len_of_length(length: u16) -> Result<nat, ErrorView> {
    if length < 2 {
        Err(
            ErrorView::MalformedResponse(
                "Invalid MBAP length: missing unit identifier or PDU"@,
            ),
        )
    } else if MBAP_HEADER_LEN + length - 1 > MAX_MODBUS_TCP_FRAME {
        Err(
            ErrorView::MalformedResponse(
                "Response exceeds maximum frame size: "@ + text::decimal(
                    (MBAP_HEADER_LEN + length - 1) as nat,
                ) + " > "@ + text::decimal(MAX_MODBUS_TCP_FRAME as nat),
            ),
        )
    } else {
        Ok((length - 1) as nat)
    }
}

/// The number of bytes after the MBAP header `header`, or what is wrong with it.
pub open spec fn body_len_of(header: Seq<u8>) -> Result<nat, ErrorView> {
    body_len_of_length(big_endian::be_word(header[4], header[5]))
}

/// Returns the response body length encoded by an MBAP header.
///
/// # Arguments
/// * `header` - Seven-byte MBAP header read from the TCP stream.
///
/// # Returns
/// Returns the number of bytes following the MBAP header, excluding the unit identifier.
///
/// # Errors
/// Returns [`ModbusError::MalformedResponse`] when the MBAP length is invalid or oversized.
pub fn response_body_len_from_header(header: [u8; MBAP_HEADER_LEN]) -> (result: Result<
    usize,
    ModbusError,
>)
    ensures
        match body_len_of(header@) {
            Ok(len) => result matches Ok(body_len) && body_len == len,
            Err(error) => result matches Err(e) && e@ == error,
        },
{
    let pdu_length: usize = word_of_be(header[4], header[5]) as usize;
    if pdu_length < 2 {
        return Err(
            ModbusError::MalformedResponse(
                "Invalid MBAP length: missing unit identifier or PDU".to_owned(),
            ),
        );
    }
    let body_len: usize = pdu_length - 1;
    let total_length: usize = MBAP_HEADER_LEN + body_len;
    if total_length > MAX_MODBUS_TCP_FRAME {
        let mut message = "Response exceeds maximum frame size: ".to_owned();
        push_decimal(&mut message, total_length as u64);
        message.append(" > ");
        push_decimal(&mut message, MAX_MODBUS_TCP_FRAME as u64);
        return Err(ModbusError::MalformedResponse(message));
    }
    Ok(body_len)
}

/// An accepted header announces at least one byte after itself, and a frame no
/// longer than [`MAX_MODBUS_TCP_FRAME`].
pub proof fn accepted_body_len_is_bounded(header: Seq<u8>)
    ensures
        body_len_of(header) matches Ok(len) ==> 1 <= len <= MAX_MODBUS_TCP_FRAME - MBAP_HEADER_LEN,
{
}

/// A length field counts the unit identifier and the PDU: a frame has one byte less
/// after its header. Accepted are lengths from 2, for one byte of a PDU, to 254, with
/// which a frame has 260 bytes.
pub proof fn lengths_count_from_the_unit_on(header: Seq<u8>)
    requires
        header.len() >= 6,
    ensures
        ({
            let length = 256 * header[4] + header[5];
            &&& body_len_of(header) is Ok <==> 2 <= length <= 254
            &&& body_len_of(header) matches Ok(len) ==> len + 1 == length
            &&& length < 2 ==> body_len_of(header) == Err::<nat, ErrorView>(
                ErrorView::MalformedResponse(
                    "Invalid MBAP length: missing unit identifier or PDU"@,
                ),
            )
            &&& length > 254 ==> body_len_of(header) == Err::<nat, ErrorView>(
                ErrorView::MalformedResponse(
                    "Response exceeds maximum frame size: "@ + text::decimal((6 + length) as nat)
                        + " > "@ + text::decimal(260),
                ),
            )
        }),
{
}

} // verus!
