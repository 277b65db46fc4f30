//! Application data units: an MBAP header followed by a PDU.

use vstd::prelude::*;

use crate::big_endian::{self, push_be};
use crate::error::{ErrorView, ModbusError};
use crate::request::{serialize_modbus_request, ModbusRequest, RequestView};
use crate::tcp::frame::{self, MAX_MODBUS_TCP_FRAME, MBAP_HEADER_LEN};
use crate::text::{self, push_decimal};

verus! {

/// The frame with the given header fields around `pdu`; its length field counts
/// the unit identifier and the PDU.
pub open spec fn framed(
    transaction_id: u16,
    protocol_id: u16,
    unit_id: u8,
    pdu: Seq<u8>,
) -> Seq<u8> {
    big_endian::be_bytes(transaction_id) + big_endian::be_bytes(protocol_id)
        + big_endian::be_bytes((1 + pdu.len()) as u16) + seq![unit_id] + pdu
}

/// Builds a Modbus TCP frame around a PDU that is already encoded.
///
/// # Errors
/// Returns [`ModbusError::ValidationError`] when the length field cannot hold the length.
pub fn build_modbus_tcp_adu_from_pdu_bytes(transaction_id: u16, unit_id: u8, pdu: &[u8]) -> (result:
    Result<Vec<u8>, ModbusError>)
    requires
        pdu@.len() < usize::MAX,
    ensures
        result is Ok <==> 1 + pdu@.len() <= 0xFFFF,
        result matches Ok(adu) ==> adu@ == framed(transaction_id, 0, unit_id, pdu@),
        result matches Err(e) ==> e@ == ErrorView::ValidationError(
            "Modbus TCP ADU length is too large: "@ + text::decimal(1 + pdu@.len()),
        ),
{
    let length: usize = 1 + pdu.len();
    if length > 0xFFFF {
        let mut message = "Modbus TCP ADU length is too large: ".to_owned();
        push_decimal(&mut message, length as u64);
        return Err(ModbusError::ValidationError(message));
    }
    let mut adu: Vec<u8> = Vec::with_capacity(MBAP_HEADER_LEN + pdu.len());
    push_be(&mut adu, transaction_id);
    push_be(&mut adu, 0);
    push_be(&mut adu, length as u16);
    adu.push(unit_id);
    adu.extend_from_slice(pdu);
    assert(adu@ =~= framed(transaction_id, 0, unit_id, pdu@));
    Ok(adu)
}

/// Builds a Modbus TCP frame by constructing the 7-byte MBAP header
/// and appending the Modbus PDU.
///
/// The MBAP header consists of:
/// - Transaction Identifier (2 bytes)
/// - Protocol Identifier (2 bytes, always 0)
/// - Length (2 bytes: the number of remaining bytes, i.e. Unit Identifier + PDU)
/// - Unit Identifier (1 byte)
///
/// # Arguments
/// * `transaction_id` - A unique transaction identifier for matching requests/replies.
/// * `unit_id` - The unit identifier of the remote slave device.
/// * `pdu` - The [`ModbusRequest`] PDU struct.
///
/// # Returns
/// A vector of bytes containing the complete Modbus TCP frame.
///
/// # Errors
/// Returns a [`ModbusError`] if the request cannot be serialized.
pub fn build_modbus_tcp_adu(transaction_id: u16, unit_id: u8, pdu: &ModbusRequest) -> (result:
    Result<Vec<u8>, ModbusError>)
    ensures
        match pdu@.encoding_obstacle() {
            None => result matches Ok(adu) && adu@ == framed(
                transaction_id,
                0,
                unit_id,
                pdu@.encoded(),
            ),
            Some(message) => result matches Err(e) && e@ == ErrorView::ValidationError(message),
        },
{
    match serialize_modbus_request(pdu) {
        Ok(bytes) => build_modbus_tcp_adu_from_pdu_bytes(transaction_id, unit_id, &bytes),
        Err(e) => Err(e),
    }
}

/// The length field of a frame counts exactly the bytes that follow it, and
/// every header field reads as it was written.
pub proof fn header_fields_read_back(
    transaction_id: u16,
    protocol_id: u16,
    unit_id: u8,
    pdu: Seq<u8>,
)
    requires
        1 + pdu.len() <= 0xFFFF,
    ensures
        ({
            let adu = framed(transaction_id, protocol_id, unit_id, pdu);
            &&& adu.len() == MBAP_HEADER_LEN + pdu.len()
            &&& big_endian::be_word(adu[0], adu[1]) == transaction_id
            &&& big_endian::be_word(adu[2], adu[3]) == protocol_id
            &&& big_endian::be_word(adu[4], adu[5]) == adu.len() - 6
            &&& adu[6] == unit_id
            &&& adu.skip(MBAP_HEADER_LEN as int) == pdu
        }),
{
    let adu = framed(transaction_id, protocol_id, unit_id, pdu);
    big_endian::word_of_its_bytes(transaction_id);
    big_endian::word_of_its_bytes(protocol_id);
    big_endian::word_of_its_bytes((1 + pdu.len()) as u16);
    assert(adu.skip(MBAP_HEADER_LEN as int) =~= pdu);
}

/// The frame of a request that keeps to the limits is accepted by the rules on
/// received frames too: its header is well formed and it is not too long.
pub proof fn valid_request_frame_is_well_formed(
    transaction_id: u16,
    unit_id: u8,
    request: RequestView,
)
    requires
        request.valid(),
    ensures
        ({
            let adu = framed(transaction_id, 0, unit_id, request.encoded());
            &&& adu.len() <= MAX_MODBUS_TCP_FRAME
            &&& frame::body_len_of(adu) == Ok::<nat, ErrorView>(request.encoded().len())
        }),
{
    header_fields_read_back(transaction_id, 0, unit_id, request.encoded());
}

/// A frame, byte by byte: the transaction identifier, the protocol identifier and the
/// length with their high bytes first, the unit identifier, and then the PDU as it is.
/// The length is that of everything after it.
pub proof fn frame_fields_lie_in_place(
    transaction_id: u16,
    protocol_id: u16,
    unit_id: u8,
    pdu: Seq<u8>,
)
    requires
        1 + pdu.len() <= 65535,
    ensures
        ({
            let adu = framed(transaction_id, protocol_id, unit_id, pdu);
            &&& adu.len() == 7 + pdu.len()
            &&& 256 * adu[0] + adu[1] == transaction_id
            &&& 256 * adu[2] + adu[3] == protocol_id
            &&& 256 * adu[4] + adu[5] == adu.len() - 6
            &&& adu[6] == unit_id
            &&& forall|i: int| 0 <= i < pdu.len() ==> adu[7 + i] == #[trigger] pdu[i]
        }),
{
}

/// A frame that is built around a PDU too long for the length field differs in the
/// length field alone: everything else lies where it lies in every frame.
pub proof fn long_frame_keeps_its_fields(
    transaction_id: u16,
    protocol_id: u16,
    unit_id: u8,
    pdu: Seq<u8>,
)
    ensures
        ({
            let adu = framed(transaction_id, protocol_id, unit_id, pdu);
            &&& adu.len() == 7 + pdu.len()
            &&& 256 * adu[0] + adu[1] == transaction_id
            &&& 256 * adu[2] + adu[3] == protocol_id
            &&& adu[6] == unit_id
            &&& forall|i: int| 0 <= i < pdu.len() ==> adu[7 + i] == #[trigger] pdu[i]
        }),
{
}

} // verus!
