//! Frames of a mock server.

use vstd::prelude::*;

use crate::big_endian::{self, push_be, word_of_be};
use crate::error::{ErrorView, ModbusError};
use crate::request::{serialize_modbus_request, ModbusRequest};
use crate::tcp::adu::{self, build_modbus_tcp_adu};
use crate::tcp::frame::MBAP_HEADER_LEN;

verus! {

/// A request as a server received it.
#[derive(Debug, PartialEq, Eq)]
pub struct CapturedRequest {
    /// Transaction identifier of the header.
    pub transaction_id: u16,
    /// Protocol identifier of the header.
    pub protocol_id: u16,
    /// Unit identifier of the header.
    pub unit_id: u8,
    /// The PDU.
    pub pdu: Vec<u8>,
}

impl Clone for CapturedRequest {
    fn clone(&self) -> (copy: CapturedRequest)
        ensures
            copy.transaction_id == self.transaction_id,
            copy.protocol_id == self.protocol_id,
            copy.unit_id == self.unit_id,
            copy.pdu@ == self.pdu@,
    {
        CapturedRequest {
            transaction_id: self.transaction_id,
            protocol_id: self.protocol_id,
            unit_id: self.unit_id,
            pdu: self.pdu.clone(),
        }
    }
}

/// Builds a frame with any protocol identifier. The length field holds the lower
/// sixteen bits of the length.
pub fn build_protocol_mismatch_frame(
    transaction_id: u16,
    protocol_id: u16,
    unit_id: u8,
    pdu: &[u8],
) -> (frame: Vec<u8>)
    requires
        pdu@.len() < usize::MAX,
    ensures
        frame@ == adu::framed(transaction_id, protocol_id, unit_id, pdu@),
{
    let mut frame: Vec<u8> = Vec::new();
    push_be(&mut frame, transaction_id);
    push_be(&mut frame, protocol_id);
    push_be(&mut frame, (1 + pdu.len()) as u16);
    frame.push(unit_id);
    frame.extend_from_slice(pdu);
    assert(frame@ =~= adu::framed(transaction_id, protocol_id, unit_id, pdu@));
    frame
}

/// Builds a response frame.
pub fn build_tcp_response_frame(transaction_id: u16, unit_id: u8, pdu: &[u8]) -> (frame: Vec<u8>)
    requires
        pdu@.len() < usize::MAX,
    ensures
        frame@ == adu::framed(transaction_id, 0, unit_id, pdu@),
{
    build_protocol_mismatch_frame(transaction_id, 0, unit_id, pdu)
}

/// Builds the frame of an exception response to the function code `function`.
pub fn build_exception_response_frame(
    transaction_id: u16,
    unit_id: u8,
    function: u8,
    code: u8,
) -> (frame: Vec<u8>)
    ensures
        frame@ == adu::framed(transaction_id, 0, unit_id, seq![function | 0x80u8, code]),
{
    let pdu = [function | 0x80u8, code];
    assert(pdu@ =~= seq![function | 0x80u8, code]);
    build_tcp_response_frame(transaction_id, unit_id, &pdu)
}

/// Builds a request frame.
///
/// # Errors
///
/// Returns a [`ModbusError`] if the request cannot be serialized.
pub fn build_request_frame(transaction_id: u16, unit_id: u8, request: &ModbusRequest) -> (result:
    Result<Vec<u8>, ModbusError>)
    ensures
        match request@.encoding_obstacle() {
            None => result matches Ok(frame) && frame@ == adu::framed(
                transaction_id,
                0,
                unit_id,
                request@.encoded(),
            ),
            Some(message) => result matches Err(e) && e@ == ErrorView::ValidationError(message),
        },
{
    build_modbus_tcp_adu(transaction_id, unit_id, request)
}

/// The PDU of a request.
///
/// # Errors
///
/// Returns a [`ModbusError`] if the request cannot be serialized.
pub fn serialized_request_pdu(request: &ModbusRequest) -> (result: Result<Vec<u8>, ModbusError>)
    ensures
        match request@.encoding_obstacle() {
            None => result matches Ok(pdu) && pdu@ == request@.encoded(),
            Some(message) => result matches Err(e) && e@ == ErrorView::ValidationError(message),
        },
{
    serialize_modbus_request(request)
}

/// The number of bytes of the PDU after the header `header` of a request.
pub open spec fn announced_pdu_len(header: Seq<u8>) -> int {
    let length = big_endian::be_word(header[4], header[5]);
    if length == 0 {
        0
    } else {
        length - 1
    }
}

/// The number of bytes of the PDU after the header `header` of a request.
pub fn request_pdu_len(header: [u8; MBAP_HEADER_LEN]) -> (len: usize)
    ensures
        len == announced_pdu_len(header@),
{
    let length: u16 = word_of_be(header[4], header[5]);
    if length == 0 {
        0
    } else {
        (length - 1) as usize
    }
}

/// The request with the given header and PDU.
pub fn read_request_frame(header: [u8; MBAP_HEADER_LEN], pdu: Vec<u8>) -> (request: CapturedRequest)
    ensures
        request.transaction_id == big_endian::be_word(header@[0], header@[1]),
        request.protocol_id == big_endian::be_word(header@[2], header@[3]),
        request.unit_id == header@[6],
        request.pdu@ == pdu@,
{
    CapturedRequest {
        transaction_id: word_of_be(header[0], header[1]),
        protocol_id: word_of_be(header[2], header[3]),
        unit_id: header[6],
        pdu,
    }
}

/// A frame announces exactly the PDU that it carries.
pub proof fn announced_pdu_is_carried(
    transaction_id: u16,
    protocol_id: u16,
    unit_id: u8,
    pdu: Seq<u8>,
)
    requires
        1 + pdu.len() <= 0xFFFF,
    ensures
        announced_pdu_len(adu::framed(transaction_id, protocol_id, unit_id, pdu)) == pdu.len(),
{
    adu::header_fields_read_back(transaction_id, protocol_id, unit_id, pdu);
}

/// A header announces one byte less than its length field says, the unit identifier
/// being part of the header already, and nothing where the field is zero.
pub proof fn header_announces_the_rest(header: Seq<u8>)
    requires
        header.len() >= 6,
    ensures
        ({
            let length = 256 * header[4] + header[5];
            &&& length > 0 ==> announced_pdu_len(header) == length - 1
            &&& length == 0 ==> announced_pdu_len(header) == 0
        }),
{
}

} // verus!
