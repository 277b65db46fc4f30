//! MBAP codec used by the connection actor.

use bytes::BytesMut;
use vstd::prelude::*;
use vstd::slice::slice_to_vec;

use crate::error::{ErrorView, IoError, IoErrorView, ModbusError};
use crate::tcp::frame::{self, response_body_len_from_header, MBAP_HEADER_LEN};

verus! {

/// The growable byte buffer of the `bytes` crate.
#[verifier::external_type_specification]
#[verifier::external_body]
pub struct ExBytesMut(BytesMut);

/// The bytes that a [`BytesMut`] holds.
pub uninterp spec fn buffered(buffer: BytesMut) -> Seq<u8>;

/// `BytesMut::as_ref` gives the bytes that the buffer holds.
#[verifier::external_body]
fn bytes_of(buffer: &BytesMut) -> (bytes: &[u8])
    ensures
        bytes@ == buffered(*buffer),
{
    buffer.as_ref()
}

/// `BytesMut::split_to` takes the first `at` bytes out of the buffer and leaves the rest
/// in it. It panics where there are fewer.
pub assume_specification[ BytesMut::split_to ](buffer: &mut BytesMut, at: usize) -> (front:
    BytesMut)
    requires
        at <= buffered(*old(buffer)).len(),
    ensures
        buffered(front) == buffered(*old(buffer)).take(at as int),
        buffered(*final(buffer)) == buffered(*old(buffer)).skip(at as int),
;

/// `BytesMut::reserve` makes room for `additional` bytes and keeps the contents. It panics
/// where the capacity would be larger than an allocation can be.
pub assume_specification[ BytesMut::reserve ](buffer: &mut BytesMut, additional: usize)
    requires
        buffered(*old(buffer)).len() + additional <= isize::MAX,
    ensures
        buffered(*final(buffer)) == buffered(*old(buffer)),
;

/// `BytesMut::extend_from_slice` appends `extend` to the contents. It panics where the
/// capacity would be larger than an allocation can be.
pub assume_specification[ BytesMut::extend_from_slice ](buffer: &mut BytesMut, extend: &[u8])
    requires
        buffered(*old(buffer)).len() + extend@.len() <= isize::MAX,
    ensures
        buffered(*final(buffer)) == buffered(*old(buffer)) + extend@,
;

/// Error emitted by the MBAP codec.
#[derive(Debug)]
pub enum MbapCodecError {
    /// The framed socket returned an I/O error.
    Io(IoError),
    /// The codec detected a Modbus protocol error while decoding a frame.
    Modbus(ModbusError),
}

/// Model of a [`MbapCodecError`].
pub ghost enum CodecErrorView {
    Io(IoErrorView),
    Modbus(ErrorView),
}

impl View for MbapCodecError {
    type V = CodecErrorView;

    open spec fn view(&self) -> CodecErrorView {
        match self {
            MbapCodecError::Io(e) => CodecErrorView::Io(e@),
            MbapCodecError::Modbus(e) => CodecErrorView::Modbus(e@),
        }
    }
}

impl MbapCodecError {
    /// The error's message.
    pub fn to_string(&self) -> (text: String)
        ensures
            text@ == match self@ {
                CodecErrorView::Io(e) => "socket I/O error: "@ + e.message,
                CodecErrorView::Modbus(e) => e.text(),
            },
    {
        match self {
            MbapCodecError::Io(e) => {
                let mut text = "socket I/O error: ".to_owned();
                text.append(e.message.as_str());
                text
            },
            MbapCodecError::Modbus(e) => e.to_string(),
        }
    }
}

impl vstd::std_specs::convert::FromSpecImpl<IoError> for MbapCodecError {
    open spec fn obeys_from_spec() -> bool {
        true
    }

    open spec fn from_spec(error: IoError) -> MbapCodecError {
        MbapCodecError::Io(error)
    }
}

impl From<IoError> for MbapCodecError {
    fn from(error: IoError) -> (wrapped: MbapCodecError) {
        MbapCodecError::Io(error)
    }
}

impl vstd::std_specs::convert::FromSpecImpl<ModbusError> for MbapCodecError {
    open spec fn obeys_from_spec() -> bool {
        true
    }

    open spec fn from_spec(error: ModbusError) -> MbapCodecError {
        MbapCodecError::Modbus(error)
    }
}

impl From<ModbusError> for MbapCodecError {
    fn from(error: ModbusError) -> (wrapped: MbapCodecError) {
        MbapCodecError::Modbus(error)
    }
}

/// Codec for complete Modbus TCP ADU frames.
#[derive(Debug, Default, Clone, Copy)]
pub struct MbapCodec;

/// The length of the frame that `bytes` begin with: `None` as long as the frame
/// is not complete, an error where its header is malformed.
pub open spec fn first_frame_len(bytes: Seq<u8>) -> Result<Option<nat>, ErrorView> {
    if bytes.len() < MBAP_HEADER_LEN {
        Ok(None)
    } else {
        match frame::body_len_of(bytes) {
            Ok(body_len) => if bytes.len() < MBAP_HEADER_LEN + body_len {
                Ok(None)
            } else {
                Ok(Some(MBAP_HEADER_LEN as nat + body_len))
            },
            Err(e) => Err(e),
        }
    }
}

/// The seven bytes of a header.
fn header_of(bytes: &[u8]) -> (header: [u8; MBAP_HEADER_LEN])
    requires
        bytes@.len() >= MBAP_HEADER_LEN,
    ensures
        header@ == bytes@.take(MBAP_HEADER_LEN as int),
{
    let header = [bytes[0], bytes[1], bytes[2], bytes[3], bytes[4], bytes[5], bytes[6]];
    assert(header@ =~= bytes@.take(MBAP_HEADER_LEN as int));
    header
}

impl MbapCodec {
    /// Decodes one full Modbus TCP response frame from the input buffer.
    ///
    /// A frame that is complete is taken out of the buffer; in every other case
    /// the buffer stays as it is.
    ///
    /// # Errors
    ///
    /// Returns the [`ModbusError::MalformedResponse`] of a malformed header.
    pub fn decode(&mut self, src: &mut BytesMut) -> (result: Result<
        Option<Vec<u8>>,
        MbapCodecError,
    >)
        ensures
            match first_frame_len(buffered(*old(src))) {
                Ok(Some(len)) => {
                    &&& result matches Ok(Some(frame)) && frame@ == buffered(*old(src)).take(
                        len as int,
                    )
                    &&& buffered(*final(src)) == buffered(*old(src)).skip(len as int)
                },
                Ok(None) => {
                    &&& result matches Ok(None)
                    &&& buffered(*final(src)) == buffered(*old(src))
                },
                Err(error) => {
                    &&& result matches Err(e) && e@ == CodecErrorView::Modbus(error)
                    &&& buffered(*final(src)) == buffered(*old(src))
                },
            },
    {
        let available: usize = bytes_of(src).len();
        if available < MBAP_HEADER_LEN {
            return Ok(None);
        }
        let header = header_of(bytes_of(src));
        let body_len: usize = match response_body_len_from_header(header) {
            Ok(body_len) => body_len,
            Err(e) => return Err(MbapCodecError::from(e)),
        };
        let frame_len: usize = MBAP_HEADER_LEN + body_len;
        if available < frame_len {
            return Ok(None);
        }
        let front = src.split_to(frame_len);
        Ok(Some(slice_to_vec(bytes_of(&front))))
    }

    /// Encodes an already-built Modbus TCP ADU into the output buffer.
    ///
    /// # Errors
    ///
    /// Never fails.
    pub fn encode(&mut self, item: Vec<u8>, dst: &mut BytesMut) -> (result: Result<
        (),
        MbapCodecError,
    >)
        requires
            buffered(*old(dst)).len() + item@.len() <= isize::MAX,
        ensures
            result is Ok,
            buffered(*final(dst)) == buffered(*old(dst)) + item@,
    {
        dst.reserve(item.len());
        dst.extend_from_slice(&item);
        Ok(())
    }
}

/// What comes after a complete frame, or after a malformed header, changes
/// nothing of it: a stream is cut into the same frames however its bytes arrive.
pub proof fn later_bytes_do_not_matter(bytes: Seq<u8>, more: Seq<u8>)
    requires
        first_frame_len(bytes) != Ok::<Option<nat>, ErrorView>(None),
    ensures
        first_frame_len(bytes + more) == first_frame_len(bytes),
        first_frame_len(bytes) matches Ok(Some(len)) ==> (bytes + more).take(len as int)
            == bytes.take(len as int),
{
    if let Ok(Some(len)) = first_frame_len(bytes) {
        assert((bytes + more).take(len as int) =~= bytes.take(len as int));
    }
}

/// A frame that was encoded is what is decoded first, whatever follows it.
pub proof fn encoded_frame_is_decoded(
    transaction_id: u16,
    protocol_id: u16,
    unit_id: u8,
    pdu: Seq<u8>,
    rest: Seq<u8>,
)
    requires
        1 <= pdu.len() <= frame::MAX_MODBUS_TCP_FRAME - MBAP_HEADER_LEN,
    ensures
        ({
            let adu = crate::tcp::adu::framed(transaction_id, protocol_id, unit_id, pdu);
            &&& first_frame_len(adu + rest) == Ok::<Option<nat>, ErrorView>(Some(adu.len()))
            &&& (adu + rest).take(adu.len() as int) == adu
            &&& (adu + rest).skip(adu.len() as int) == rest
        }),
{
    let adu = crate::tcp::adu::framed(transaction_id, protocol_id, unit_id, pdu);
    crate::tcp::adu::header_fields_read_back(transaction_id, protocol_id, unit_id, pdu);
    assert((adu + rest).take(adu.len() as int) =~= adu);
    assert((adu + rest).skip(adu.len() as int) =~= rest);
}

/// As long as a part of a frame is missing, nothing is decoded.
pub proof fn partial_frame_is_not_decoded(
    transaction_id: u16,
    protocol_id: u16,
    unit_id: u8,
    pdu: Seq<u8>,
    received: int,
)
    requires
        1 <= pdu.len() <= frame::MAX_MODBUS_TCP_FRAME - MBAP_HEADER_LEN,
        0 <= received < MBAP_HEADER_LEN + pdu.len(),
    ensures
        first_frame_len(
            crate::tcp::adu::framed(transaction_id, protocol_id, unit_id, pdu).take(received),
        ) == Ok::<Option<nat>, ErrorView>(None),
{
    crate::tcp::adu::header_fields_read_back(transaction_id, protocol_id, unit_id, pdu);
}

/// A decoded frame holds a whole header and at least one byte of a PDU, and is
/// no longer than [`frame::MAX_MODBUS_TCP_FRAME`].
pub proof fn decoded_frame_is_complete(bytes: Seq<u8>)
    ensures
        first_frame_len(bytes) matches Ok(Some(len)) ==> MBAP_HEADER_LEN < len
            <= frame::MAX_MODBUS_TCP_FRAME && len <= bytes.len(),
{
}

/// A stream is cut by its length fields alone: seven bytes tell how long the frame is,
/// it is complete with six bytes and as many as the length field says, and a length
/// field that no frame can have is an error as soon as it is there.
pub proof fn frames_end_where_their_length_says(bytes: Seq<u8>)
    ensures
        bytes.len() < 7 ==> first_frame_len(bytes) == Ok::<Option<nat>, ErrorView>(None),
        bytes.len() >= 7 ==> {
            let length = 256 * bytes[4] + bytes[5];
            &&& first_frame_len(bytes) is Err <==> length < 2 || length > 254
            &&& first_frame_len(bytes) matches Err(e) ==> e is MalformedResponse
            &&& 2 <= length <= 254 && bytes.len() < 6 + length ==> first_frame_len(bytes) == Ok::<
                Option<nat>,
                ErrorView,
            >(None)
            &&& 2 <= length <= 254 && bytes.len() >= 6 + length ==> first_frame_len(bytes) == Ok::<
                Option<nat>,
                ErrorView,
            >(Some((6 + length) as nat))
        },
{
}

/// A malformed header is reported as what is wrong with it.
pub proof fn malformed_header_is_reported(bytes: Seq<u8>)
    requires
        bytes.len() >= 7,
        frame::body_len_of(bytes) is Err,
    ensures
        first_frame_len(bytes) == Err::<Option<nat>, ErrorView>(frame::body_len_of(bytes)->Err_0),
{
}

/// The model of a codec error shows which side it came from and the error itself.
pub proof fn codec_error_model_is_complete(io: IoError, modbus: ModbusError)
    ensures
        MbapCodecError::Io(io)@ == CodecErrorView::Io(io@),
        MbapCodecError::Modbus(modbus)@ == CodecErrorView::Modbus(modbus@),
{
}

} // verus!
