use bytes::BytesMut;
use ferrobus::tcp::codec::{MbapCodec, MbapCodecError};
use ferrobus::ModbusError;

#[test]
fn decode_buffers_partial_frames_until_complete() {
    let mut codec = MbapCodec;
    let mut source = BytesMut::from(&[0x00, 0x01, 0x00, 0x00, 0x00, 0x03, 0x11][..]);

    assert!(codec.decode(&mut source).unwrap().is_none());

    source.extend_from_slice(&[0x01, 0x02]);
    let frame = codec.decode(&mut source).unwrap().unwrap();

    assert_eq!(
        frame,
        vec![0x00, 0x01, 0x00, 0x00, 0x00, 0x03, 0x11, 0x01, 0x02]
    );
    assert!(source.is_empty());
}

#[test]
fn decode_rejects_malformed_mbap_length() {
    let mut codec = MbapCodec;
    let mut source = BytesMut::from(&[0x00, 0x01, 0x00, 0x00, 0x00, 0x00, 0x11][..]);

    let error = codec.decode(&mut source).unwrap_err();

    assert!(matches!(
        error,
        MbapCodecError::Modbus(ModbusError::MalformedResponse(_))
    ));
}

#[test]
fn encode_appends_already_built_adu() {
    let mut codec = MbapCodec;
    let mut destination = BytesMut::new();

    codec
        .encode(vec![0x00, 0x01, 0x00, 0x00], &mut destination)
        .unwrap();

    assert_eq!(&destination[..], &[0x00, 0x01, 0x00, 0x00]);
}
