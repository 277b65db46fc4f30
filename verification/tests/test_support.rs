use ferrobus::request::serialize_modbus_request;
use ferrobus::tcp::adu::build_modbus_tcp_adu;
use ferrobus::test_support::{
    build_exception_response_frame, build_request_frame, serialized_request_pdu,
};
use ferrobus::ModbusRequest;

#[test]
fn exception_frame_sets_exception_bit() {
    let frame = build_exception_response_frame(1, 2, 3, 4);

    assert_eq!(&frame[..7], &[0x00, 0x01, 0x00, 0x00, 0x00, 0x03, 0x02]);
    assert_eq!(&frame[7..], &[0x83, 0x04]);
}

#[test]
fn request_frame_matches_public_builder() {
    let request = ModbusRequest::ReadHoldingRegisters {
        starting_address: 0x0010,
        quantity: 2,
    };

    let frame = build_request_frame(0x1234, 0x11, &request);

    assert_eq!(frame, build_modbus_tcp_adu(0x1234, 0x11, &request));
}

#[test]
fn serialized_request_pdu_matches_request_serializer() {
    let request = ModbusRequest::WriteSingleRegister {
        address: 0x0010,
        value: 0x1234,
    };

    assert_eq!(
        serialized_request_pdu(&request),
        serialize_modbus_request(&request)
    );
}
