use bytes::BytesMut;
use ferrobus::request::pack_coils;
use ferrobus::response::unpack_bits;
use ferrobus::tcp::actor::{Action, Actor, PendingEntry};
use ferrobus::tcp::adu::{build_modbus_tcp_adu, build_modbus_tcp_adu_from_pdu_bytes};
use ferrobus::tcp::codec::MbapCodec;
use ferrobus::tcp::tcp_connection::interpret_frame;
use ferrobus::tcp::{ModbusTcpFlowControl, ModbusTcpTimeouts};
use ferrobus::test_support::build_tcp_response_frame;
use ferrobus::time::Instant;
use ferrobus::word_order::{Float32, Float64};
use ferrobus::{ModbusError, ModbusRequest, ModbusResponse, WordOrder};

fn write_requests() -> Vec<ModbusRequest> {
    vec![
        ModbusRequest::WriteSingleCoil {
            address: 0x0102,
            value: true,
        },
        ModbusRequest::WriteSingleRegister {
            address: 0xFFFF,
            value: 0xABCD,
        },
        ModbusRequest::WriteMultipleCoils {
            starting_address: 7,
            values: vec![true, false, true],
        },
        ModbusRequest::WriteMultipleRegisters {
            starting_address: 9,
            values: vec![1, 2, 3],
        },
    ]
}

#[test]
fn packed_coils_unpack_to_themselves() {
    for len in [1usize, 7, 8, 9, 16, 100] {
        let coils: Vec<bool> = (0..len).map(|i| i % 3 == 0).collect();
        let packed = pack_coils(&coils);
        let mut response = vec![1u8, packed.len() as u8];
        response.extend_from_slice(&packed);

        let (byte_count, bits) = unpack_bits(&response, 2, Some(len)).unwrap();

        assert_eq!(byte_count, len.div_ceil(8));
        assert_eq!(bits, coils);
    }
}

#[test]
fn echoed_writes_are_acknowledged() {
    for request in write_requests() {
        let pdu = request.serialize().unwrap();
        let frame = build_tcp_response_frame(3, 1, &pdu[..5]);

        assert!(interpret_frame(1, &request, &frame).is_ok());
    }
}

#[test]
fn aligning_again_changes_nothing() {
    let request = ModbusRequest::ReadCoils {
        starting_address: 0,
        quantity: 3,
    };
    let response = ModbusResponse::deserialize(&[1, 1, 0xFF]).unwrap();

    let once = response.align_to_request(&request).unwrap();
    let twice = once.clone().align_to_request(&request).unwrap();

    assert_eq!(
        once,
        ModbusResponse::ReadCoils {
            coils: vec![true; 3]
        }
    );
    assert_eq!(once, twice);
}

#[test]
fn frames_survive_any_cut() {
    let first = build_modbus_tcp_adu(
        1,
        1,
        &ModbusRequest::ReadCoils {
            starting_address: 0,
            quantity: 1,
        },
    )
    .unwrap();
    let second = build_modbus_tcp_adu_from_pdu_bytes(2, 1, &[0x83, 0x02]).unwrap();
    let mut stream = first.clone();
    stream.extend_from_slice(&second);

    for cut in 0..=stream.len() {
        let mut codec = MbapCodec;
        let mut buffer = BytesMut::new();
        let mut frames = Vec::new();
        for part in [&stream[..cut], &stream[cut..]] {
            codec.encode(part.to_vec(), &mut buffer).unwrap();
            while let Some(frame) = codec.decode(&mut buffer).unwrap() {
                frames.push(frame);
            }
        }
        assert_eq!(frames, vec![first.clone(), second.clone()]);
        assert!(buffer.is_empty());
    }
}

#[test]
fn a_malformed_header_leaves_the_buffer_alone() {
    let mut codec = MbapCodec;
    let mut buffer = BytesMut::from(&[0, 1, 0, 0, 0xFF, 0xFF, 1, 9][..]);

    assert!(codec.decode(&mut buffer).is_err());
    assert_eq!(&buffer[..], &[0, 1, 0, 0, 0xFF, 0xFF, 1, 9]);
}

#[test]
fn the_length_field_counts_what_follows() {
    for request in write_requests() {
        let adu = build_modbus_tcp_adu(9, 4, &request).unwrap();
        let length = usize::from(u16::from_be_bytes([adu[4], adu[5]]));

        assert_eq!(length, adu.len() - 6);
        assert!(adu.len() <= 260);
    }
}

#[test]
fn an_adu_that_is_too_long_is_rejected() {
    assert_eq!(
        build_modbus_tcp_adu_from_pdu_bytes(1, 1, &vec![0; 65_535]),
        Err(ModbusError::ValidationError(
            "Modbus TCP ADU length is too large: 65536".to_string()
        ))
    );
    assert!(build_modbus_tcp_adu_from_pdu_bytes(1, 1, &vec![0; 65_534]).is_ok());
}

#[test]
fn little_endian_is_big_endian_reversed() {
    let regs = [0x1111u16, 0x2222, 0x3333, 0x4444];
    let reversed = [0x4444u16, 0x3333, 0x2222, 0x1111];

    assert_eq!(
        WordOrder::LittleEndian.decode_u64(regs),
        WordOrder::BigEndian.decode_u64(reversed)
    );
    assert_eq!(
        WordOrder::LittleEndian.decode_u32([1, 2]),
        WordOrder::BigEndian.decode_u32([2, 1])
    );
}

#[test]
fn float_payloads_survive() {
    let nan = WordOrder::BigEndian.decode_f32([0x7FC0, 0x1234]);
    assert_eq!(nan.to_bits(), 0x7FC0_1234);
    assert!(f32::from_bits(nan.to_bits()).is_nan());

    let negative_zero = WordOrder::LittleEndian.decode_f64([0, 0, 0, 0x8000]);
    assert_eq!(negative_zero.to_bits(), 0x8000_0000_0000_0000);
    assert_eq!(f64::from_bits(negative_zero.to_bits()), 0.0);
}

#[test]
fn signed_values_are_twos_complement() {
    assert_eq!(WordOrder::BigEndian.decode_i32([0x8000, 0x0000]), i32::MIN);
    assert_eq!(WordOrder::BigEndian.decode_i32([0x7FFF, 0xFFFF]), i32::MAX);
    assert_eq!(
        WordOrder::LittleEndian.decode_i64([0, 0, 0, 0x8000]),
        i64::MIN
    );
    assert_eq!(
        WordOrder::BigEndian.decode_i64_block(&[0, 0, 0, 5, 0xFFFF, 0xFFFF, 0xFFFF, 0xFFFE]),
        Ok(vec![5, -2])
    );
}

#[test]
fn responses_answer_only_their_own_request() {
    let mut actor = Actor::new(
        "h".to_string(),
        502,
        ModbusTcpTimeouts::default(),
        ModbusTcpFlowControl::default(),
        0,
    );
    for tid in 0..5u16 {
        actor.pending.insert(
            tid,
            PendingEntry {
                waiter: u64::from(tid) + 10,
                response_deadline: Instant::from_nanos(1),
            },
        );
    }
    let frame = build_tcp_response_frame(3, 1, &[0x03, 0x02, 0x00, 0x01]);

    let actions = actor.route_frame(frame.clone());

    assert_eq!(actions.len(), 1);
    match &actions[0] {
        Action::Answer { waiter, outcome } => {
            assert_eq!(*waiter, 13);
            assert_eq!(*outcome, Ok(frame));
        }
        other => panic!("expected Answer, got {other:?}"),
    }
    assert_eq!(actor.pending.len(), 4);
    assert!(!actor.pending.contains_key(&3));
}

#[test]
fn different_requests_have_different_pdus() {
    let pdus: Vec<Vec<u8>> = write_requests()
        .iter()
        .map(|request| request.serialize().unwrap())
        .collect();
    for i in 0..pdus.len() {
        for j in 0..i {
            assert_ne!(pdus[i], pdus[j]);
        }
    }
}

#[test]
fn floats_compare_as_numbers() {
    let narrow = [
        0.0f32,
        -0.0,
        1.0,
        -1.0,
        f32::MIN_POSITIVE,
        f32::INFINITY,
        f32::NEG_INFINITY,
        f32::NAN,
        f32::from_bits(0xFF80_0001),
    ];
    for lhs in narrow {
        for rhs in narrow {
            assert_eq!(
                Float32::from_bits(lhs.to_bits()) == Float32::from_bits(rhs.to_bits()),
                lhs == rhs
            );
        }
    }
    let wide = [
        0.0f64,
        -0.0,
        1.0,
        -1.0,
        f64::MIN_POSITIVE,
        f64::INFINITY,
        f64::NEG_INFINITY,
        f64::NAN,
        f64::from_bits(0x7FF0_0000_0000_0001),
    ];
    for lhs in wide {
        for rhs in wide {
            assert_eq!(
                Float64::from_bits(lhs.to_bits()) == Float64::from_bits(rhs.to_bits()),
                lhs == rhs
            );
        }
    }
}
