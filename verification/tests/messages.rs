use std::sync::Arc;

use ferrobus::error::{io_errors_equal, IoError, IoErrorKind};
use ferrobus::request::{validate_quantity, validate_values_len};
use ferrobus::response::{deserialize_modbus_response, parse_registers, unpack_bits};
use ferrobus::tcp::codec::MbapCodecError;
use ferrobus::text::{
    push_boolean, push_boolean_list, push_decimal, push_hex, push_number_list,
};
use ferrobus::{ModbusError, ModbusRequest, ModbusResponse, WordOrder};

fn io_error(message: &str) -> Arc<IoError> {
    Arc::new(IoError::new(IoErrorKind::Other, message))
}

#[test]
fn numbers_are_rendered_like_the_formatter_does() {
    for n in [0u64, 7, 10, 99, 100, 65_535, u64::MAX] {
        let mut text = String::new();
        push_decimal(&mut text, n);
        assert_eq!(text, format!("{n}"));
    }
    for n in [0u16, 1, 0xAB, 0xFF00, 0xFFFF] {
        let mut text = String::from("0x");
        push_hex(&mut text, u64::from(n), 4);
        assert_eq!(text, format!("{n:#06x}"));
    }
    for n in [0u8, 9, 0x0A, 0x81, 0xFF] {
        let mut text = String::from("0x");
        push_hex(&mut text, u64::from(n), 2);
        assert_eq!(text, format!("{n:#04x}"));
    }
}

#[test]
fn lists_are_rendered_like_the_formatter_does() {
    for items in [vec![], vec![true], vec![true, false, true]] {
        let mut text = String::new();
        push_boolean_list(&mut text, &items);
        assert_eq!(text, format!("{items:?}"));
    }
    for items in [vec![], vec![7u16], vec![0, 1, 65_535]] {
        let mut text = String::new();
        push_number_list(&mut text, &items);
        assert_eq!(text, format!("{items:?}"));
    }
    let mut text = String::new();
    push_boolean(&mut text, false);
    assert_eq!(text, "false");
}

#[test]
fn every_error_has_its_message() {
    let cases = [
        (
            ModbusError::ConnectError(io_error("refused")),
            "TCP connect error: refused",
        ),
        (ModbusError::ConnectTimeout, "TCP connect timed out"),
        (
            ModbusError::WriteError(io_error("broken pipe")),
            "TCP write error: broken pipe",
        ),
        (ModbusError::WriteTimeout, "TCP write timed out"),
        (
            ModbusError::ReadError(io_error("reset")),
            "TCP read error: reset",
        ),
        (ModbusError::ReadTimeout, "TCP read timed out"),
        (ModbusError::QueueTimeout, "Modbus request queue timed out"),
        (
            ModbusError::MalformedResponse("short".to_string()),
            "Malformed response: short",
        ),
        (
            ModbusError::DeserializationError("odd".to_string()),
            "Deserialization error: odd",
        ),
        (
            ModbusError::ExceptionResponse {
                function: 0x83,
                code: 0x02,
            },
            "Modbus exception response: function 0x83, code 0x02",
        ),
        (
            ModbusError::TransactionIdMismatch {
                expected: 1,
                actual: 65_535,
            },
            "Transaction ID mismatch: sent 1, received 65535",
        ),
        (
            ModbusError::ProtocolIdMismatch { actual: 7 },
            "Protocol ID mismatch: expected 0, received 7",
        ),
        (
            ModbusError::NoFreeTransactionId,
            "no free Modbus transaction id available",
        ),
        (
            ModbusError::UnitIdMismatch {
                expected: 1,
                actual: 2,
            },
            "Unit ID mismatch: expected 1, received 2",
        ),
        (
            ModbusError::RequestResponseMismatch("other".to_string()),
            "Request/response mismatch: other",
        ),
        (
            ModbusError::ValidationError("zero".to_string()),
            "Validation error: zero",
        ),
    ];
    for (error, message) in &cases {
        assert_eq!(error.to_string(), *message);
        assert_eq!(error.clone(), *error);
    }
    for (i, (lhs, _)) in cases.iter().enumerate() {
        for (j, (rhs, _)) in cases.iter().enumerate() {
            assert_eq!(lhs == rhs, i == j);
        }
    }
}

#[test]
fn system_codes_do_not_take_part_in_equality() {
    let plain = IoError::new(IoErrorKind::ConnectionReset, "reset");
    let with_code = IoError {
        raw_os_error: Some(104),
        ..plain.clone()
    };

    assert!(io_errors_equal(&plain, &with_code));
    assert_eq!(
        ModbusError::ReadError(Arc::new(plain)),
        ModbusError::ReadError(Arc::new(with_code.clone()))
    );
    match ModbusError::ReadError(Arc::new(with_code)).clone() {
        ModbusError::ReadError(error) => assert_eq!(error.raw_os_error, Some(104)),
        other => panic!("expected ReadError, got {other:?}"),
    }
}

#[test]
fn codec_errors_have_their_messages() {
    assert_eq!(
        MbapCodecError::from(IoError::new(IoErrorKind::BrokenPipe, "broken pipe")).to_string(),
        "socket I/O error: broken pipe"
    );
    assert_eq!(
        MbapCodecError::from(ModbusError::ReadTimeout).to_string(),
        "TCP read timed out"
    );
}

#[test]
fn quantity_messages_name_the_limit() {
    assert_eq!(
        validate_quantity("ReadCoils", 2001, 2000),
        Err(ModbusError::ValidationError(
            "ReadCoils quantity must be 1-2000, got 2001".to_string()
        ))
    );
    assert_eq!(validate_quantity("ReadCoils", 2000, 2000), Ok(()));
    assert_eq!(validate_values_len("Many", 5, 10), Ok(5));
    assert_eq!(
        validate_values_len("Many", 70_000, 10),
        Err(ModbusError::ValidationError(
            "Many quantity must be 1-10, got 70000".to_string()
        ))
    );
}

#[test]
fn limits_are_inclusive() {
    for (request, valid) in [
        (
            ModbusRequest::ReadCoils {
                starting_address: 0,
                quantity: 2000,
            },
            true,
        ),
        (
            ModbusRequest::ReadInputRegisters {
                starting_address: 0,
                quantity: 126,
            },
            false,
        ),
        (
            ModbusRequest::WriteMultipleCoils {
                starting_address: 0,
                values: vec![true; 1968],
            },
            true,
        ),
        (
            ModbusRequest::WriteMultipleRegisters {
                starting_address: 0,
                values: vec![1; 123],
            },
            true,
        ),
        (
            ModbusRequest::WriteMultipleRegisters {
                starting_address: 0,
                values: vec![1; 124],
            },
            false,
        ),
    ] {
        assert_eq!(request.validate().is_ok(), valid);
        if let Ok(pdu) = request.serialize() {
            assert!(valid);
            assert!(pdu.len() <= 252);
        }
    }
}

#[test]
fn deserialization_messages_are_exact() {
    let cases: [(&[u8], &str); 10] = [
        (&[], "Empty response"),
        (&[1], "Invalid response: expected at least 2 bytes, got 1"),
        (&[1, 2, 0], "Response length 3 does not match byte count 4"),
        (&[3, 1, 0], "Byte count is not even for register data"),
        (
            &[5, 0, 1],
            "Invalid Write Single Coil response: expected 5 bytes, got 3",
        ),
        (
            &[5, 0, 1, 0x12, 0x34],
            "Invalid coil value in Write Single Coil response: 0x1234",
        ),
        (
            &[6],
            "Invalid Write Single Register response: expected 5 bytes, got 1",
        ),
        (
            &[16, 0],
            "Invalid Write Multiple Registers response: expected 5 bytes, got 2",
        ),
        (&[0x83], "Invalid Exception response length"),
        (&[0x7F, 1], "Unsupported function code: 127"),
    ];
    for (bytes, message) in cases {
        assert_eq!(
            ModbusResponse::deserialize(bytes),
            Err(ModbusError::DeserializationError(message.to_string()))
        );
    }
}

#[test]
fn mismatch_messages_are_exact() {
    let read = ModbusRequest::ReadCoils {
        starting_address: 1,
        quantity: 3,
    };
    let short = ModbusResponse::ReadCoils {
        coils: vec![true, false],
    };
    assert_eq!(
        short.align_to_request(&read),
        Err(ModbusError::RequestResponseMismatch(
            "ReadCoils: requested 3 coils but got 2".to_string()
        ))
    );

    let write = ModbusRequest::WriteSingleCoil {
        address: 5,
        value: true,
    };
    assert_eq!(
        ModbusResponse::WriteSingleCoil {
            address: 6,
            value: false
        }
        .align_to_request(&write),
        Err(ModbusError::RequestResponseMismatch(
            "WriteSingleCoil: wrote address 5 value true but server echoed address 6 value false"
                .to_string()
        ))
    );

    let many = ModbusRequest::WriteMultipleRegisters {
        starting_address: 5,
        values: vec![1, 2],
    };
    assert_eq!(
        ModbusResponse::WriteMultipleRegisters {
            starting_address: 5,
            quantity: 3
        }
        .align_to_request(&many),
        Err(ModbusError::RequestResponseMismatch(
            "WriteMultipleRegisters: wrote address 5 quantity 2 but server acknowledged address 5 quantity 3"
                .to_string()
        ))
    );
}

#[test]
fn foreign_responses_are_shown_in_full() {
    let requests = [
        ModbusRequest::ReadCoils {
            starting_address: 1,
            quantity: 2,
        },
        ModbusRequest::ReadDiscreteInputs {
            starting_address: 1,
            quantity: 2,
        },
        ModbusRequest::ReadHoldingRegisters {
            starting_address: 1,
            quantity: 2,
        },
        ModbusRequest::ReadInputRegisters {
            starting_address: 1,
            quantity: 2,
        },
        ModbusRequest::WriteSingleCoil {
            address: 3,
            value: true,
        },
        ModbusRequest::WriteSingleRegister {
            address: 3,
            value: 9,
        },
        ModbusRequest::WriteMultipleCoils {
            starting_address: 1,
            values: vec![true, false],
        },
        ModbusRequest::WriteMultipleRegisters {
            starting_address: 1,
            values: vec![10, 20],
        },
    ];
    let responses = [
        ModbusResponse::ReadCoils {
            coils: vec![true, false],
        },
        ModbusResponse::ReadDiscreteInputs {
            inputs: vec![false],
        },
        ModbusResponse::ReadHoldingRegisters {
            registers: vec![1, 2],
        },
        ModbusResponse::ReadInputRegisters { registers: vec![] },
        ModbusResponse::WriteSingleCoil {
            address: 3,
            value: true,
        },
        ModbusResponse::WriteSingleRegister {
            address: 3,
            value: 9,
        },
        ModbusResponse::WriteMultipleCoils {
            starting_address: 1,
            quantity: 2,
        },
        ModbusResponse::WriteMultipleRegisters {
            starting_address: 1,
            quantity: 2,
        },
    ];
    for (i, request) in requests.iter().enumerate() {
        for (j, response) in responses.iter().enumerate() {
            if i != j {
                assert_eq!(
                    response.clone().align_to_request(request),
                    Err(ModbusError::RequestResponseMismatch(format!(
                        "Request/response mismatch: got {response:?} for {request:?}"
                    )))
                );
            }
        }
    }
    let mut text = String::new();
    ModbusResponse::Exception {
        function: 0x83,
        code: 2,
    }
    .push_debug(&mut text);
    assert_eq!(text, "Exception { function: 131, code: 2 }");
}

#[test]
fn bits_are_cut_to_the_count() {
    assert_eq!(
        ModbusResponse::deserialize_with_count(&[1, 1, 0b101], 3),
        Ok(ModbusResponse::ReadCoils {
            coils: vec![true, false, true]
        })
    );
    assert_eq!(
        unpack_bits(&[2, 1, 0xFF], 2, Some(100)),
        Ok((1, vec![true; 8]))
    );
    assert_eq!(
        deserialize_modbus_response(&[3, 2, 1, 2], Some(1)),
        Ok(ModbusResponse::ReadHoldingRegisters {
            registers: vec![0x0102]
        })
    );
    assert_eq!(parse_registers(&[4, 4, 0, 1, 0, 2, 9], 2), Ok(vec![1, 2]));
}

#[test]
fn word_order_errors_have_their_message() {
    let error = WordOrder::BigEndian.decode_u64_block(&[1, 2, 3]).unwrap_err();

    assert_eq!(
        error.to_string(),
        "register block length 3 is not a multiple of 4 (for u64)"
    );
    assert_eq!(error.clone(), error);
}
