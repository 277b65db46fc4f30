use ferrobus::request::{pack_coils, serialize_modbus_request};
use ferrobus::{ModbusError, ModbusRequest};

#[test]
fn test_read_coils() {
    let pdu = ModbusRequest::ReadCoils {
        starting_address: 0x0010,
        quantity: 0x000A,
    };

    let expected = vec![1u8, 0x00, 0x10, 0x00, 0x0A];
    let result = pdu.serialize().unwrap();
    assert_eq!(result, expected);
}

#[test]
fn test_read_discrete_inputs() {
    let pdu = ModbusRequest::ReadDiscreteInputs {
        starting_address: 0x0020,
        quantity: 0x0005,
    };

    let expected = vec![2u8, 0x00, 0x20, 0x00, 0x05];
    let result = pdu.serialize().unwrap();
    assert_eq!(result, expected);
}

#[test]
fn test_read_holding_registers() {
    let pdu = ModbusRequest::ReadHoldingRegisters {
        starting_address: 0x0100,
        quantity: 0x0003,
    };

    let expected = vec![3u8, 0x01, 0x00, 0x00, 0x03];
    let result = pdu.serialize().unwrap();
    assert_eq!(result, expected);
}

#[test]
fn test_read_input_registers() {
    let pdu = ModbusRequest::ReadInputRegisters {
        starting_address: 0x00FF,
        quantity: 0x0001,
    };

    let expected = vec![4u8, 0x00, 0xFF, 0x00, 0x01];
    let result = pdu.serialize().unwrap();
    assert_eq!(result, expected);
}

#[test]
fn test_write_single_coil_on() {
    let pdu = ModbusRequest::WriteSingleCoil {
        address: 0x0010,
        value: true,
    };

    let expected = vec![5u8, 0x00, 0x10, 0xFF, 0x00];
    let result = pdu.serialize().unwrap();
    assert_eq!(result, expected);
}

#[test]
fn test_write_single_coil_off() {
    let pdu = ModbusRequest::WriteSingleCoil {
        address: 0x0010,
        value: false,
    };

    let expected = vec![5u8, 0x00, 0x10, 0x00, 0x00];
    let result = pdu.serialize().unwrap();
    assert_eq!(result, expected);
}

#[test]
fn test_write_single_register() {
    let pdu = ModbusRequest::WriteSingleRegister {
        address: 0x0010,
        value: 0x1234,
    };

    let expected = vec![6u8, 0x00, 0x10, 0x12, 0x34];
    let result = pdu.serialize().unwrap();
    assert_eq!(result, expected);
}

#[test]
fn test_write_multiple_coils() {
    let coils = vec![true, false, true, false, false, true];
    let pdu = ModbusRequest::WriteMultipleCoils {
        starting_address: 0x0001,
        values: coils,
    };

    let expected = vec![15u8, 0x00, 0x01, 0x00, 0x06, 0x01, 0x25];
    let result = pdu.serialize().unwrap();
    assert_eq!(result, expected);
}

#[test]
fn test_write_multiple_registers() {
    let values = vec![0x1111, 0x2222];
    let pdu = ModbusRequest::WriteMultipleRegisters {
        starting_address: 0x0001,
        values,
    };

    let expected = vec![16u8, 0x00, 0x01, 0x00, 0x02, 0x04, 0x11, 0x11, 0x22, 0x22];
    let result = pdu.serialize().unwrap();
    assert_eq!(result, expected);
}

#[test]
fn test_pack_coils_empty() {
    let bytes = pack_coils(&[]);
    assert!(bytes.is_empty());
}

#[test]
fn test_pack_coils_single_coil() {
    let bytes = pack_coils(&[true]);
    assert_eq!(bytes, &[0x01]);
}

#[test]
fn test_pack_coils_exactly_eight() {
    let coils = vec![true, false, true, false, true, false, true, false];
    let bytes = pack_coils(&coils);
    assert_eq!(bytes.len(), 1);
    assert_eq!(bytes[0], 0x55);
}

#[test]
fn test_pack_coils_nine_bits() {
    let coils = vec![true; 9];
    let bytes = pack_coils(&coils);
    assert_eq!(bytes.len(), 2);
    assert_eq!(bytes[0], 0xFF);
    assert_eq!(bytes[1], 0x01);
}

#[test]
fn test_pack_coils_alternating() {
    let bytes = pack_coils(&[
        true, false, true, false, true, false, true, false, true, false,
    ]);
    assert_eq!(bytes.len(), 2);
    assert_eq!(bytes[0], 0x55);
    assert_eq!(bytes[1], 0x01);
}

#[test]
fn test_write_multiple_coils_exactly_8_coils() {
    let coils = vec![true, false, true, false, true, false, true, false];
    let pdu = ModbusRequest::WriteMultipleCoils {
        starting_address: 0x0000,
        values: coils,
    };
    let result = pdu.serialize().unwrap();
    assert_eq!(result[5], 1);
    assert_eq!(result[6], 0x55);
}

#[test]
fn test_write_multiple_coils_9_coils() {
    let coils = vec![true; 9];
    let pdu = ModbusRequest::WriteMultipleCoils {
        starting_address: 0x0000,
        values: coils,
    };
    let result = pdu.serialize().unwrap();
    assert_eq!(result[5], 2);
    assert_eq!(result[6], 0xFF);
    assert_eq!(result[7], 0x01);
}

#[test]
fn test_pack_coils_all_false() {
    let bytes = pack_coils(&[false, false, false, false]);
    assert_eq!(bytes, &[0x00]);
}

#[test]
fn test_write_multiple_registers_empty() {
    let pdu = ModbusRequest::WriteMultipleRegisters {
        starting_address: 0x0001,
        values: vec![],
    };
    let result = pdu.serialize();
    assert!(result.is_err());
}

#[test]
fn test_write_multiple_coils_empty() {
    let pdu = ModbusRequest::WriteMultipleCoils {
        starting_address: 0x0001,
        values: vec![],
    };
    let result = pdu.serialize();
    assert!(result.is_err());
}

#[test]
fn test_read_coils_zero_quantity() {
    let pdu = ModbusRequest::ReadCoils {
        starting_address: 0x0000,
        quantity: 0,
    };
    let result = pdu.serialize();
    assert!(result.is_err());
}

#[test]
fn test_read_coils_exceeds_max() {
    let pdu = ModbusRequest::ReadCoils {
        starting_address: 0x0000,
        quantity: 0x07D1,
    };
    let result = pdu.serialize();
    assert!(result.is_err());
}

#[test]
fn test_read_holding_registers_exceeds_max() {
    let pdu = ModbusRequest::ReadHoldingRegisters {
        starting_address: 0x0000,
        quantity: 0x007E,
    };
    let result = pdu.serialize();
    assert!(result.is_err());
}

#[test]
fn test_write_multiple_coils_exceeds_max() {
    let pdu = ModbusRequest::WriteMultipleCoils {
        starting_address: 0x0000,
        values: vec![true; 1969],
    };
    let result = pdu.serialize();
    assert!(result.is_err());
}

#[test]
fn test_write_multiple_registers_exceeds_max() {
    let pdu = ModbusRequest::WriteMultipleRegisters {
        starting_address: 0x0000,
        values: vec![0x0000; 124],
    };
    let result = pdu.serialize();
    assert!(result.is_err());
}

#[test]
fn test_read_discrete_inputs_validation_error() {
    let pdu = ModbusRequest::ReadDiscreteInputs {
        starting_address: 0x0000,
        quantity: 0,
    };
    let err = pdu.serialize().unwrap_err();
    match err {
        ModbusError::ValidationError(msg) => {
            assert!(msg.contains("ReadDiscreteInputs"));
        }
        other => panic!("expected ValidationError, got {other:?}"),
    }

    let pdu = ModbusRequest::ReadDiscreteInputs {
        starting_address: 0x0000,
        quantity: 0x07D1,
    };
    assert!(pdu.serialize().is_err());
}

#[test]
fn test_read_input_registers_validation_error() {
    let pdu = ModbusRequest::ReadInputRegisters {
        starting_address: 0x0000,
        quantity: 0,
    };
    let err = pdu.serialize().unwrap_err();
    match err {
        ModbusError::ValidationError(msg) => {
            assert!(msg.contains("ReadInputRegisters"));
        }
        other => panic!("expected ValidationError, got {other:?}"),
    }

    let pdu = ModbusRequest::ReadInputRegisters {
        starting_address: 0x0000,
        quantity: 0x007E,
    };
    assert!(pdu.serialize().is_err());
}

/// Exercises the defensive `u16::try_from`/`u8::try_from` branches inside
/// `serialize_modbus_request` by bypassing [`ModbusRequest::serialize`]'s
/// validation step.
#[test]
fn serialize_write_multiple_coils_rejects_oversized_quantity() {
    let pdu = ModbusRequest::WriteMultipleCoils {
        starting_address: 0x0000,
        values: vec![true; usize::from(u16::MAX) + 1],
    };
    let err = serialize_modbus_request(&pdu).unwrap_err();
    match err {
        ModbusError::ValidationError(msg) => {
            assert!(msg.contains("WriteMultipleCoils"));
        }
        other => panic!("expected ValidationError, got {other:?}"),
    }
}

#[test]
fn serialize_write_multiple_coils_rejects_oversized_byte_count() {
    // Quantity fits in u16, but the packed-coil byte count overflows u8.
    // It intentionally exceeds the Modbus spec max to bypass public validation
    // and exercise the crate-internal defensive conversion.
    let pdu = ModbusRequest::WriteMultipleCoils {
        starting_address: 0x0000,
        values: vec![true; (usize::from(u8::MAX) + 1) * 8],
    };
    let err = serialize_modbus_request(&pdu).unwrap_err();
    match err {
        ModbusError::ValidationError(msg) => {
            assert!(msg.contains("byte count"));
        }
        other => panic!("expected ValidationError, got {other:?}"),
    }
}

#[test]
fn serialize_write_multiple_registers_rejects_oversized_quantity() {
    let pdu = ModbusRequest::WriteMultipleRegisters {
        starting_address: 0x0000,
        values: vec![0x0000; usize::from(u16::MAX) + 1],
    };
    let err = serialize_modbus_request(&pdu).unwrap_err();
    match err {
        ModbusError::ValidationError(msg) => {
            assert!(msg.contains("WriteMultipleRegisters"));
        }
        other => panic!("expected ValidationError, got {other:?}"),
    }
}

#[test]
fn serialize_write_multiple_registers_rejects_oversized_byte_count() {
    // Quantity fits in u16, but byte count (quantity * 2) overflows u8.
    // It intentionally exceeds the Modbus spec max (123 registers) to bypass
    // public validation and exercise the crate-internal defensive conversion.
    let pdu = ModbusRequest::WriteMultipleRegisters {
        starting_address: 0x0000,
        values: vec![0x0000; 200],
    };
    let err = serialize_modbus_request(&pdu).unwrap_err();
    match err {
        ModbusError::ValidationError(msg) => {
            assert!(msg.contains("byte count"));
        }
        other => panic!("expected ValidationError, got {other:?}"),
    }
}

#[test]
fn test_write_multiple_coils_len_overflows_u16() {
    let pdu = ModbusRequest::WriteMultipleCoils {
        starting_address: 0x0000,
        values: vec![true; usize::from(u16::MAX) + 1],
    };
    let result = pdu.serialize();
    assert!(result.is_err());
}

#[test]
fn test_write_multiple_registers_len_overflows_u16() {
    let pdu = ModbusRequest::WriteMultipleRegisters {
        starting_address: 0x0000,
        values: vec![0x0000; usize::from(u16::MAX) + 1],
    };
    let result = pdu.serialize();
    assert!(result.is_err());
}
