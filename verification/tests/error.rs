use std::sync::Arc;

use ferrobus::error::{IoError, IoErrorKind};
use ferrobus::ModbusError;

#[test]
fn modbus_error_equality_compares_payloads() {
    assert_eq!(ModbusError::ConnectTimeout, ModbusError::ConnectTimeout);
    assert_eq!(
        ModbusError::ValidationError("bad quantity".to_string()),
        ModbusError::ValidationError("bad quantity".to_string())
    );
    assert_ne!(
        ModbusError::ValidationError("left".to_string()),
        ModbusError::ValidationError("right".to_string())
    );
    assert_eq!(
        ModbusError::ExceptionResponse {
            function: 0x83,
            code: 0x06,
        },
        ModbusError::ExceptionResponse {
            function: 0x83,
            code: 0x06,
        }
    );
}

#[test]
fn io_error_equality_compares_kind_and_message() {
    assert_eq!(
        ModbusError::ReadError(Arc::new(IoError::new(
            IoErrorKind::TimedOut,
            "read timed out",
        ))),
        ModbusError::ReadError(Arc::new(IoError::new(
            IoErrorKind::TimedOut,
            "read timed out",
        )))
    );
    assert_ne!(
        ModbusError::ReadError(Arc::new(IoError::new(
            IoErrorKind::TimedOut,
            "read timed out",
        ))),
        ModbusError::ReadError(Arc::new(IoError::new(
            IoErrorKind::ConnectionReset,
            "read timed out",
        )))
    );
}

#[test]
fn gateway_busy_exception_codes_are_classified() {
    for code in [0x05, 0x06, 0x0A, 0x0B] {
        assert!(
            ModbusError::ExceptionResponse {
                function: 0x83,
                code
            }
            .is_gateway_busy()
        );
    }
    assert!(
        !ModbusError::ExceptionResponse {
            function: 0x83,
            code: 0x02
        }
        .is_gateway_busy()
    );
}

#[test]
fn queue_timeout_is_transient() {
    assert!(ModbusError::QueueTimeout.is_transient());
}
