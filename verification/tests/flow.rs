use ferrobus::tcp::ModbusTcpFlowControl;
use ferrobus::time::Duration;

#[test]
fn default_and_serial_gateway_are_documented() {
    assert_eq!(ModbusTcpFlowControl::default().max_in_flight, 16);
    assert_eq!(ModbusTcpFlowControl::serial_gateway().max_in_flight, 1);
}

#[test]
fn validate_rejects_invalid_values() {
    assert!(ModbusTcpFlowControl { max_in_flight: 0, ..Default::default() }.validate().is_err());
    assert!(ModbusTcpFlowControl { max_queue_depth: 0, ..Default::default() }.validate().is_err());
    assert!(ModbusTcpFlowControl { queue_timeout: Duration::zero(), ..Default::default() }.validate().is_err());
    assert!(ModbusTcpFlowControl { quarantine_ttl: Duration::zero(), ..Default::default() }.validate().is_err());
    assert!(ModbusTcpFlowControl::default().validate().is_ok());
}
