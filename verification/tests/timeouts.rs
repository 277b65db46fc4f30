use ferrobus::tcp::ModbusTcpTimeouts;
use ferrobus::time::Duration;

#[test]
fn default_timeouts_are_five_seconds() {
    let timeouts = ModbusTcpTimeouts::default();

    assert_eq!(timeouts.connect_timeout, Duration::from_secs(5));
    assert_eq!(timeouts.write_timeout, Duration::from_secs(5));
    assert_eq!(timeouts.response_timeout, Duration::from_secs(5));
}
