use ferrobus::tcp::ConnectionStatus;

/// Pins the literal initial state. This is the only assertion in the crate
/// that is not written against `ConnectionStatus::disconnected()` itself, so
/// it is the test that fails if the constructor ever stops meaning
/// "no socket has been opened yet".
#[test]
fn disconnected_starts_at_generation_zero() {
    let status = ConnectionStatus::disconnected();

    assert!(!status.connected);
    assert_eq!(status.generation, 0);
}
