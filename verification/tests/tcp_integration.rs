//! A client and a server that share one actor, without a network between them.

use bytes::BytesMut;
use ferrobus::tcp::actor::{Action, Actor, Event, RequestCommand, WriteOutcome};
use ferrobus::tcp::codec::MbapCodec;
use ferrobus::tcp::{ModbusTcpConnection, ModbusTcpSocket, ModbusTcpTimeouts};
use ferrobus::test_support::{
    build_exception_response_frame, build_protocol_mismatch_frame, build_tcp_response_frame,
    read_request_frame, request_pdu_len, CapturedRequest,
};
use ferrobus::time::{Duration, Instant};
use ferrobus::{ModbusError, ModbusRequest, ModbusResponse};

struct Link {
    actor: Actor,
    handle: ModbusTcpConnection,
    codec: MbapCodec,
    outgoing: BytesMut,
    incoming: BytesMut,
    answered: Vec<(u64, Result<Vec<u8>, ModbusError>)>,
    now: u128,
}

impl Link {
    fn new(transaction_id: u16) -> Link {
        let (actor, handle) = ModbusTcpSocket::new("127.0.0.1", 502, 1)
            .with_initial_transaction_id(transaction_id)
            .with_timeouts(ModbusTcpTimeouts {
                connect_timeout: Duration::from_millis(50),
                write_timeout: Duration::from_millis(50),
                response_timeout: Duration::from_millis(25),
            })
            .connect()
            .unwrap();
        Link {
            actor,
            handle,
            codec: MbapCodec,
            outgoing: BytesMut::new(),
            incoming: BytesMut::new(),
            answered: Vec::new(),
            now: 0,
        }
    }

    fn now(&self) -> Instant {
        Instant::from_nanos(self.now)
    }

    fn perform(&mut self, actions: Vec<Action>) {
        for action in actions {
            match action {
                Action::Answer { waiter, outcome } => self.answered.push((waiter, outcome)),
                Action::Dial(dialing) => {
                    let next = self.actor.dialed(dialing, Ok(()), self.now());
                    self.perform(next);
                }
                Action::Send { tid, waiter, adu } => {
                    self.codec.encode(adu, &mut self.outgoing).unwrap();
                    let next = self.actor.sent(tid, waiter, WriteOutcome::Written, self.now());
                    self.perform(next);
                }
                Action::CloseSocket => {
                    self.outgoing.clear();
                    self.incoming.clear();
                }
                _ => {}
            }
        }
    }

    fn submit(&mut self, unit_id: u8, request: &ModbusRequest, waiter: u64) {
        let command: RequestCommand =
            self.handle.request_command(unit_id, request, waiter, self.now());
        let now = self.now();
        let actions = self.actor.handle(Event::Request(command), now, &[]);
        self.perform(actions);
    }

    fn server_receives(&mut self) -> CapturedRequest {
        let frame = self.codec.decode(&mut self.outgoing).unwrap().unwrap();
        let mut header = [0u8; 7];
        header.copy_from_slice(&frame[..7]);
        assert_eq!(request_pdu_len(header), frame.len() - 7);
        read_request_frame(header, frame[7..].to_vec())
    }

    fn server_sends(&mut self, bytes: &[u8]) {
        self.incoming.extend_from_slice(bytes);
        loop {
            let event = match self.codec.decode(&mut self.incoming) {
                Ok(Some(frame)) => Event::Frame(frame),
                Ok(None) => return,
                Err(error) => Event::StreamFailed(error),
            };
            let now = self.now();
            let actions = self.actor.handle(event, now, &[]);
            self.perform(actions);
        }
    }

    fn outcome(
        &mut self,
        unit_id: u8,
        request: &ModbusRequest,
        waiter: u64,
    ) -> Result<ModbusResponse, ModbusError> {
        let position = self
            .answered
            .iter()
            .position(|(answered, _)| *answered == waiter)
            .unwrap();
        let (_, reply) = self.answered.remove(position);
        self.handle.send_once(unit_id, request, Some(reply))
    }
}

fn read_coils(quantity: u16) -> ModbusRequest {
    ModbusRequest::ReadCoils {
        starting_address: 0x0000,
        quantity,
    }
}

fn read_coils_response(tid: u16, unit_id: u8, coils: &[bool]) -> Vec<u8> {
    let packed = ferrobus::request::pack_coils(coils);
    let mut pdu = vec![1u8, packed.len() as u8];
    pdu.extend_from_slice(&packed);
    build_tcp_response_frame(tid, unit_id, &pdu)
}

#[test]
fn send_read_coils_success() {
    let mut link = Link::new(0);
    let request = read_coils(8);
    let coils = [true, false, true, false, true, false, true, false];

    link.submit(1, &request, 10);
    let captured = link.server_receives();
    link.server_sends(&read_coils_response(
        captured.transaction_id,
        captured.unit_id,
        &coils,
    ));

    assert_eq!(
        link.outcome(1, &request, 10).unwrap(),
        ModbusResponse::ReadCoils {
            coils: coils.to_vec()
        }
    );
}

#[test]
fn send_write_single_register_success() {
    let mut link = Link::new(0);
    let request = ModbusRequest::WriteSingleRegister {
        address: 0x0010,
        value: 0x1234,
    };

    link.submit(1, &request, 10);
    let captured = link.server_receives();
    assert_eq!(captured.pdu, vec![6, 0x00, 0x10, 0x12, 0x34]);
    link.server_sends(&build_tcp_response_frame(
        captured.transaction_id,
        captured.unit_id,
        &captured.pdu,
    ));

    assert_eq!(
        link.outcome(1, &request, 10).unwrap(),
        ModbusResponse::WriteSingleRegister {
            address: 0x0010,
            value: 0x1234
        }
    );
}

#[test]
fn transaction_id_increments() {
    let mut link = Link::new(100);

    for (waiter, expected) in [(1, 100), (2, 101)] {
        link.submit(1, &read_coils(2), waiter);
        let captured = link.server_receives();
        assert_eq!(captured.transaction_id, expected);
        link.server_sends(&read_coils_response(expected, 1, &[true, false]));
        link.outcome(1, &read_coils(2), waiter).unwrap();
    }
}

#[test]
fn concurrent_in_flight_requests_are_matched_out_of_order() {
    let mut link = Link::new(0);
    let request = read_coils(2);

    link.submit(1, &request, 10);
    link.submit(2, &request, 20);
    let first = link.server_receives();
    let second = link.server_receives();
    link.server_sends(&read_coils_response(
        second.transaction_id,
        second.unit_id,
        &[false, true],
    ));
    link.server_sends(&read_coils_response(
        first.transaction_id,
        first.unit_id,
        &[true, false],
    ));

    assert_eq!(
        link.outcome(1, &request, 10).unwrap(),
        ModbusResponse::ReadCoils {
            coils: vec![true, false]
        }
    );
    assert_eq!(
        link.outcome(2, &request, 20).unwrap(),
        ModbusResponse::ReadCoils {
            coils: vec![false, true]
        }
    );
}

#[test]
fn server_sends_invalid_mbap_length() {
    let mut link = Link::new(0);
    let request = read_coils(2);

    link.submit(1, &request, 10);
    let captured = link.server_receives();
    link.server_sends(&[
        (captured.transaction_id >> 8) as u8,
        captured.transaction_id as u8,
        0,
        0,
        0,
        0,
        1,
    ]);

    let error = link.outcome(1, &request, 10).unwrap_err();
    assert!(matches!(error, ModbusError::MalformedResponse(_)));
    assert!(link.handle.tries_again(&error));
    assert!(!link.actor.status.connected);

    link.submit(1, &request, 11);
    let captured = link.server_receives();
    link.server_sends(&read_coils_response(
        captured.transaction_id,
        captured.unit_id,
        &[true, false],
    ));
    assert_eq!(
        link.outcome(1, &request, 11).unwrap(),
        ModbusResponse::ReadCoils {
            coils: vec![true, false]
        }
    );
    assert_eq!(link.actor.status.generation, 2);
}

#[test]
fn send_messages_across_multiple_unit_ids_on_one_connection() {
    let mut link = Link::new(0);
    let request = read_coils(2);

    for unit_id in [1u8, 2u8] {
        link.submit(unit_id, &request, u64::from(unit_id));
        let captured = link.server_receives();
        assert_eq!(captured.unit_id, unit_id);
        link.server_sends(&read_coils_response(
            captured.transaction_id,
            captured.unit_id,
            &[true, false],
        ));
        assert_eq!(
            link.outcome(unit_id, &request, u64::from(unit_id)).unwrap(),
            ModbusResponse::ReadCoils {
                coils: vec![true, false]
            }
        );
    }
}

#[test]
fn send_message_returns_exception_response_as_typed_error() {
    let mut link = Link::new(0);
    let request = read_coils(2);

    link.submit(1, &request, 10);
    let captured = link.server_receives();
    link.server_sends(&build_exception_response_frame(
        captured.transaction_id,
        captured.unit_id,
        0x01,
        0x02,
    ));

    match link.outcome(1, &request, 10).unwrap_err() {
        ModbusError::ExceptionResponse { function, code } => {
            assert_eq!(function, 0x81);
            assert_eq!(code, 0x02);
        }
        other => panic!("Expected ExceptionResponse, got {other:?}"),
    }
}

#[test]
fn send_message_returns_protocol_id_mismatch_as_typed_error() {
    let mut link = Link::new(0);
    let request = read_coils(1);

    link.submit(1, &request, 10);
    let captured = link.server_receives();
    link.server_sends(&build_protocol_mismatch_frame(
        captured.transaction_id,
        1,
        captured.unit_id,
        &[0x01, 0x01, 0x01],
    ));

    match link.outcome(1, &request, 10).unwrap_err() {
        ModbusError::ProtocolIdMismatch { actual } => assert_eq!(actual, 1),
        other => panic!("Expected ProtocolIdMismatch, got {other:?}"),
    }
}

#[test]
fn send_message_returns_unit_id_mismatch_as_typed_error() {
    let mut link = Link::new(0);
    let request = read_coils(2);

    link.submit(1, &request, 10);
    let captured = link.server_receives();
    link.server_sends(&read_coils_response(
        captured.transaction_id,
        captured.unit_id.wrapping_add(1),
        &[true, false],
    ));

    match link.outcome(1, &request, 10).unwrap_err() {
        ModbusError::UnitIdMismatch { expected, actual } => {
            assert_eq!(expected, 1);
            assert_eq!(actual, 2);
        }
        other => panic!("Expected UnitIdMismatch, got {other:?}"),
    }
}

#[test]
fn send_message_returns_read_timeout_from_slow_server() {
    let mut link = Link::new(0);
    let request = read_coils(1);

    link.submit(1, &request, 10);
    link.now = 25_000_000;
    let now = link.now();
    let actions = link.actor.handle(Event::Woken, now, &[]);
    link.perform(actions);

    match link.outcome(1, &request, 10).unwrap_err() {
        ModbusError::ReadTimeout => {}
        other => panic!("Expected ReadTimeout, got {other:?}"),
    }
}

#[test]
fn stray_response_with_unknown_tid_is_ignored() {
    let mut link = Link::new(0);
    let request = read_coils(2);

    link.submit(1, &request, 10);
    let captured = link.server_receives();
    link.server_sends(&read_coils_response(
        captured.transaction_id.wrapping_add(100),
        captured.unit_id,
        &[true],
    ));
    assert!(link.answered.is_empty());
    link.server_sends(&read_coils_response(
        captured.transaction_id,
        captured.unit_id,
        &[true, false],
    ));

    assert_eq!(
        link.outcome(1, &request, 10).unwrap(),
        ModbusResponse::ReadCoils {
            coils: vec![true, false]
        }
    );
}

#[test]
fn caller_future_cancellation_does_not_break_following_requests() {
    let mut link = Link::new(0);
    let request = read_coils(2);

    link.submit(1, &request, 10);
    let given_up = link.server_receives();
    let now = link.now();
    let actions = link.actor.handle(Event::Woken, now, &[10]);
    link.perform(actions);
    link.submit(1, &request, 11);
    let following = link.server_receives();
    assert_ne!(given_up.transaction_id, following.transaction_id);
    link.server_sends(&read_coils_response(
        given_up.transaction_id,
        given_up.unit_id,
        &[false, false],
    ));
    link.server_sends(&read_coils_response(
        following.transaction_id,
        following.unit_id,
        &[true, false],
    ));

    assert_eq!(
        link.outcome(1, &request, 11).unwrap(),
        ModbusResponse::ReadCoils {
            coils: vec![true, false]
        }
    );
    assert!(link.answered.is_empty());
}
