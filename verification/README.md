# ferrobus

A small Modbus library with typed request and response PDUs and the rules of a
Modbus TCP client, verified with Verus.

## What it covers

- `ModbusRequest` and `ModbusResponse`: encoding, decoding, validation, and the
  check that a response belongs to its request, for reading coils, discrete
  inputs, holding registers and input registers, and for writing single and
  multiple coils and registers
- `WordOrder`: 32-bit and 64-bit values that span several registers
- `tcp`: MBAP framing and the codec, transaction ids, flow control, timeouts,
  retry policy, and the rules by which one actor owns a connection

Every function states in its contract what it returns or changes, error messages
included. What holds of the library as a whole is stated in public proof
functions: next to the types they speak of, and for the transport in
`src/tcp/laws.rs`.

## Layout

- `src/`: the library. It performs no input or output. Where the transport has to
  dial, write, read or wait, the actor says so (`Action`, `Step`) and is told what
  came of it (`Event`, `Actor::dialed`, `Actor::sent`). Callers that wait are
  numbers, points in time are counts of nanoseconds, and floating-point values
  are bit patterns.
- `app/`: a client around the library: the runtime, the socket, channels, timers,
  logging and the delays between retries.
- `tests/`: tests of the library.

## What is trusted

The codec works on the buffer of the `bytes` crate. `src/tcp/codec.rs` says what
is taken for granted of `BytesMut::as_ref`, `split_to`, `reserve` and
`extend_from_slice`. Everything else is proved.
