# antrelay

The frontend relay of a lunar rover payload: it carries commands from the
ground to a central station over a serial link, acknowledges what is
addressed to it, drives the mission's command sequence, and sends telemetry
back down.

## Layout

- `src/` — the library, verified with Verus.
  - `message/` — the 8-byte header, the acknowledgement, the CRC-8/SMBUS
    checksum, checksummed payloads and header/payload framing, each with its
    byte format stated as a spec function and round-trip laws.
  - `relay/` — the typestate mission control and the serial control's state
    machine (event in, next state and action out), with its laws; the
    per-packet decisions of the relay.
  - `io.rs` — splitting the serial byte stream at a sentinel, and the table
    that routes acknowledgements to the commands waiting for them.
  - `downlink.rs`, `stream_monad.rs` — framing (postcard, COBS) and Brotli
    compression of packets.
  - `console.rs`, `trace.rs` — the text shown to operators and sent in logs,
    and the operator tools' input: hex literals and downlink packets given as
    hex, base64 or raw bytes.
- `app/` — the asynchronous program around the library: sockets, the serial
  port, the tasks that run the state machine and move packets.
- `tests/` — tests of the library on concrete values.
