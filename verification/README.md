# lib60870

IEC 60870-5-101 / 60870-5-104 for SCADA and power system communication,
with its codecs and protocol rules proved correct by Verus.

## Layout

- `src/` — the verified library.
  - `types/` — type identifications, causes of transmission, addresses,
    quality descriptors, CP16/CP24/CP56 time tags, and the APCI, application
    layer and link layer parameters with their builders.
  - `info/` — the information object elements and their wire encodings.
  - `asdu/` — information object addresses, the data unit identifier, the
    ASDU layout (SQ = 0 and SQ = 1) and the ASDU builder.
  - `apci.rs` — CS 104 APCI framing and the incremental frame reader.
  - `ft12.rs` — FT 1.2 link frames, control fields and the frame parser.
  - `session.rs` — the CS 104 session state (sequence numbers, windows,
    acknowledgments, timer arming, STARTDT/STOPDT/TESTFR).
  - `client.rs`, `server.rs` — the decisions of the client, the CS 101
    primary and secondary link stations, the queues of outgoing ASDUs and
    the activation confirmation.
  - `transport.rs` — the reconnect back-off and the serial configuration.
  - `wire.rs` — the byte buffers of the `bytes` crate, with the contracts
    of the methods that the codecs call.
- `app/` — the asynchronous runtime: transports (TCP, TLS, serial,
  serial over TCP), frame I/O over streams, and the client, master, server
  and slave tasks that run the library's state machines.
- `tests/` — tests of the library on concrete values.

Each codec comes with a round-trip law (decoding an encoding gives the
value back and takes exactly its bytes), and each frame parser with the
law that an incomplete frame is left untouched.

## SQ is an encoding detail

An `Asdu` always holds explicit (address, object) pairs. Decoding SQ = 1
computes the consecutive addresses; encoding with `is_sequence` set checks
that the addresses are consecutive and writes the compact form.
