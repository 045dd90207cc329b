# kapacitor_udf

A library for Kapacitor user-defined functions (UDFs), verified with Verus.

- `src/` is the verified library: the varint length prefix and the message
  framing of the UDF stream (`varint`, `io`), the envelope of requests and
  responses (`proto`), the server interfaces (`traits`, `stdio_server`),
  the request dispatch and the decisions of the agent's
  loops and lifecycle (`agent`), and the stop and signal decisions of the
  Unix-socket server (`socket_server`).
- `app/` holds the asynchronous runtime: the asynchronous `Handler` trait,
  the streams, channels and tasks of the agent and the servers, and the
  protobuf messages of the protocol.
- `tests/` exercises the library on concrete values.
