# message_io

An event-driven network library over TCP, framed TCP, UDP, WebSocket and unix
sockets, whose logic is proved with Verus.

- `src/` is the verified library: the two framings of messages over streams
  (fixed four-byte and varint size headers) with their decoders, the packing of
  resource identifiers, the transports and their limits, the poll tokens, the
  connection table, the driver's register of resources with their ready
  flags, and the decisions the adapters and the driver take on what a system
  call returned. Contracts are stated over `Seq`, `Map` and
  plain values; the laws that relate several calls are public proof functions.
- `app/` holds the I/O around it: the sockets of `mio`, `socket2`, `net2` and
  `tungstenite`, the read, write, accept and handshake loops that hand each
  outcome to the library and act on its answer, the driver of an adapter
  (its registers behind locks and the poll), addresses, threads, and the
  copies of library types that carry `serde` and `strum` derives. The
  network controller and processor, the node API and the event thread are
  not there.
- `tests/` runs the library on concrete values.
