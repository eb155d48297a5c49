# doip

A client for diagnostics over IP (ISO 13400-2), written in Verus.

- `src/` is the verified library. `client::message` holds the client's
  requests and what it reads of a reply, as plain values.
  `client::session::ClientSession` holds what the client knows of its gateway
  and takes the decisions around an exchange: it builds each request, names
  the transport it travels on and the replies it accepts, checks a received
  frame against them, and turns an accepted reply into its result.
  `client::laws` states the properties that hold across these decisions.
  `iso` declares what the library uses of the ISO 13400-2, ISO 14229-1 and hex
  crates: the frames the ISO 13400-2 crate encodes and decodes, the VIN
  request it builds, and the UDS response the ISO 14229-1 crate decodes are
  named there and relied on as functions of their inputs.
- `app/` holds the sockets: a synchronous `DoIpClient` over UDP and TCP/TLS
  that sends the frames the library builds and hands the replies back to it,
  and the socket address check behind each configuration.
- `tests/` runs the library on concrete frames.
