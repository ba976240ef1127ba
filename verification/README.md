# libp2p-webrtc-browser

A WebRTC transport for connections between browsers. Two browsers cannot reach each other
directly at first, so each reserves a spot on a relay, and they exchange over the relay how a
direct connection between them is set up.

The library under `src/` holds the decisions, verified with Verus. It performs no input or output:

- `extract` reads the relay, the peer, the certificate fingerprint and the socket address out of a
  multiaddress.
- `transport` keeps the relay connections and the events about listeners, and accepts or turns
  down requests to listen and to dial.
- `reservation` and `hop` are the steps by which a spot on a relay is reserved, and the messages
  for it.
- `dial` is the steps by which a peer behind a relay is connected to.
- `proto_stream` is Protobuf messages on a byte stream, each behind its length.
- `config`, `error` and `event` are the types that these share; `multiaddr` and `address_map` deal
  with the addresses of `libp2p-core`; `text` writes numbers.

Functions whose names begin with `law_` state what holds of the library as a whole.

`app/` drives the library in a browser: it owns the sockets, performs the actions that the library
asks for, and hands the outcomes back.
