# rtc_signal

The signalling core of a WebSocket server that relays chat lines between
clients and answers their WebRTC offers.

- `src/` is the library, verified with Verus:
  - `peer_addr`: the address a client connected from, as plain integers;
  - `client`, `client_manager`: the registry of connected clients, with its
    laws (lookup after registration and removal, relay targets);
  - `signal`: the signalling messages and the JSON text written for them;
  - `webrtc_client`: the peer-connection state of a client, the peer
    connection configuration, and the choice of transceiver for a new track;
  - `session`: what is done with each event on a client's socket, including
    every frame handed out and to whom;
  - `outside`: the declared tokio, tungstenite and webrtc types, serde_json
    string escaping (stated in full) and webrtc SDP parsing.
- `app/` is the server itself: accepting connections, reading frames,
  decoding JSON, and the awaited work on `webrtc` peer connections.
- `tests/` runs the library on concrete values.
