# little-stomper

A STOMP 1.2 server library whose decisions are proved correct with Verus,
and a WebSocket server built on it.

## Layout

- `src/` — the verified library.
  - `frame/` — reading the command line and the CONNECT headers of client
    frames from raw bytes.
  - `session.rs` — the client session as a state machine: what the server
    answers to each event, the subscriptions it keeps, and the work it asks
    the runtime to do (subscribe, send, start or reset heart-beats, watch the
    client's heart-beats, close after a final error).
  - `codec.rs` — client frames read, and server frames written, with
    `stomp_parser`.
  - `inmemory.rs` — an in-memory destination that delivers each message to
    all its subscriptions and drops those whose delivery failed.
  - `timer.rs`, `websocket.rs`, `frame_handler.rs` — the decisions of the
    resettable heart-beat timer, of the WebSocket transport and of the
    frame handler.
  - `table.rs`, `text.rs`, `destinations.rs`, `client.rs`, `error.rs` —
    supporting types.
- `app/` — the asynchronous runtime on tokio that runs sessions, timers and
  destinations, and the WebSocket server (`main`).
- `tests/` — tests of the library.
