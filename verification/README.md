# zevbot

A bridge between a WhatsApp session and WebSocket clients. Clients send JSON
control requests (send, react, edit, revoke, status, disconnect, logout) and
receive JSON events (pairing, connection, incoming messages, acknowledgements).

- `src/` is the verified library (Verus):
  - `cli.rs`: the command line, from words to options or a refusal;
  - `messages.rs`: the wire messages and their constructors;
  - `socket.rs`: the decision of a connection's loop on each event;
  - `bot.rs`: which session events are published, and what each control request
    asks the WhatsApp client to do (addresses parsed through `jid.rs`);
  - `session.rs`: ports, paths, pairing request and client profile.
- `app/` is the program around it: argument and environment reading, the JSON
  (serde) form of the messages, the axum WebSocket server and the
  `whatsapp_rust` bot.
- `tests/` runs the library on concrete values.
