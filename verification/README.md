# peer

The decisions of a peer-to-peer connection, verified with Verus.

`src/` holds no sockets, timers or tasks. It holds what a peer decides, on plain values:

- `bootstrap`, `local`, `address`, `messages`, `error`: what a peer is told, what it knows of
  itself, what it exchanges and what can go wrong;
- `handshake`: the exchange that opens a connection, as a state that takes the outcome of one
  action and says what to do next;
- `replay`: the same exchange at once, on outcomes that are known beforehand;
- `incoming`: the loop that reads from an open connection;
- `sending`: the task that writes one message;
- `channel`, `peer`: the actor of a peer, and what it tells the rest of the node;
- `text`: the pieces of text that reports and actor names are made of;
- `laws`: what holds of all of these together.

One function is trusted: `text::quoted`, which has `std` quote and escape a string.

`app/` performs the actions: it runs one riker actor for each peer and tokio tasks for the
handshake, the loop and the writes. The wire format, the cryptography and the encrypted streams
of a node come in through the trait `Node`.
