# juliet

A request/response system with back-pressure over a multiplexed connection, written and proved in
Verus.

- `src/` is the verified library.
  - `ids`, `payload`, `protocol`, `text`: identifiers, payloads, what is needed of the wire
    protocol, and numbers as text.
  - `io`: the wait queue for items that cannot be sent yet, with the laws of its order, and the
    handles and queues between the request layer and the connection.
  - `rpc`: clients, servers, request guards and incoming requests, the heap of timeouts, and the
    laws of a request's life.
- `tests/` runs the library.
- `app/` is the asynchronous code around it: it waits on the clock, on clients and on the peer, and
  hands what arrived to the library. Reading and writing frames is left to an implementation of
  its `Driver` trait.

What a call into an outside crate does is taken from that crate and not proved; every such call
stands behind an item whose doc comment says what is claimed of it. State that is changed through
shared references (cells, channels) is described by what becomes of it over its whole life.
