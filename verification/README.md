# msgpacknet

A networking layer in which nodes, identified by node ids, exchange
MessagePack-encoded messages over TCP.

- `src/` is the verified core: the closable event queue (`queue`), the event
  store of the simple callback (`simple`), and the node (`socket`): its event
  queue, its listening sockets and its registry of connections, with the
  decisions of sending, receiving, accepting and closing. Blocking reads are
  split into a decision (`Step::Ready` or `Step::Wait`) that the core takes
  under the lock, and the wait itself.
- `app/` runs the core: TCP sockets, the threads that accept connections and
  read messages, locks and condition variables, MessagePack encoding with
  `rmp-serde`, random node ids with `rand`, and the floating-point transfer
  statistics.
- `tests/` exercises the core.
