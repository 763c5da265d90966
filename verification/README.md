# hsms

A verified HSMS-SS endpoint: SECS-II messages over one TCP connection (SEMI E37),
with bounded queues everywhere and a definite end for everything that was
accepted.

- `src/` is the library. Every function in it is verified by Verus against the
  contract in its header, except the wrappers around single calls into tokio and
  bytes (`sync/` and `generation/transport/buffer.rs`), whose contracts Verus
  takes as given.
  - `model/`, `protocol/`, `secs2.rs`, `api.rs`, `error.rs`, `text.rs`: values.
  - `config.rs`: the configuration from which the parts of an endpoint are built.
  - `session_core/`: System Bytes, response matching, the transaction registry.
  - `generation/transport/`: framing, bounded Reader and Writer, task custody.
  - `generation/driver/`: execution of one generation's protocol decisions, with
    a history in which every entry is a call made to the core or a port.
  - `generation/runtime.rs`: rounds and bounded closing of one generation.
  - `endpoint/`: admission, routing, published state, delivery, diagnostics.
  - `manager.rs`: connection management of a single-session endpoint.
  - `sync/`: the tokio primitives, as far as the library calls them.
- `tests/` runs the library on concrete values.
- `app/` holds the sockets, tasks and timers around the library. It takes the
  frame decoder and the protocol core as parameters.

Times are nanoseconds on a clock that starts with the connection. How far the
clock reaches is up to the machine: a deadline beyond that is refused.
