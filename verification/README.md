# libaegis

Client library for components of the Aegis daemon, verified with Verus.

A component registers with the daemon over a control channel (a Unix socket
with newline-delimited JSON), answers its PINGs, is configured, reborn and shut
down by it, and reads market data from a second socket.

- `src/` decides what a component says and does. The control channel and the
  opening of a data stream are state machines: the driver reports an event and
  performs the action that comes back. Every transition has an exact contract,
  and the laws that the protocol promises (`on_running` starts once, a state is
  reached once it is announced, the watchdog fires after the timeout and not
  before, ...) are proved from them.
- `app/` is the driver: sockets, clock, JSON texts and the application's
  callbacks, on tokio and serde.
- `tests/` runs the library on concrete values.

What is taken on trust: `serde_json::Value` is carried through unread, and its
clone is the value that was cloned (`src/json.rs`).
